pub mod entity;
pub mod music;
pub mod range;
pub mod stream;
pub mod tag_key;
