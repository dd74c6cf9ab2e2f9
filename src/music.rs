use vstd::prelude::*;

verus! {

/// Why a music item could not be created.
#[derive(Clone, Copy, PartialEq, Eq, Structural, Debug)]
pub enum CreateError {
    /// The store inserted no row.
    NotInserted,
}

/// Judges the insert of a new music row by the number of rows it affected:
/// creation goes on only when the store inserted a row.
pub fn check_inserted(affected_rows: usize) -> (r: Result<(), CreateError>)
    ensures
        r is Ok <==> affected_rows > 0,
        r is Err ==> r == Err::<(), CreateError>(CreateError::NotInserted),
{
    if affected_rows == 0 {
        Err(CreateError::NotInserted)
    } else {
        Ok(())
    }
}

} // verus!
