use vstd::prelude::*;

verus! {

/// Why an exactly-one lookup failed: the entity or window that must exist
/// exactly once at startup is absent, or more than one was found. Both are
/// fatal at startup; neither can arise once the frame loop runs.
#[derive(Clone, Copy, PartialEq, Eq, Structural, Debug)]
pub enum SingletonError {
    NotFound,
    MultipleFound,
}

/// An exactly-one lookup: the single element of `items` when there is
/// exactly one, and the specific error otherwise. A driver resolves its
/// primary window and its one player through this once at startup, instead
/// of asserting blindly each frame.
pub fn get_single<T: Copy>(items: &Vec<T>) -> (r: Result<T, SingletonError>)
    ensures
        items@.len() == 1 ==> r == Ok::<T, SingletonError>(items@[0]),
        items@.len() == 0 ==> r == Err::<T, SingletonError>(SingletonError::NotFound),
        items@.len() > 1 ==> r == Err::<T, SingletonError>(SingletonError::MultipleFound),
        r is Ok <==> items@.len() == 1,
{
    if items.len() == 1 {
        Ok(items[0])
    } else if items.len() == 0 {
        Err(SingletonError::NotFound)
    } else {
        Err(SingletonError::MultipleFound)
    }
}

} // verus!
