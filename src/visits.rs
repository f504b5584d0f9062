use vstd::prelude::*;

verus! {

/// A visit to the index page, from the counter stored in the visitor's
/// session: returns the count to show and the count to store. A first visit
/// shows 0 and stores 1; a later one shows the stored count and stores it
/// plus one.
pub fn count_visit(stored: Option<i32>) -> (r: (i32, i32))
    requires
        stored matches Some(c) ==> c < i32::MAX,
    ensures
        stored is None ==> r == (0i32, 1i32),
        stored matches Some(c) ==> r == (c, (c + 1) as i32),
{
    match stored {
        Some(c) => (c, c + 1),
        None => (0, 1),
    }
}

} // verus!
