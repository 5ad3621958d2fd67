use vstd::prelude::*;

verus! {

/// Identifies a customer, by the ID Orb assigned or by the caller's own
/// external ID.
#[derive(Clone, Copy, Debug, PartialEq, Eq)]
pub enum CustomerId<'a> {
    Orb(&'a str),
    External(&'a str),
}

} // verus!
