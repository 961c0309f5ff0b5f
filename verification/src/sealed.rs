use vstd::prelude::*;

verus! {

/// Seals a trait so that it cannot be implemented outside this crate.
pub trait Sealed<X> {
}

/// A trait that cannot be implemented outside this crate.
pub trait CantImpl {
}

/// A type that cannot be built outside this crate: its only field is private.
pub struct CantName {
    _private: (),
}

impl CantImpl for CantName {
}

} // verus!
