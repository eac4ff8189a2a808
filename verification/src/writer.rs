//! A handle on a shared log writer.
use std::sync::Arc;
use std::sync::Mutex;
use vstd::prelude::*;

verus! {

/// The mutex of the standard library, carried through without looking
/// inside: nothing here locks it.
#[verifier::external_type_specification]
#[verifier::external_body]
#[verifier::reject_recursive_types(T)]
pub struct ExMutex<T: ?Sized>(Mutex<T>);

/// A writer that hands every write on to one shared writer.
#[verifier::reject_recursive_types(W1)]
pub struct MultiWriter<W1> {
    pub writer1: Arc<Mutex<W1>>,
}

impl<W1> MultiWriter<W1> {
    /// A handle on `writer1`.
    pub fn new(writer1: Arc<Mutex<W1>>) -> (r: Self)
        ensures
            r.writer1 == writer1,
    {
        MultiWriter { writer1 }
    }
}

} // verus!
