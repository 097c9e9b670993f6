//! Errors of the storage helpers (keyed maps, indexed lists, queues and
//! stacks kept in contract storage).
use vstd::prelude::*;

verus! {

#[derive(Clone, Copy, Debug, PartialEq, Eq, Structural)]
pub enum Error {
    KeyNotFound,
    IndexOutOfBounds,
    QueueEmpty,
    StackEmpty,
    Overflow,
}

} // verus!
