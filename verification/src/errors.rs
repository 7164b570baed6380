//! The error the runtime reports for one failed dispatch. Wiring defects
//! (registry and typing faults) are kept apart from storage faults, so a
//! data problem is never mistaken for a registration bug.

use vstd::prelude::*;

use crate::dyn_table::DispatchError;
use crate::global_storage::StorageError;

verus! {

#[derive(PartialEq, Eq, Structural, Clone, Copy, Debug)]
pub enum RuntimeError {
    /// A storage fault inside the handler.
    Storage(StorageError),
    /// A registry or typing fault: nothing registered, or a desynced value.
    Dispatch(DispatchError),
    /// An opaque internal fault.
    Other,
}

pub type RuntimeResult<T> = Result<T, RuntimeError>;

} // verus!
