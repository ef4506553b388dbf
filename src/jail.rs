//! The jail handle and the errors of the operations on it.
use vstd::prelude::*;

verus! {

/// A handle on a running jail: its jail id, as the kernel assigned it.
///
/// Holding a handle does not keep the jail alive: it may have been removed
/// since the handle was made, in which case attaching to it fails.
#[derive(Clone, Copy, Debug, PartialEq, Eq, Structural)]
pub struct RunningJail {
    pub jid: i32,
}

impl RunningJail {
    /// The handle of the jail with id `jid`.
    pub fn from_jid(jid: i32) -> (r: RunningJail)
        ensures
            r.jid == jid,
    {
        RunningJail { jid }
    }
}

/// Why an operation on a jail failed.
///
/// Only `JailAttachError` may come out of an attach; the other reasons belong
/// to the other operations on jails.
#[derive(Clone, Copy, Debug, PartialEq, Eq, Structural)]
pub enum JailError {
    /// `jail_attach` failed with this OS error code.
    JailAttachError(i32),
    /// `jail_get` failed with this OS error code.
    JailGetError(i32),
    /// `jail_set` failed with this OS error code.
    JailSetError(i32),
    /// `jail_remove` failed with this OS error code.
    JailRemoveError(i32),
    /// The jail holds no parameter of the name asked for.
    ParameterNotFound,
    /// A jail parameter had another type than the one asked for.
    ParameterTypeError,
}

} // verus!
