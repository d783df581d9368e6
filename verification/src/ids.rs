//! Identities of windows, spaces, workspaces and applications.

use crate::table::Ident;
use vstd::prelude::*;

verus! {

/// A window, by the process that owns it and its number within that process.
#[derive(Clone, Copy, Debug, PartialEq, Eq, Structural)]
pub struct WindowId {
    pub pid: i32,
    pub idx: u32,
}

/// A native desktop space.
#[derive(Clone, Copy, Debug, PartialEq, Eq, Structural)]
pub struct SpaceId {
    pub raw: u64,
}

/// A window, by the number that the window server gives it.
#[derive(Clone, Copy, Debug, PartialEq, Eq, Structural)]
pub struct WindowServerId {
    pub raw: u32,
}

/// A virtual workspace of the layout engine.
#[derive(Clone, Copy, Debug, PartialEq, Eq, Structural)]
pub struct WorkspaceId {
    pub raw: u64,
}

/// A frame write that was sent to an application.
#[derive(Clone, Copy, Debug, PartialEq, Eq, Structural)]
pub struct TransactionId {
    pub raw: u64,
}

/// The process of an application.
#[derive(Clone, Copy, Debug, PartialEq, Eq, Structural)]
pub struct ProcessId {
    pub raw: i32,
}

impl WindowId {
    pub fn new(pid: i32, idx: u32) -> (r: WindowId)
        ensures
            r == (WindowId { pid, idx }),
    {
        WindowId { pid, idx }
    }
}

impl SpaceId {
    pub fn new(raw: u64) -> (r: SpaceId)
        ensures
            r == (SpaceId { raw }),
    {
        SpaceId { raw }
    }
}

impl WindowServerId {
    pub fn new(raw: u32) -> (r: WindowServerId)
        ensures
            r == (WindowServerId { raw }),
    {
        WindowServerId { raw }
    }
}

impl Ident for WindowId {
    fn same(self, other: Self) -> (r: bool) {
        self == other
    }
}

impl Ident for SpaceId {
    fn same(self, other: Self) -> (r: bool) {
        self == other
    }
}

impl Ident for WindowServerId {
    fn same(self, other: Self) -> (r: bool) {
        self == other
    }
}

impl Ident for WorkspaceId {
    fn same(self, other: Self) -> (r: bool) {
        self == other
    }
}

impl Ident for ProcessId {
    fn same(self, other: Self) -> (r: bool) {
        self == other
    }
}

} // verus!
