//! The hotkey bindings in a cell that is read without locks and replaced
//! whole.

use crate::hotkeys::{HotkeyTable, WmCommand};
use crate::keys::Hotkey;
use arc_swap::ArcSwap;
use std::sync::Arc;
use vstd::prelude::*;

verus! {

/// A container of the outside crate `arc_swap` that holds the bindings.
#[verifier::external_body]
#[derive(Debug)]
pub struct SharedHotkeyTable {
    cell: ArcSwap<HotkeyTable>,
}

/// The bindings that a container holds.
pub uninterp spec fn held(table: SharedHotkeyTable) -> Map<Hotkey, Seq<WmCommand>>;

impl SharedHotkeyTable {
    /// Calls `ArcSwap::from_pointee`. A new container holds the value that it
    /// is made from.
    #[verifier::external_body]
    pub(crate) fn new(table: HotkeyTable) -> (r: SharedHotkeyTable)
        ensures
            held(r) == table@,
    {
        SharedHotkeyTable { cell: ArcSwap::from_pointee(table) }
    }

    /// Calls `ArcSwap::load_full`. A load yields the value that the container
    /// holds, which only [`SharedHotkeyTable::store`] replaces: the container
    /// hands out no reference through which another thread could.
    #[verifier::external_body]
    pub(crate) fn load(&self) -> (r: Arc<HotkeyTable>)
        ensures
            r@ == held(*self),
    {
        self.cell.load_full()
    }

    /// Calls `ArcSwap::store`. Further loads yield the stored value.
    #[verifier::external_body]
    pub(crate) fn store(&mut self, table: HotkeyTable)
        ensures
            held(*final(self)) == table@,
    {
        self.cell.store(Arc::new(table))
    }
}

} // verus!
