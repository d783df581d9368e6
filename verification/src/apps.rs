//! The applications that the reactor knows.

use crate::ids::ProcessId;
use crate::outcome::AppHandle;
use crate::table::Table;
use vstd::prelude::*;

verus! {

#[derive(Clone, Copy, Debug, PartialEq, Eq, Structural)]
pub struct AppState {
    pub handle: AppHandle,
}

#[derive(Debug)]
pub struct AppManager {
    pub apps: Table<ProcessId, AppState>,
}

impl View for AppManager {
    type V = Map<ProcessId, AppState>;

    open spec fn view(&self) -> Map<ProcessId, AppState> {
        self.apps@
    }
}

impl AppManager {
    pub open spec fn wf(self) -> bool {
        self.apps.wf()
    }

    pub fn new() -> (r: AppManager)
        ensures
            r.wf(),
            r@ == Map::<ProcessId, AppState>::empty(),
    {
        AppManager { apps: Table::new() }
    }
}

} // verus!
