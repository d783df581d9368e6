//! Frame writes that were sent to applications and not yet acknowledged.

use crate::geometry::Rect;
use crate::ids::{TransactionId, WindowServerId};
use crate::table::Table;
use vstd::prelude::*;

verus! {

/// What was last sent to a window.
#[derive(Clone, Copy, Debug, PartialEq, Eq, Structural)]
pub struct TransactionRecord {
    pub last_sent: TransactionId,
    /// The frame that the window is to have.
    pub target: Option<Rect>,
}

#[derive(Debug)]
pub struct TransactionManager {
    records: Table<WindowServerId, TransactionRecord>,
}

impl View for TransactionManager {
    type V = Map<WindowServerId, TransactionRecord>;

    closed spec fn view(&self) -> Map<WindowServerId, TransactionRecord> {
        self.records@
    }
}

/// The last transaction that was sent to a window; the first one of all where
/// none was.
pub open spec fn last_sent(
    records: Map<WindowServerId, TransactionRecord>,
    window: WindowServerId,
) -> TransactionId {
    if records.dom().contains(window) {
        records[window].last_sent
    } else {
        TransactionId { raw: 0 }
    }
}

/// The frame that a window is to have.
pub open spec fn target_of(
    records: Map<WindowServerId, TransactionRecord>,
    window: WindowServerId,
) -> Option<Rect> {
    if records.dom().contains(window) {
        records[window].target
    } else {
        None
    }
}

/// The records with nothing more to wait for at a window.
pub open spec fn target_cleared(
    records: Map<WindowServerId, TransactionRecord>,
    window: WindowServerId,
) -> Map<WindowServerId, TransactionRecord> {
    if records.dom().contains(window) {
        records.insert(window, TransactionRecord { target: None, ..records[window] })
    } else {
        records
    }
}

impl TransactionManager {
    pub closed spec fn wf(self) -> bool {
        self.records.wf()
    }

    pub fn new() -> (r: TransactionManager)
        ensures
            r.wf(),
            r@ == Map::<WindowServerId, TransactionRecord>::empty(),
    {
        TransactionManager { records: Table::new() }
    }

    pub fn get_last_sent_txid(&self, window: WindowServerId) -> (r: TransactionId)
        requires
            self.wf(),
        ensures
            r == last_sent(self@, window),
    {
        match self.records.get(window) {
            Some(record) => record.last_sent,
            None => TransactionId { raw: 0 },
        }
    }

    pub fn get_target_frame(&self, window: WindowServerId) -> (r: Option<Rect>)
        requires
            self.wf(),
        ensures
            r == target_of(self@, window),
    {
        match self.records.get(window) {
            Some(record) => record.target,
            None => None,
        }
    }

    /// Record that a window was sent to `target`.
    pub fn store_txid(&mut self, window: WindowServerId, txid: TransactionId, target: Rect)
        requires
            old(self).wf(),
        ensures
            final(self).wf(),
            final(self)@ == old(self)@.insert(
                window,
                TransactionRecord { last_sent: txid, target: Some(target) },
            ),
    {
        self.records.insert(window, TransactionRecord { last_sent: txid, target: Some(target) });
    }

    pub fn remove_for_window(&mut self, window: WindowServerId)
        requires
            old(self).wf(),
        ensures
            final(self).wf(),
            final(self)@ == old(self)@.remove(window),
    {
        self.records.remove(window);
    }

    pub fn clear_target_for_window(&mut self, window: WindowServerId)
        requires
            old(self).wf(),
        ensures
            final(self).wf(),
            final(self)@ == target_cleared(old(self)@, window),
    {
        let known = match self.records.get(window) {
            Some(record) => Some(*record),
            None => None,
        };
        if let Some(record) = known {
            self.records.insert(
                window,
                TransactionRecord { last_sent: record.last_sent, target: None },
            );
        }
    }
}

} // verus!
