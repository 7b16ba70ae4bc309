//! The coordinator's scheduling discipline: runs are strictly sequential.
//!
//! At most one workspace — and with it at most one container — is live at
//! any time: a new run may begin only once the previous run's workspace has
//! been handed over for removal. The contracts here force that alternation
//! on any caller.

use vstd::prelude::*;

use crate::workspace::TempWorkspace;

verus! {

/// The schedule of a batch: either between runs, or inside exactly one run,
/// whose workspace root it remembers.
pub struct Schedule {
    live_root: Option<String>,
}

impl Schedule {
    /// The root of the one live workspace, when a run is in flight.
    pub closed spec fn live(self) -> Option<Seq<char>> {
        match self.live_root {
            Some(root) => Some(root@),
            None => None,
        }
    }

    /// A fresh schedule: no run in flight.
    pub fn new() -> (s: Self)
        ensures
            s.live() is None,
    {
        Schedule { live_root: None }
    }

    /// Begins one run. A second run cannot begin while one is live: the
    /// previous run must have been finished first.
    pub fn begin_run(&mut self, w: &TempWorkspace)
        requires
            old(self).live() is None,
        ensures
            final(self).live() == Some(w.root_dir@),
    {
        self.live_root = Some(w.root_dir.clone());
    }

    /// Finishes the one live run, whatever its verdict was, and hands back
    /// the root that must now be removed from disk. Only after this can the
    /// next run begin.
    pub fn finish_run(&mut self) -> (root: String)
        requires
            old(self).live() is Some,
        ensures
            final(self).live() is None,
            Some(root@) == old(self).live(),
    {
        let root = match &self.live_root {
            Some(r) => r.clone(),
            None => {
                proof {
                    assert(false);
                }
                String::new()
            },
        };
        self.live_root = None;
        root
    }
}

} // verus!
