//! The windows, their tabs and the compute domains that requests refer to.
use crate::pdu::{HandlerError, Pdu, TabSize, WindowAndTabEntry};
use crate::tab::{opt_view, LiveTab, TabState};
use vstd::prelude::*;

verus! {

/// A window and its tabs, in order.
pub struct Window {
    pub window_id: u64,
    pub tabs: Vec<TabState>,
}

/// The windows, and the ids of the domains that can spawn sessions.
pub struct Registry {
    pub windows: Vec<Window>,
    pub domains: Vec<u64>,
    pub next_window_id: u64,
}

/// Every tab with its window's id, window after window.
pub open spec fn listed(ws: Seq<Window>) -> Seq<(u64, LiveTab)>
    decreases ws.len(),
{
    if ws.len() == 0 {
        Seq::empty()
    } else {
        listed(ws.drop_last()) + ws.last().tabs@.map_values(|t: TabState| (ws.last().window_id, t@))
    }
}

/// The size that a listing gives for a tab: its columns and viewport rows,
/// cut to 16 bits, and no pixel size.
pub open spec fn listed_size(t: LiveTab) -> TabSize {
    TabSize {
        rows: t.dimensions.viewport_rows as u16,
        cols: t.dimensions.cols as u16,
        pixel_width: 0,
        pixel_height: 0,
    }
}

/// `e` lists the tab `t` of window `window_id`.
pub open spec fn lists(e: WindowAndTabEntry, window_id: u64, t: LiveTab) -> bool {
    &&& e.window_id == window_id
    &&& e.tab_id == t.tab_id
    &&& e.title@ == t.title
    &&& e.size == listed_size(t)
    &&& opt_view(e.working_dir) == t.working_dir
}

fn entry_for(window_id: u64, t: &TabState) -> (e: WindowAndTabEntry)
    ensures
        lists(e, window_id, t@),
{
    #[verifier::truncate]
    let rows: u16 = t.dimensions.viewport_rows as u16;
    #[verifier::truncate]
    let cols: u16 = t.dimensions.cols as u16;
    WindowAndTabEntry {
        window_id,
        tab_id: t.tab_id,
        title: t.title.clone(),
        size: TabSize { rows, cols, pixel_width: 0, pixel_height: 0 },
        working_dir: t.working_dir.clone(),
    }
}

impl Registry {
    pub open spec fn has_domain(self, domain_id: u64) -> bool {
        self.domains@.contains(domain_id)
    }

    pub open spec fn has_window(self, window_id: u64) -> bool {
        exists|i: int| 0 <= i < self.windows@.len() && self.windows@[i].window_id == window_id
    }

    /// Lists every tab of every window.
    pub fn list_tabs(&self) -> (r: Pdu)
        ensures
            r is ListTabsResponse,
            r->ListTabsResponse_tabs@.len() == listed(self.windows@).len(),
            forall|k: int|
                0 <= k < listed(self.windows@).len() ==> lists(
                    r->ListTabsResponse_tabs@[k],
                    #[trigger] listed(self.windows@)[k].0,
                    listed(self.windows@)[k].1,
                ),
    {
        let mut tabs: Vec<WindowAndTabEntry> = Vec::new();
        let mut i: usize = 0;
        assert(self.windows@.take(0) =~= Seq::<Window>::empty());
        while i < self.windows.len()
            invariant
                0 <= i <= self.windows@.len(),
                tabs@.len() == listed(self.windows@.take(i as int)).len(),
                forall|k: int|
                    0 <= k < tabs@.len() ==> lists(
                        #[trigger] tabs@[k],
                        listed(self.windows@.take(i as int))[k].0,
                        listed(self.windows@.take(i as int))[k].1,
                    ),
            decreases self.windows@.len() - i,
        {
            let window = &self.windows[i];
            let ghost before = listed(self.windows@.take(i as int));
            let ghost here = window.tabs@.map_values(|t: TabState| (window.window_id, t@));
            assert(self.windows@.take(i + 1).drop_last() =~= self.windows@.take(i as int));
            assert(listed(self.windows@.take(i + 1)) == before + here);
            let mut j: usize = 0;
            while j < window.tabs.len()
                invariant
                    0 <= j <= window.tabs@.len(),
                    here == window.tabs@.map_values(|t: TabState| (window.window_id, t@)),
                    tabs@.len() == before.len() + j,
                    forall|k: int|
                        0 <= k < tabs@.len() ==> lists(
                            #[trigger] tabs@[k],
                            (before + here)[k].0,
                            (before + here)[k].1,
                        ),
                decreases window.tabs@.len() - j,
            {
                let e = entry_for(window.window_id, &window.tabs[j]);
                tabs.push(e);
                j = j + 1;
            }
            i = i + 1;
        }
        assert(self.windows@.take(i as int) =~= self.windows@);
        Pdu::ListTabsResponse { tabs }
    }

    /// Picks the window for a new session: the one named, which must exist,
    /// or a new empty one. Fails, creating nothing, when the domain or the
    /// named window is unknown, or when a new window is needed and no id is
    /// left.
    pub fn prepare_spawn(&mut self, domain_id: u64, window_id: Option<u64>) -> (r: Result<
        u64,
        HandlerError,
    >)
        ensures
            !old(self).has_domain(domain_id) ==> r == Err::<u64, HandlerError>(
                HandlerError::NoSuchDomain(domain_id),
            ),
            old(self).has_domain(domain_id) ==> (window_id matches Some(w) ==> r == if old(
                self,
            ).has_window(w) {
                Ok::<u64, HandlerError>(w)
            } else {
                Err(HandlerError::NoSuchWindow(w))
            }),
            old(self).has_domain(domain_id) && window_id is None && old(self).next_window_id
                == u64::MAX ==> r == Err::<u64, HandlerError>(HandlerError::OutOfWindowIds),
            old(self).has_domain(domain_id) && window_id is None && old(self).next_window_id
                < u64::MAX ==> {
                &&& r == Ok::<u64, HandlerError>(old(self).next_window_id)
                &&& final(self).windows@.len() == old(self).windows@.len() + 1
                &&& final(self).windows@.drop_last() == old(self).windows@
                &&& final(self).windows@.last().window_id == old(self).next_window_id
                &&& final(self).windows@.last().tabs@.len() == 0
                &&& final(self).next_window_id == old(self).next_window_id + 1
                &&& final(self).domains@ == old(self).domains@
            },
            !(old(self).has_domain(domain_id) && window_id is None && old(self).next_window_id
                < u64::MAX) ==> {
                &&& final(self).windows@ == old(self).windows@
                &&& final(self).domains@ == old(self).domains@
                &&& final(self).next_window_id == old(self).next_window_id
            },
    {
        let mut found = false;
        let mut i: usize = 0;
        while i < self.domains.len()
            invariant
                0 <= i <= self.domains@.len(),
                found == exists|k: int| 0 <= k < i && self.domains@[k] == domain_id,
                self.windows@ == old(self).windows@,
                self.domains@ == old(self).domains@,
                self.next_window_id == old(self).next_window_id,
            decreases self.domains@.len() - i,
        {
            if self.domains[i] == domain_id {
                found = true;
            }
            i = i + 1;
        }
        assert(found == old(self).has_domain(domain_id));
        if !found {
            return Err(HandlerError::NoSuchDomain(domain_id));
        }
        match window_id {
            Some(w) => {
                let mut i: usize = 0;
                while i < self.windows.len()
                    invariant
                        0 <= i <= self.windows@.len(),
                        forall|k: int| 0 <= k < i ==> self.windows@[k].window_id != w,
                        old(self).has_domain(domain_id),
                        window_id == Some(w),
                        self.windows@ == old(self).windows@,
                        self.domains@ == old(self).domains@,
                        self.next_window_id == old(self).next_window_id,
                    decreases self.windows@.len() - i,
                {
                    if self.windows[i].window_id == w {
                        assert(old(self).has_window(w));
                        return Ok(w);
                    }
                    i = i + 1;
                }
                Err(HandlerError::NoSuchWindow(w))
            },
            None => {
                if self.next_window_id == u64::MAX {
                    return Err(HandlerError::OutOfWindowIds);
                }
                let id = self.next_window_id;
                self.windows.push(Window { window_id: id, tabs: Vec::new() });
                self.next_window_id = id + 1;
                assert(self.windows@.drop_last() =~= old(self).windows@);
                Ok(id)
            },
        }
    }
}

} // verus!
