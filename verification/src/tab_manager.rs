//! The list of open tabs and which of them is shown.
use vstd::prelude::*;

verus! {

/// The active position is a valid one exactly when there are tabs.
pub open spec fn active_consistent(len: nat, active: Option<usize>) -> bool {
    match active {
        Some(i) => i < len,
        None => len == 0,
    }
}

/// The tabs after opening `t`.
pub open spec fn opened<T>(tabs: Seq<T>, t: T) -> Seq<T> {
    tabs.push(t)
}

/// The tabs after closing the one at `index` (nothing happens out of range).
pub open spec fn closed_tabs<T>(tabs: Seq<T>, index: usize) -> Seq<T> {
    if index < tabs.len() {
        tabs.remove(index as int)
    } else {
        tabs
    }
}

/// The active position after closing the tab at `index`: it stays where it
/// was, moves to the new last tab when it fell off the end, and is gone when
/// no tab is left.
pub open spec fn active_after_close(len: nat, active: Option<usize>, index: usize) -> Option<
    usize,
> {
    if index < len {
        match active {
            Some(a) => if len - 1 == 0 {
                None
            } else if a >= len - 1 {
                Some((len - 2) as usize)
            } else {
                Some(a)
            },
            None => None,
        }
    } else {
        active
    }
}

/// The tabs of the workspace, each a handle of the caller's choosing, and the
/// position of the one shown.
pub struct TabManager<T> {
    tabs: Vec<T>,
    active_index: Option<usize>,
}

impl<T> TabManager<T> {
    #[verifier::type_invariant]
    spec fn consistent(self) -> bool {
        active_consistent(self.tabs@.len(), self.active_index)
    }

    /// The open tabs, in order.
    pub closed spec fn tab_seq(&self) -> Seq<T> {
        self.tabs@
    }

    /// The position of the shown tab.
    pub closed spec fn active(&self) -> Option<usize> {
        self.active_index
    }

    /// No tabs.
    pub fn new() -> (r: Self)
        ensures
            r.tab_seq().len() == 0,
            r.active() is None,
    {
        TabManager { tabs: Vec::new(), active_index: None }
    }

    /// Opens `tab` after the others and shows it.
    pub fn open_tab(&mut self, tab: T)
        requires
            old(self).tab_seq().len() < usize::MAX,
        ensures
            final(self).tab_seq() == opened(old(self).tab_seq(), tab),
            final(self).active() == Some(old(self).tab_seq().len() as usize),
            active_consistent(final(self).tab_seq().len(), final(self).active()),
    {
        let mut taken = TabManager::new();
        std::mem::swap(&mut taken, self);
        let TabManager { mut tabs, active_index: _ } = taken;
        tabs.push(tab);
        let n = tabs.len();
        *self = TabManager { tabs, active_index: Some(n - 1) };
    }

    /// Closes the tab at `index`; nothing happens when there is none there.
    pub fn close_tab(&mut self, index: usize)
        ensures
            final(self).tab_seq() == closed_tabs(old(self).tab_seq(), index),
            final(self).active() == active_after_close(
                old(self).tab_seq().len(),
                old(self).active(),
                index,
            ),
            active_consistent(final(self).tab_seq().len(), final(self).active()),
    {
        proof {
            use_type_invariant(&*self);
        }
        if index < self.tabs.len() {
            let mut taken = TabManager::new();
            std::mem::swap(&mut taken, self);
            let TabManager { mut tabs, active_index: old_active } = taken;
            tabs.remove(index);
            let n = tabs.len();
            let new_active = match old_active {
                Some(active) => if n == 0 {
                    None
                } else if active >= n {
                    Some(n - 1)
                } else {
                    Some(active)
                },
                None => None,
            };
            *self = TabManager { tabs, active_index: new_active };
        }
    }

    /// Shows the tab at `index`; nothing happens when there is none there.
    pub fn select_tab(&mut self, index: usize)
        ensures
            final(self).tab_seq() == old(self).tab_seq(),
            final(self).active() == if index < old(self).tab_seq().len() {
                Some(index)
            } else {
                old(self).active()
            },
            active_consistent(final(self).tab_seq().len(), final(self).active()),
    {
        proof {
            use_type_invariant(&*self);
        }
        if index < self.tabs.len() {
            self.active_index = Some(index);
        }
    }

    /// The shown tab, if any.
    pub fn active_tab(&self) -> (r: Option<&T>)
        ensures
            match self.active() {
                Some(i) => r matches Some(t) && *t == self.tab_seq()[i as int],
                None => r is None,
            },
    {
        proof {
            use_type_invariant(self);
        }
        match self.active_index {
            Some(i) => Some(&self.tabs[i]),
            None => None,
        }
    }

    /// The open tabs, in order.
    pub fn tabs(&self) -> (r: &[T])
        ensures
            r@ == self.tab_seq(),
            active_consistent(self.tab_seq().len(), self.active()),
    {
        proof {
            use_type_invariant(self);
        }
        self.tabs.as_slice()
    }

    /// The position of the shown tab.
    pub fn active_index(&self) -> (r: Option<usize>)
        ensures
            r == self.active(),
            active_consistent(self.tab_seq().len(), self.active()),
    {
        proof {
            use_type_invariant(self);
        }
        self.active_index
    }
}

/// Law: closing a tab keeps the active position consistent with the tabs
/// that are left, from any consistent state and for any index.
pub proof fn lemma_close_keeps_active_consistent<T>(tabs: Seq<T>, active: Option<usize>, index: usize)
    requires
        active_consistent(tabs.len(), active),
    ensures
        active_consistent(
            closed_tabs(tabs, index).len(),
            active_after_close(tabs.len(), active, index),
        ),
{
}

/// Law: closing the tab that was just opened gives back the tabs as they
/// were.
pub proof fn lemma_open_then_close_restores_tabs<T>(tabs: Seq<T>, t: T)
    requires
        tabs.len() < usize::MAX,
    ensures
        closed_tabs(opened(tabs, t), tabs.len() as usize) == tabs,
{
    assert(closed_tabs(opened(tabs, t), tabs.len() as usize) =~= tabs);
}

/// Law: closing a tab other than the shown one keeps a tab shown. Closing one
/// after it leaves the same tab shown; closing one before it shows the tab
/// that followed the shown one, or the same tab when the shown one was last.
pub proof fn lemma_close_other_tab<T>(tabs: Seq<T>, a: usize, index: usize)
    requires
        a < tabs.len(),
        index < tabs.len(),
        index != a,
    ensures
        active_after_close(tabs.len(), Some(a), index) is Some,
        ({
            let b = active_after_close(tabs.len(), Some(a), index)->0;
            closed_tabs(tabs, index)[b as int] == if index > a || a + 1 == tabs.len() {
                tabs[a as int]
            } else {
                tabs[a + 1]
            }
        }),
{
}

} // verus!
