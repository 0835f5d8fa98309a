//! An entry of the sidebar tree: what it shows, and how it answers a click on
//! its caret and on itself (a second click within 300 ms is a double click).
use vstd::prelude::*;

verus! {

/// Two clicks closer together than this many milliseconds make a double click.
pub const DOUBLE_CLICK_MS: u64 = 300;

/// The icon shown before an entry's label.
#[derive(Debug, Clone, Copy, PartialEq, Eq)]
pub enum ItemIcon {
    Sqlite,
    Postgres,
    Database,
    Schema,
    Folder,
    Table,
}

/// The colour of the small dot shown after an entry's label.
#[derive(Debug, Clone, Copy, PartialEq, Eq)]
pub enum DotColor {
    Yellow,
    Green,
    Muted,
    Red,
}

/// An entry of the sidebar. `A` is what the application runs for a click, a
/// double click, an expansion or a choice of the context menu.
pub struct SidebarMenuItem<A> {
    pub icon: Option<ItemIcon>,
    pub label: String,
    pub handler: Option<A>,
    pub on_double_click: Option<A>,
    pub on_expand: Option<A>,
    pub double_click_to_expand: bool,
    pub indented: bool,
    pub loading: bool,
    pub active: bool,
    pub default_open: bool,
    pub children: Vec<SidebarMenuItem<A>>,
    pub suffix: Option<DotColor>,
    pub disabled: bool,
    /// The context menu's entries (label and action); none when empty.
    pub context_menu: Vec<(String, A)>,
}

/// What the caret in front of an entry shows.
#[derive(Debug, Clone, Copy, PartialEq, Eq)]
pub enum CaretView {
    /// No caret.
    Hidden,
    /// A spinner while the entry loads.
    Spinner,
    /// A chevron button, turned down when the entry is open.
    Button { rotated: bool },
}

/// How an entry is drawn.
#[derive(Debug, Clone, Copy, PartialEq, Eq)]
pub struct ItemPresentation {
    pub caret: CaretView,
    /// Highlighted under the pointer.
    pub hoverable: bool,
    /// Drawn as the selected entry.
    pub highlighted: bool,
    /// Indented to line up with entries that have a caret.
    pub indent: bool,
    /// Drawn in the muted colour.
    pub muted: bool,
    /// Answers clicks.
    pub clickable: bool,
    /// Its children are listed below it.
    pub children_visible: bool,
}

impl<A> SidebarMenuItem<A> {
    pub open spec fn is_submenu_spec(&self) -> bool {
        self.children@.len() > 0
    }

    /// An entry has a caret when it has children, can be expanded, opens on a
    /// double click or is loading.
    pub open spec fn needs_caret_spec(&self) -> bool {
        self.is_submenu_spec() || self.on_expand is Some || self.double_click_to_expand
            || self.loading
    }

    /// An entry tells double clicks apart when it has a double-click action or
    /// opens on a double click.
    pub open spec fn has_double_click_spec(&self) -> bool {
        self.on_double_click is Some || self.double_click_to_expand
    }

    /// A new entry with this label: no icon, actions, children, suffix or
    /// context menu; it opens on a double click and starts closed.
    pub fn new(label: String) -> (r: Self)
        ensures
            r.label == label,
            r.icon is None,
            r.handler is None,
            r.on_double_click is None,
            r.on_expand is None,
            r.double_click_to_expand,
            !r.indented,
            !r.loading,
            !r.active,
            !r.default_open,
            r.children@.len() == 0,
            r.suffix is None,
            !r.disabled,
            r.context_menu@.len() == 0,
    {
        SidebarMenuItem {
            icon: None,
            label,
            handler: None,
            on_double_click: None,
            on_expand: None,
            double_click_to_expand: true,
            indented: false,
            loading: false,
            active: false,
            default_open: false,
            children: Vec::new(),
            suffix: None,
            disabled: false,
            context_menu: Vec::new(),
        }
    }

    pub fn icon(self, icon: ItemIcon) -> (r: Self)
        ensures
            r == (SidebarMenuItem { icon: Some(icon), ..self }),
    {
        SidebarMenuItem { icon: Some(icon), ..self }
    }

    pub fn active(self, active: bool) -> (r: Self)
        ensures
            r == (SidebarMenuItem { active, ..self }),
    {
        SidebarMenuItem { active, ..self }
    }

    pub fn on_click(self, handler: A) -> (r: Self)
        ensures
            r == (SidebarMenuItem { handler: Some(handler), ..self }),
    {
        SidebarMenuItem { handler: Some(handler), ..self }
    }

    pub fn on_double_click(self, handler: A) -> (r: Self)
        ensures
            r == (SidebarMenuItem { on_double_click: Some(handler), ..self }),
    {
        SidebarMenuItem { on_double_click: Some(handler), ..self }
    }

    pub fn on_expand(self, handler: A) -> (r: Self)
        ensures
            r == (SidebarMenuItem { on_expand: Some(handler), ..self }),
    {
        SidebarMenuItem { on_expand: Some(handler), ..self }
    }

    pub fn double_click_to_expand(self, enable: bool) -> (r: Self)
        ensures
            r == (SidebarMenuItem { double_click_to_expand: enable, ..self }),
    {
        SidebarMenuItem { double_click_to_expand: enable, ..self }
    }

    pub fn indented(self, indented: bool) -> (r: Self)
        ensures
            r == (SidebarMenuItem { indented, ..self }),
    {
        SidebarMenuItem { indented, ..self }
    }

    pub fn loading(self, loading: bool) -> (r: Self)
        ensures
            r == (SidebarMenuItem { loading, ..self }),
    {
        SidebarMenuItem { loading, ..self }
    }

    pub fn default_open(self, open: bool) -> (r: Self)
        ensures
            r == (SidebarMenuItem { default_open: open, ..self }),
    {
        SidebarMenuItem { default_open: open, ..self }
    }

    pub fn children(self, children: Vec<SidebarMenuItem<A>>) -> (r: Self)
        ensures
            r == (SidebarMenuItem { children, ..self }),
    {
        SidebarMenuItem { children, ..self }
    }

    pub fn suffix(self, dot: DotColor) -> (r: Self)
        ensures
            r == (SidebarMenuItem { suffix: Some(dot), ..self }),
    {
        SidebarMenuItem { suffix: Some(dot), ..self }
    }

    pub fn disable(self, disable: bool) -> (r: Self)
        ensures
            r == (SidebarMenuItem { disabled: disable, ..self }),
    {
        SidebarMenuItem { disabled: disable, ..self }
    }

    pub fn context_menu(self, entries: Vec<(String, A)>) -> (r: Self)
        ensures
            r == (SidebarMenuItem { context_menu: entries, ..self }),
    {
        SidebarMenuItem { context_menu: entries, ..self }
    }

    pub fn is_submenu(&self) -> (r: bool)
        ensures
            r == self.is_submenu_spec(),
    {
        self.children.len() > 0
    }

    pub fn needs_caret(&self) -> (r: bool)
        ensures
            r == self.needs_caret_spec(),
    {
        self.is_submenu() || self.on_expand.is_some() || self.double_click_to_expand
            || self.loading
    }

    pub fn has_double_click(&self) -> (r: bool)
        ensures
            r == self.has_double_click_spec(),
    {
        self.on_double_click.is_some() || self.double_click_to_expand
    }

    /// How the entry is drawn in the given state: a spinner in place of the
    /// caret while loading, the caret turned down when open, hover only when
    /// neither active nor disabled, and clicks only when enabled.
    pub fn presentation(&self, state: &ItemInteraction) -> (r: ItemPresentation)
        ensures
            r.caret == (if !self.needs_caret_spec() {
                CaretView::Hidden
            } else if self.loading {
                CaretView::Spinner
            } else {
                CaretView::Button { rotated: state.open }
            }),
            r.hoverable == (!self.active && !self.disabled),
            r.highlighted == self.active,
            r.indent == (!self.needs_caret_spec() && self.indented),
            r.muted == self.disabled,
            r.clickable == !self.disabled,
            r.children_visible == state.open,
    {
        let needs_caret = self.needs_caret();
        let caret = if !needs_caret {
            CaretView::Hidden
        } else if self.loading {
            CaretView::Spinner
        } else {
            CaretView::Button { rotated: state.open }
        };
        ItemPresentation {
            caret,
            hoverable: !self.active && !self.disabled,
            highlighted: self.active,
            indent: !needs_caret && self.indented,
            muted: self.disabled,
            clickable: !self.disabled,
            children_visible: state.open,
        }
    }
}

/// The remembered state of a drawn entry: whether it is open, and when it was
/// last clicked (0 after a double click).
#[derive(Debug, Clone, Copy, PartialEq, Eq)]
pub struct ItemInteraction {
    pub open: bool,
    pub last_click_ms: u64,
}

/// Which of the entry's actions a click runs, in this order.
#[derive(Debug, Clone, Copy, PartialEq, Eq)]
pub struct ClickOutcome {
    pub run_expand: bool,
    pub run_double_click: bool,
    pub run_click: bool,
}

/// Nothing runs.
pub open spec fn no_outcome() -> ClickOutcome {
    ClickOutcome { run_expand: false, run_double_click: false, run_click: false }
}

/// A click on the caret: it flips the entry open or closed and runs the
/// expansion when it opens. Without a caret button nothing happens.
pub open spec fn caret_result<A>(item: SidebarMenuItem<A>, s: ItemInteraction) -> (
    ItemInteraction,
    bool,
) {
    if item.needs_caret_spec() && !item.loading {
        (ItemInteraction { open: !s.open, ..s }, !s.open && item.on_expand is Some)
    } else {
        (s, false)
    }
}

/// A click on the entry at `now` (milliseconds). A disabled entry, or one that
/// does not tell double clicks apart, does nothing. A click less than
/// `DOUBLE_CLICK_MS` after the last is a double click: it resets the timer,
/// flips the entry when it opens on a double click (running the expansion
/// when it opens) and runs the double-click action. Any other click records
/// its time and runs the click action.
pub open spec fn click_result<A>(item: SidebarMenuItem<A>, s: ItemInteraction, now: u64) -> (
    ItemInteraction,
    ClickOutcome,
) {
    if item.disabled || !item.has_double_click_spec() {
        (s, no_outcome())
    } else if now - s.last_click_ms < DOUBLE_CLICK_MS {
        let flips = item.double_click_to_expand && item.needs_caret_spec();
        (
            ItemInteraction { open: if flips { !s.open } else { s.open }, last_click_ms: 0 },
            ClickOutcome {
                run_expand: flips && !s.open && item.on_expand is Some,
                run_double_click: item.on_double_click is Some,
                run_click: false,
            },
        )
    } else {
        (
            ItemInteraction { open: s.open, last_click_ms: now },
            ClickOutcome {
                run_expand: false,
                run_double_click: false,
                run_click: item.handler is Some,
            },
        )
    }
}

impl ItemInteraction {
    /// The state of a newly drawn entry: open when it has a caret and starts
    /// open, never clicked.
    pub fn new<A>(item: &SidebarMenuItem<A>) -> (r: Self)
        ensures
            r.open == (item.needs_caret_spec() && item.default_open),
            r.last_click_ms == 0,
    {
        ItemInteraction { open: item.needs_caret() && item.default_open, last_click_ms: 0 }
    }

    /// A click on the caret (see `caret_result`); returns whether the
    /// expansion runs.
    pub fn caret_click<A>(&mut self, item: &SidebarMenuItem<A>) -> (run_expand: bool)
        ensures
            (*final(self), run_expand) == caret_result(*item, *old(self)),
    {
        if item.needs_caret() && !item.loading {
            let was_expanding = !self.open;
            self.open = !self.open;
            was_expanding && item.on_expand.is_some()
        } else {
            false
        }
    }

    /// A click on the entry at `now_ms` (see `click_result`). The time of a
    /// click that is timed is never before the last one.
    pub fn click<A>(&mut self, item: &SidebarMenuItem<A>, now_ms: u64) -> (r: ClickOutcome)
        requires
            item.has_double_click_spec() && !item.disabled ==> old(self).last_click_ms <= now_ms,
        ensures
            (*final(self), r) == click_result(*item, *old(self), now_ms),
    {
        if item.disabled || !item.has_double_click() {
            return ClickOutcome { run_expand: false, run_double_click: false, run_click: false };
        }
        let last = self.last_click_ms;
        if now_ms - last < DOUBLE_CLICK_MS {
            self.last_click_ms = 0;
            let mut run_expand = false;
            if item.double_click_to_expand && item.needs_caret() {
                let was_expanding = !self.open;
                self.open = !self.open;
                run_expand = was_expanding && item.on_expand.is_some();
            }
            return ClickOutcome {
                run_expand,
                run_double_click: item.on_double_click.is_some(),
                run_click: false,
            };
        }
        self.last_click_ms = now_ms;
        ClickOutcome { run_expand: false, run_double_click: false, run_click: item.handler.is_some() }
    }
}

/// Two clicks on the caret leave the entry as it was, and run the expansion
/// exactly once when the entry has one.
pub proof fn lemma_caret_twice_restores<A>(item: SidebarMenuItem<A>, s: ItemInteraction)
    requires
        item.needs_caret_spec(),
        !item.loading,
    ensures
        caret_result(item, caret_result(item, s).0).0 == s,
        item.on_expand is Some ==> (caret_result(item, s).1 != caret_result(
            item,
            caret_result(item, s).0,
        ).1),
        item.on_expand is None ==> !caret_result(item, s).1 && !caret_result(
            item,
            caret_result(item, s).0,
        ).1,
{
}

/// Of two clicks on an enabled entry that tells double clicks apart, the
/// first after a pause of at least `DOUBLE_CLICK_MS` is a plain click, and a
/// second less than `DOUBLE_CLICK_MS` later is a double click: it runs the
/// double-click action, and an entry that opens on a double click flips and
/// runs its expansion when it opens.
pub proof fn lemma_quick_second_click_is_double<A>(
    item: SidebarMenuItem<A>,
    s: ItemInteraction,
    t1: u64,
    t2: u64,
)
    requires
        !item.disabled,
        item.has_double_click_spec(),
        s.last_click_ms + DOUBLE_CLICK_MS <= t1,
        t1 <= t2,
        t2 < t1 + DOUBLE_CLICK_MS,
    ensures
        ({
            let (s1, first) = click_result(item, s, t1);
            let (s2, second) = click_result(item, s1, t2);
            &&& first == (ClickOutcome {
                run_expand: false,
                run_double_click: false,
                run_click: item.handler is Some,
            })
            &&& second.run_double_click == (item.on_double_click is Some)
            &&& !second.run_click
            &&& s2.last_click_ms == 0
            &&& (item.double_click_to_expand ==> s2.open == !s.open && second.run_expand == (!s.open
                && item.on_expand is Some))
            &&& (!item.double_click_to_expand ==> s2.open == s.open && !second.run_expand)
        }),
{
}

/// A second click `DOUBLE_CLICK_MS` or more after the first is a plain click
/// again.
pub proof fn lemma_slow_second_click_is_single<A>(
    item: SidebarMenuItem<A>,
    s: ItemInteraction,
    t1: u64,
    t2: u64,
)
    requires
        !item.disabled,
        item.has_double_click_spec(),
        s.last_click_ms + DOUBLE_CLICK_MS <= t1,
        t1 + DOUBLE_CLICK_MS <= t2,
    ensures
        ({
            let (s1, first) = click_result(item, s, t1);
            let (s2, second) = click_result(item, s1, t2);
            &&& first == second
            &&& s2 == (ItemInteraction { open: s.open, last_click_ms: t2 })
        }),
{
}

} // verus!
