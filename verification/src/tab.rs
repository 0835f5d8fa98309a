//! A tab of the tab bar: its look in each state, and the tab bar built from
//! the open tabs.
use vstd::prelude::*;
use crate::tab_info::{TabIcon, TabInfo};

verus! {

/// A colour of the theme.
#[derive(Debug, Clone, Copy, PartialEq, Eq)]
pub enum ThemeColor {
    /// Fully transparent white.
    Clear,
    Transparent,
    TabForeground,
    TabActiveForeground,
    TabActive,
    MutedForeground,
    Border,
}

/// The look of a tab: border widths in pixels and colours.
#[derive(Debug, Clone, Copy, PartialEq, Eq)]
pub struct TabStyle {
    pub border_left: u32,
    pub border_right: u32,
    pub border_color: ThemeColor,
    pub bg: ThemeColor,
    pub fg: ThemeColor,
}

impl TabStyle {
    /// No borders, every colour clear.
    pub fn default() -> (r: Self)
        ensures
            r == (TabStyle {
                border_left: 0,
                border_right: 0,
                border_color: ThemeColor::Clear,
                bg: ThemeColor::Clear,
                fg: ThemeColor::Clear,
            }),
    {
        TabStyle {
            border_left: 0,
            border_right: 0,
            border_color: ThemeColor::Clear,
            bg: ThemeColor::Clear,
            fg: ThemeColor::Clear,
        }
    }
}

/// A tab at rest.
pub open spec fn normal_spec() -> TabStyle {
    TabStyle {
        border_left: 1,
        border_right: 1,
        border_color: ThemeColor::Transparent,
        bg: ThemeColor::Transparent,
        fg: ThemeColor::TabForeground,
    }
}

/// A tab under the pointer.
pub open spec fn hovered_spec() -> TabStyle {
    TabStyle {
        border_left: 1,
        border_right: 1,
        border_color: ThemeColor::Transparent,
        bg: ThemeColor::Transparent,
        fg: ThemeColor::TabActiveForeground,
    }
}

/// The selected tab.
pub open spec fn selected_spec() -> TabStyle {
    TabStyle {
        border_left: 1,
        border_right: 1,
        border_color: ThemeColor::Border,
        bg: ThemeColor::TabActive,
        fg: ThemeColor::TabActiveForeground,
    }
}

/// A disabled tab: muted text, with borders only when selected.
pub open spec fn disabled_spec(selected: bool) -> TabStyle {
    TabStyle {
        border_left: 1,
        border_right: 1,
        border_color: if selected {
            ThemeColor::Border
        } else {
            ThemeColor::Transparent
        },
        bg: ThemeColor::Transparent,
        fg: ThemeColor::MutedForeground,
    }
}

pub fn style_normal() -> (r: TabStyle)
    ensures
        r == normal_spec(),
{
    TabStyle {
        border_left: 1,
        border_right: 1,
        border_color: ThemeColor::Transparent,
        bg: ThemeColor::Transparent,
        fg: ThemeColor::TabForeground,
    }
}

/// The hovered look, the same whether or not the tab is selected.
pub fn style_hovered(_selected: bool) -> (r: TabStyle)
    ensures
        r == hovered_spec(),
{
    TabStyle {
        border_left: 1,
        border_right: 1,
        border_color: ThemeColor::Transparent,
        bg: ThemeColor::Transparent,
        fg: ThemeColor::TabActiveForeground,
    }
}

pub fn style_selected() -> (r: TabStyle)
    ensures
        r == selected_spec(),
{
    TabStyle {
        border_left: 1,
        border_right: 1,
        border_color: ThemeColor::Border,
        bg: ThemeColor::TabActive,
        fg: ThemeColor::TabActiveForeground,
    }
}

pub fn style_disabled(selected: bool) -> (r: TabStyle)
    ensures
        r == disabled_spec(selected),
{
    TabStyle {
        border_left: 1,
        border_right: 1,
        border_color: if selected {
            ThemeColor::Border
        } else {
            ThemeColor::Transparent
        },
        bg: ThemeColor::Transparent,
        fg: ThemeColor::MutedForeground,
    }
}

/// A tab. `A` is what the application runs when the tab or its close button
/// is clicked.
pub struct Tab<A> {
    pub ix: usize,
    pub label: Option<String>,
    pub icon: Option<TabIcon>,
    pub non_border_l: Option<bool>,
    pub disabled: bool,
    pub selected: bool,
    pub dirtied: bool,
    pub loading: bool,
    pub close_button: bool,
    /// A button after the label, which runs this action.
    pub suffix: Option<A>,
    pub on_click: Option<A>,
    pub on_close: Option<A>,
}

/// What stands before a tab's label.
#[derive(Debug, Clone, Copy, PartialEq, Eq)]
pub enum TabIconView {
    Absent,
    /// A spinner while the tab loads.
    Spinner,
    Icon(TabIcon),
}

/// How a tab is drawn.
#[derive(Debug, Clone, Copy, PartialEq, Eq)]
pub struct TabView {
    pub style: TabStyle,
    /// The look under the pointer; none for a selected or disabled tab.
    pub hover: Option<TabStyle>,
    /// The left border's width at rest and under the pointer.
    pub border_left: u32,
    pub hover_border_left: u32,
    pub icon: TabIconView,
    /// Extra room on the right for the close button.
    pub wide_right_padding: bool,
    /// A dot marks unsaved changes.
    pub dirty_dot: bool,
    pub close_button: bool,
    /// Clicking the close button runs the tab's `on_close`.
    pub close_clickable: bool,
    /// The tab answers clicks by running its `on_click`.
    pub clickable: bool,
}

impl<A> Tab<A> {
    /// A tab at position 0 with no label, icon or actions, in no state.
    pub fn new() -> (r: Self)
        ensures
            r.ix == 0,
            r.label is None,
            r.icon is None,
            r.non_border_l is None,
            !r.disabled,
            !r.selected,
            !r.dirtied,
            !r.loading,
            !r.close_button,
            r.suffix is None,
            r.on_click is None,
            r.on_close is None,
    {
        Tab {
            ix: 0,
            label: None,
            icon: None,
            non_border_l: None,
            disabled: false,
            selected: false,
            dirtied: false,
            loading: false,
            close_button: false,
            suffix: None,
            on_click: None,
            on_close: None,
        }
    }

    pub fn label(self, label: String) -> (r: Self)
        ensures
            r == (Tab { label: Some(label), ..self }),
    {
        Tab { label: Some(label), ..self }
    }

    pub fn icon(self, icon: TabIcon) -> (r: Self)
        ensures
            r == (Tab { icon: Some(icon), ..self }),
    {
        Tab { icon: Some(icon), ..self }
    }

    pub fn disabled(self, disabled: bool) -> (r: Self)
        ensures
            r == (Tab { disabled, ..self }),
    {
        Tab { disabled, ..self }
    }

    pub fn dirtied(self, dirtied: bool) -> (r: Self)
        ensures
            r == (Tab { dirtied, ..self }),
    {
        Tab { dirtied, ..self }
    }

    pub fn loading(self, loading: bool) -> (r: Self)
        ensures
            r == (Tab { loading, ..self }),
    {
        Tab { loading, ..self }
    }

    pub fn close_button(self, close_button: bool) -> (r: Self)
        ensures
            r == (Tab { close_button, ..self }),
    {
        Tab { close_button, ..self }
    }

    pub fn suffix(self, action: A) -> (r: Self)
        ensures
            r == (Tab { suffix: Some(action), ..self }),
    {
        Tab { suffix: Some(action), ..self }
    }

    pub fn on_close(self, on_close: A) -> (r: Self)
        ensures
            r == (Tab { on_close: Some(on_close), ..self }),
    {
        Tab { on_close: Some(on_close), ..self }
    }

    pub fn on_click(self, on_click: A) -> (r: Self)
        ensures
            r == (Tab { on_click: Some(on_click), ..self }),
    {
        Tab { on_click: Some(on_click), ..self }
    }

    pub fn ix(self, ix: usize) -> (r: Self)
        ensures
            r == (Tab { ix, ..self }),
    {
        Tab { ix, ..self }
    }

    pub fn non_border_l(self, non_border_l: bool) -> (r: Self)
        ensures
            r == (Tab { non_border_l: Some(non_border_l), ..self }),
    {
        Tab { non_border_l: Some(non_border_l), ..self }
    }

    pub fn selected(self, selected: bool) -> (r: Self)
        ensures
            r == (Tab { selected, ..self }),
    {
        Tab { selected, ..self }
    }

    /// The look at rest: disabled, else selected, else normal.
    pub open spec fn rest_style(&self) -> TabStyle {
        if self.disabled {
            disabled_spec(self.selected)
        } else if self.selected {
            selected_spec()
        } else {
            normal_spec()
        }
    }

    /// The look under the pointer: the disabled look, else the hovered one.
    pub open spec fn hover_style(&self) -> TabStyle {
        if self.disabled {
            disabled_spec(self.selected)
        } else {
            hovered_spec()
        }
    }

    pub open spec fn drops_left_border(&self) -> bool {
        self.non_border_l matches Some(b) && b
    }

    /// How the tab is drawn: a tab asked to drop its left border has none;
    /// only a tab that is neither selected nor disabled changes under the
    /// pointer; a loading tab shows a spinner in place of its icon; a
    /// disabled tab ignores clicks.
    pub fn view(&self) -> (r: TabView)
        ensures
            r.style == self.rest_style(),
            r.hover == (if !self.selected && !self.disabled {
                Some(self.hover_style())
            } else {
                None
            }),
            r.border_left == (if self.drops_left_border() {
                0
            } else {
                self.rest_style().border_left
            }),
            r.hover_border_left == (if self.drops_left_border() {
                0
            } else {
                self.hover_style().border_left
            }),
            r.icon == (if self.loading {
                TabIconView::Spinner
            } else {
                match self.icon {
                    Some(i) => TabIconView::Icon(i),
                    None => TabIconView::Absent,
                }
            }),
            r.wide_right_padding == self.close_button,
            r.dirty_dot == self.dirtied,
            r.close_button == self.close_button,
            r.close_clickable == (self.close_button && self.on_close is Some),
            r.clickable == (!self.disabled && self.on_click is Some),
    {
        let tab_style = if self.disabled {
            style_disabled(self.selected)
        } else if self.selected {
            style_selected()
        } else {
            style_normal()
        };
        let hover_style = if self.disabled {
            style_disabled(self.selected)
        } else {
            style_hovered(self.selected)
        };
        let non_border_l = match self.non_border_l {
            Some(b) => b,
            None => false,
        };
        let (border_left, hover_border_left) = if non_border_l {
            (0u32, 0u32)
        } else {
            (tab_style.border_left, hover_style.border_left)
        };
        let icon = if self.loading {
            TabIconView::Spinner
        } else {
            match self.icon {
                Some(i) => TabIconView::Icon(i),
                None => TabIconView::Absent,
            }
        };
        TabView {
            style: tab_style,
            hover: if !self.selected && !self.disabled {
                Some(hover_style)
            } else {
                None
            },
            border_left,
            hover_border_left,
            icon,
            wide_right_padding: self.close_button,
            dirty_dot: self.dirtied,
            close_button: self.close_button,
            close_clickable: self.close_button && self.on_close.is_some(),
            clickable: !self.disabled && self.on_click.is_some(),
        }
    }

    /// What a click on the tab runs: its `on_click`, unless it is disabled.
    pub fn click_action(&self) -> (r: Option<&A>)
        ensures
            match r {
                Some(a) => !self.disabled && self.on_click == Some(*a),
                None => self.disabled || self.on_click is None,
            },
    {
        if self.disabled {
            None
        } else {
            match &self.on_click {
                Some(a) => Some(a),
                None => None,
            }
        }
    }

    /// What a click on the close button (`close-tab-{ix}`) runs: the tab's
    /// `on_close`; nothing when the tab has no close button.
    pub fn close_action(&self) -> (r: Option<&A>)
        ensures
            match r {
                Some(a) => self.close_button && self.on_close == Some(*a),
                None => !self.close_button || self.on_close is None,
            },
    {
        if !self.close_button {
            None
        } else {
            match &self.on_close {
                Some(a) => Some(a),
                None => None,
            }
        }
    }
}

/// What a tab of the tab bar asks the tab list to do.
#[derive(Debug, Clone, Copy, PartialEq, Eq)]
pub enum TabBarAction {
    Select(usize),
    Close(usize),
}

/// A mouse button.
#[derive(Debug, Clone, Copy, PartialEq, Eq)]
pub enum MouseButton {
    Left,
    Middle,
    Right,
}

/// Pressing a button on the tab at `ix`: the left button selects it, the
/// middle one closes it, the right one does nothing.
pub fn mouse_down_action(ix: usize, button: MouseButton) -> (r: Option<TabBarAction>)
    ensures
        r == match button {
            MouseButton::Left => Some(TabBarAction::Select(ix)),
            MouseButton::Middle => Some(TabBarAction::Close(ix)),
            MouseButton::Right => None,
        },
{
    match button {
        MouseButton::Left => Some(TabBarAction::Select(ix)),
        MouseButton::Middle => Some(TabBarAction::Close(ix)),
        MouseButton::Right => None,
    }
}

/// The tab bar is hidden when no tab is open.
pub fn tab_bar_hidden(tab_count: usize) -> (r: bool)
    ensures
        r == (tab_count == 0),
{
    tab_count == 0
}

/// The tab drawn for the open tab at `i`.
pub open spec fn is_bar_tab(t: Tab<TabBarAction>, i: int, info: TabInfo, active: Option<usize>) -> bool {
    &&& t.ix == i
    &&& t.non_border_l == Some(i == 0)
    &&& t.selected == (active == Some(i as usize))
    &&& (t.label matches Some(l) && l@ == info.title@)
    &&& t.icon == Some(info.icon)
    &&& t.dirtied == info.is_dirty
    &&& !t.disabled
    &&& !t.loading
    &&& !t.close_button
    &&& t.on_click is None
    &&& t.on_close is None
    &&& t.suffix == Some(TabBarAction::Close(i as usize))
}

/// The tabs of the tab bar, one per open tab in order: the first without a
/// left border, the active one selected, each with its title, icon and dirty
/// dot, and a close button after the label that closes it.
pub fn tab_bar_tabs(infos: &Vec<TabInfo>, active: Option<usize>) -> (r: Vec<Tab<TabBarAction>>)
    ensures
        r@.len() == infos@.len(),
        forall|i: int| 0 <= i < r@.len() ==> is_bar_tab(#[trigger] r@[i], i, infos@[i], active),
{
    let mut out: Vec<Tab<TabBarAction>> = Vec::new();
    let mut i: usize = 0;
    while i < infos.len()
        invariant
            i <= infos@.len(),
            out@.len() == i,
            forall|j: int| 0 <= j < i ==> is_bar_tab(#[trigger] out@[j], j, infos@[j], active),
        decreases infos@.len() - i,
    {
        let info = &infos[i];
        let selected = match active {
            Some(a) => a == i,
            None => false,
        };
        let t = Tab::new().ix(i).non_border_l(i == 0).selected(selected).label(
            info.title.clone(),
        ).icon(info.icon).dirtied(info.is_dirty).suffix(TabBarAction::Close(i));
        out.push(t);
        i += 1;
    }
    out
}

} // verus!
