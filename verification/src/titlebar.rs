//! The window title bar: dragging the window by it, its menu, and the light
//! and dark theme switch.
use vstd::prelude::*;

verus! {

/// The two kinds of title bar: the main window's, and a dialog's with its
/// title in the middle.
pub enum TitlebarKind {
    Main,
    Dialog { title: String },
}

/// A pointer event on the title bar.
#[derive(Debug, Clone, Copy, PartialEq, Eq)]
pub enum TitlebarEvent {
    LeftMouseDown,
    LeftMouseUp,
    /// A button pressed outside the title bar.
    MouseDownOutside,
    MouseMove,
    DoubleClick,
}

/// What the title bar asks of the window.
#[derive(Debug, Clone, Copy, PartialEq, Eq)]
pub enum WindowCommand {
    /// Start moving the window with the pointer.
    StartMove,
    /// Maximize or restore the window.
    Zoom,
}

/// The title bar: its kind, and whether the next pointer move starts moving
/// the window (the left button went down on the bar and has not come up).
pub struct Titlebar {
    pub should_move: bool,
    pub kind: TitlebarKind,
}

/// The next state and the command for an event: pressing the left button
/// arms the move, releasing it or pressing outside disarms it, a move while
/// armed disarms it and starts moving the window, and a double click zooms.
pub open spec fn titlebar_step(should_move: bool, event: TitlebarEvent) -> (bool, Option<WindowCommand>) {
    match event {
        TitlebarEvent::LeftMouseDown => (true, None),
        TitlebarEvent::LeftMouseUp => (false, None),
        TitlebarEvent::MouseDownOutside => (false, None),
        TitlebarEvent::MouseMove => if should_move {
            (false, Some(WindowCommand::StartMove))
        } else {
            (false, None)
        },
        TitlebarEvent::DoubleClick => (should_move, Some(WindowCommand::Zoom)),
    }
}

impl Titlebar {
    /// The main window's title bar.
    pub fn main() -> (r: Self)
        ensures
            !r.should_move,
            r.kind is Main,
    {
        Titlebar { should_move: false, kind: TitlebarKind::Main }
    }

    /// A dialog's title bar with this title.
    pub fn dialog(title: String) -> (r: Self)
        ensures
            !r.should_move,
            r.kind matches TitlebarKind::Dialog { title: t } && t == title,
    {
        Titlebar { should_move: false, kind: TitlebarKind::Dialog { title } }
    }

    /// Answers a pointer event (see `titlebar_step`).
    pub fn handle(&mut self, event: TitlebarEvent) -> (r: Option<WindowCommand>)
        ensures
            (final(self).should_move, r) == titlebar_step(old(self).should_move, event),
            final(self).kind == old(self).kind,
    {
        match event {
            TitlebarEvent::LeftMouseDown => {
                self.should_move = true;
                None
            },
            TitlebarEvent::LeftMouseUp => {
                self.should_move = false;
                None
            },
            TitlebarEvent::MouseDownOutside => {
                self.should_move = false;
                None
            },
            TitlebarEvent::MouseMove => {
                if self.should_move {
                    self.should_move = false;
                    Some(WindowCommand::StartMove)
                } else {
                    None
                }
            },
            TitlebarEvent::DoubleClick => Some(WindowCommand::Zoom),
        }
    }

    /// The title shown in the middle of a dialog's bar; empty for the main
    /// window.
    pub fn dialog_title(&self) -> (r: String)
        ensures
            match self.kind {
                TitlebarKind::Dialog { title } => r@ == title@,
                TitlebarKind::Main => r@.len() == 0,
            },
    {
        match &self.kind {
            TitlebarKind::Dialog { title } => title.clone(),
            TitlebarKind::Main => String::new(),
        }
    }
}

/// After a left press, the first pointer move starts moving the window and
/// the next one does not.
pub proof fn lemma_press_then_moves_start_once(should_move: bool)
    ensures
        ({
            let (s1, c1) = titlebar_step(should_move, TitlebarEvent::LeftMouseDown);
            let (s2, c2) = titlebar_step(s1, TitlebarEvent::MouseMove);
            let (s3, c3) = titlebar_step(s2, TitlebarEvent::MouseMove);
            &&& c1 is None
            &&& c2 == Some(WindowCommand::StartMove)
            &&& c3 is None
            &&& !s3
        }),
{
}

/// After the left button comes up, moving the pointer does not move the
/// window.
pub proof fn lemma_release_disarms(should_move: bool)
    ensures
        ({
            let (s1, _c1) = titlebar_step(should_move, TitlebarEvent::LeftMouseUp);
            titlebar_step(s1, TitlebarEvent::MouseMove) == (false, None::<WindowCommand>)
        }),
{
}

/// An icon of the title bar.
#[derive(Debug, Clone, Copy, PartialEq, Eq)]
pub enum BarIcon {
    Sun,
    Moon,
    WindowRestore,
    WindowMaximize,
}

/// The switch shows the sun in dark mode and the moon in light mode.
pub fn theme_toggle_icon(is_dark: bool) -> (r: BarIcon)
    ensures
        r == (if is_dark { BarIcon::Sun } else { BarIcon::Moon }),
{
    if is_dark {
        BarIcon::Sun
    } else {
        BarIcon::Moon
    }
}

/// The middle window button shows "restore" on a maximized window and
/// "maximize" otherwise.
pub fn maximize_icon(is_maximized: bool) -> (r: BarIcon)
    ensures
        r == (if is_maximized { BarIcon::WindowRestore } else { BarIcon::WindowMaximize }),
{
    if is_maximized {
        BarIcon::WindowRestore
    } else {
        BarIcon::WindowMaximize
    }
}

/// The window buttons are drawn by the title bar except where the platform
/// draws its own (macOS, the web).
pub fn shows_window_controls(platform_draws_controls: bool) -> (r: bool)
    ensures
        r == !platform_draws_controls,
{
    !platform_draws_controls
}

/// The entries of the theme menu: each theme's name, checked when it is the
/// current theme.
pub fn theme_menu(themes: &Vec<String>, current: &str) -> (r: Vec<(String, bool)>)
    ensures
        r@.len() == themes@.len(),
        forall|i: int|
            0 <= i < r@.len() ==> (#[trigger] r@[i]).0@ == themes@[i]@ && r@[i].1 == (themes@[i]@
                == current@),
{
    let mut out: Vec<(String, bool)> = Vec::new();
    let cur = String::from_str(current);
    let mut i: usize = 0;
    while i < themes.len()
        invariant
            i <= themes@.len(),
            out@.len() == i,
            cur@ == current@,
            forall|j: int|
                0 <= j < i ==> (#[trigger] out@[j]).0@ == themes@[j]@ && out@[j].1 == (themes@[j]@
                    == current@),
        decreases themes@.len() - i,
    {
        let checked = themes[i] == cur;
        out.push((themes[i].clone(), checked));
        i += 1;
    }
    out
}

} // verus!
