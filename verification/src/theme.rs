//! Colors and styles of the user interface, as plain data. The shell maps
//! them onto its drawing backend.

use vstd::prelude::*;

verus! {

/// A color of the user interface.
#[derive(Clone, Copy, Debug, PartialEq, Eq, Structural)]
pub enum UiColor {
    /// The terminal's default color.
    Reset,
    Black,
    Yellow,
    Rgb(u8, u8, u8),
}

/// A drawing style.
#[derive(Clone, Copy, Debug, PartialEq, Eq, Structural)]
pub struct UiStyle {
    pub fg: Option<UiColor>,
    pub bg: Option<UiColor>,
    pub bold: bool,
}

/// A bordered pane: all four borders, drawn in a style.
#[derive(Clone, Copy, Debug, PartialEq, Eq, Structural)]
pub struct Pane {
    pub border_style: UiStyle,
}

/// The color theme.
#[derive(Clone, Copy, Debug, PartialEq, Eq, Structural)]
pub struct Theme {
    pub procs_item: UiStyle,
    pub procs_item_active: UiStyle,
}

/// A style with only a foreground color.
pub open spec fn fg_only(c: UiColor) -> UiStyle {
    UiStyle { fg: Some(c), bg: None, bold: false }
}

impl Theme {
    /// The border color: bright for the focused pane, grey otherwise.
    pub fn style(&self, active: bool) -> (s: UiStyle)
        ensures
            active ==> s == fg_only(UiColor::Rgb(0, 255, 127)),
            !active ==> s == fg_only(UiColor::Rgb(192, 192, 192)),
    {
        match active {
            true => UiStyle { fg: Some(UiColor::Rgb(0, 255, 127)), bg: None, bold: false },
            false => UiStyle { fg: Some(UiColor::Rgb(192, 192, 192)), bg: None, bold: false },
        }
    }

    /// A bordered pane in the focus-dependent border color.
    pub fn pane(&self, active: bool) -> (p: Pane)
        ensures
            p.border_style == self.style_spec(active),
    {
        let style = self.style(active);
        Pane { border_style: style }
    }

    /// The focus-dependent border color.
    pub open spec fn style_spec(&self, active: bool) -> UiStyle {
        if active {
            fg_only(UiColor::Rgb(0, 255, 127))
        } else {
            fg_only(UiColor::Rgb(192, 192, 192))
        }
    }

    /// The badge shown while copy mode is on.
    pub fn copy_mode_label(&self) -> (s: UiStyle)
        ensures
            s == (UiStyle { fg: Some(UiColor::Black), bg: Some(UiColor::Yellow), bold: true }),
    {
        UiStyle { fg: Some(UiColor::Black), bg: Some(UiColor::Yellow), bold: true }
    }

    /// The style of one process-list entry.
    pub fn get_procs_item(&self, active: bool) -> (s: UiStyle)
        ensures
            active ==> s == self.procs_item_active,
            !active ==> s == self.procs_item,
    {
        if active {
            self.procs_item_active
        } else {
            self.procs_item
        }
    }

    /// The style of the zoom banner.
    pub fn zoom_tip(&self) -> (s: UiStyle)
        ensures
            s == (UiStyle { fg: Some(UiColor::Black), bg: Some(UiColor::Yellow), bold: false }),
    {
        UiStyle { fg: Some(UiColor::Black), bg: Some(UiColor::Yellow), bold: false }
    }
}

impl Default for Theme {
    /// Default entries: plain items, a grey band for the selected one.
    fn default() -> (t: Theme)
        ensures
            t.procs_item == fg_only(UiColor::Reset),
            t.procs_item_active == (UiStyle {
                fg: None,
                bg: Some(UiColor::Rgb(56, 58, 62)),
                bold: false,
            }),
    {
        Theme {
            procs_item: UiStyle { fg: Some(UiColor::Reset), bg: None, bold: false },
            procs_item_active: UiStyle { fg: None, bg: Some(UiColor::Rgb(56, 58, 62)), bold: false },
        }
    }
}

} // verus!
