//! How each screen divides the terminal area: the library picks the rows'
//! constraints, and ratatui's layout solver turns them into areas.

use vstd::prelude::*;
use ratatui::layout::{Constraint, Layout, Rect};
use crate::screen::{Screen, ScreenView};

verus! {

/// A rectangle of terminal cells.
#[derive(Debug, Clone, Copy, PartialEq, Eq, Structural)]
pub struct Area {
    pub x: u16,
    pub y: u16,
    pub width: u16,
    pub height: u16,
}

/// The height asked for a row: at least `n` rows, or exactly `n` rows.
#[derive(Debug, Clone, Copy, PartialEq, Eq, Structural)]
pub enum Extent {
    Min(u16),
    Length(u16),
}

/// The three areas, top to bottom, into which ratatui's `Layout::vertical`
/// divides `area` for the three row constraints.
pub uninterp spec fn vertical_split(area: Area, top: Extent, middle: Extent, bottom: Extent) -> (
    Area,
    Area,
    Area,
);

/// `Layout::vertical([top, middle, bottom]).areas(area)` of ratatui. Its result
/// is a function of the area and the constraints alone (the solver has no
/// other input); nothing more of it is stated here.
#[verifier::external_body]
fn split_vertical(area: Area, top: Extent, middle: Extent, bottom: Extent) -> (r: (
    Area,
    Area,
    Area,
))
    ensures
        r == vertical_split(area, top, middle, bottom),
{
    let constraints = [top, middle, bottom].map(
        |e| match e {
            Extent::Min(n) => Constraint::Min(n),
            Extent::Length(n) => Constraint::Length(n),
        },
    );
    let rect = Rect { x: area.x, y: area.y, width: area.width, height: area.height };
    let [a, b, c] = Layout::vertical(constraints).areas(rect);
    (
        Area { x: a.x, y: a.y, width: a.width, height: a.height },
        Area { x: b.x, y: b.y, width: b.width, height: b.height },
        Area { x: c.x, y: c.y, width: c.width, height: c.height },
    )
}

/// The rows of a screen, where it is divided: introduction, field or list, footer.
pub open spec fn screen_rows(screen: ScreenView, area: Area) -> Option<(Area, Area, Area)> {
    match screen {
        ScreenView::UrlEntry { .. } => Some(
            vertical_split(area, Extent::Min(3), Extent::Length(3), Extent::Min(3)),
        ),
        ScreenView::KeyEntry { .. } => Some(
            vertical_split(area, Extent::Min(3), Extent::Length(3), Extent::Min(3)),
        ),
        ScreenView::ModelList { .. } => Some(
            vertical_split(area, Extent::Length(3), Extent::Min(10), Extent::Length(4)),
        ),
        _ => None,
    }
}

/// Divides `area` for `screen`: the text fields get a three-row field between
/// an introduction and a footer of at least three rows each; the model list
/// gets at least ten rows between a three-row introduction and a four-row
/// footer; the other screens use the whole area (`None`).
pub fn screen_areas(screen: &Screen, area: Area) -> (r: Option<(Area, Area, Area)>)
    ensures
        r == screen_rows(screen@, area),
{
    match screen {
        Screen::UrlEntry { .. } => Some(
            split_vertical(area, Extent::Min(3), Extent::Length(3), Extent::Min(3)),
        ),
        Screen::KeyEntry { .. } => Some(
            split_vertical(area, Extent::Min(3), Extent::Length(3), Extent::Min(3)),
        ),
        Screen::ModelList { .. } => Some(
            split_vertical(area, Extent::Length(3), Extent::Min(10), Extent::Length(4)),
        ),
        _ => None,
    }
}

} // verus!
