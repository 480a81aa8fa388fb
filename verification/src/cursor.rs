//! Mouse cursors: the cursor a page asks for, the interaction shown by the
//! windowing toolkit, and the choices widgets make between them.

use vstd::prelude::*;

verus! {

/// The cursor a web page asks for (the CSS `cursor` values).
#[derive(Debug, Clone, Copy, PartialEq, Eq, Structural)]
pub enum Cursor {
    /// No cursor at all.
    NoCursor,
    Default,
    Pointer,
    ContextMenu,
    Help,
    Progress,
    Wait,
    Cell,
    Crosshair,
    Text,
    VerticalText,
    Alias,
    Copy,
    Move,
    NoDrop,
    NotAllowed,
    Grab,
    Grabbing,
    EResize,
    NResize,
    NeResize,
    NwResize,
    SResize,
    SeResize,
    SwResize,
    WResize,
    EwResize,
    NsResize,
    NeswResize,
    NwseResize,
    ColResize,
    RowResize,
    AllScroll,
    ZoomIn,
    ZoomOut,
}

/// The cursor interaction shown by the windowing toolkit.
#[derive(Debug, Clone, Copy, PartialEq, Eq, Structural)]
pub enum Interaction {
    /// No particular interaction: the toolkit's default cursor.
    Default,
    Hidden,
    Idle,
    ContextMenu,
    Help,
    Pointer,
    Progress,
    Wait,
    Cell,
    Crosshair,
    Text,
    Alias,
    Copy,
    Move,
    NoDrop,
    NotAllowed,
    Grab,
    Grabbing,
    ResizingHorizontally,
    ResizingVertically,
    ResizingDiagonallyUp,
    ResizingDiagonallyDown,
    ResizingColumn,
    ResizingRow,
    AllScroll,
    ZoomIn,
    ZoomOut,
}

/// The closest interaction for a page cursor: resize cursors map by axis
/// (east/west horizontal, north/south vertical, north-east/south-west
/// diagonally up, north-west/south-east diagonally down), text and
/// vertical text to text, move and all-scroll to move, the default cursor
/// to no particular interaction and no cursor to a hidden one.
pub open spec fn interaction_for(c: Cursor) -> Interaction {
    match c {
        Cursor::NoCursor => Interaction::Hidden,
        Cursor::Default => Interaction::Default,
        Cursor::Pointer => Interaction::Pointer,
        Cursor::Text | Cursor::VerticalText => Interaction::Text,
        Cursor::Wait => Interaction::Wait,
        Cursor::Progress => Interaction::Progress,
        Cursor::Crosshair => Interaction::Crosshair,
        Cursor::Move | Cursor::AllScroll => Interaction::Move,
        Cursor::Grab => Interaction::Grab,
        Cursor::Grabbing => Interaction::Grabbing,
        Cursor::NotAllowed => Interaction::NotAllowed,
        Cursor::NoDrop => Interaction::NoDrop,
        Cursor::Help => Interaction::Help,
        Cursor::ZoomIn => Interaction::ZoomIn,
        Cursor::ZoomOut => Interaction::ZoomOut,
        Cursor::Cell => Interaction::Cell,
        Cursor::ContextMenu => Interaction::ContextMenu,
        Cursor::Alias => Interaction::Alias,
        Cursor::Copy => Interaction::Copy,
        Cursor::ColResize => Interaction::ResizingColumn,
        Cursor::RowResize => Interaction::ResizingRow,
        Cursor::EResize | Cursor::WResize | Cursor::EwResize => Interaction::ResizingHorizontally,
        Cursor::NResize | Cursor::SResize | Cursor::NsResize => Interaction::ResizingVertically,
        Cursor::NeResize | Cursor::SwResize | Cursor::NeswResize => Interaction::ResizingDiagonallyUp,
        Cursor::NwResize | Cursor::SeResize | Cursor::NwseResize => Interaction::ResizingDiagonallyDown,
    }
}

/// Maps the cursor a page asks for to the interaction shown.
pub fn cursor_to_interaction(cursor: Cursor) -> (r: Interaction)
    ensures
        r == interaction_for(cursor),
{
    match cursor {
        Cursor::NoCursor => Interaction::Hidden,
        Cursor::Default => Interaction::Default,
        Cursor::Pointer => Interaction::Pointer,
        Cursor::Text | Cursor::VerticalText => Interaction::Text,
        Cursor::Wait => Interaction::Wait,
        Cursor::Progress => Interaction::Progress,
        Cursor::Crosshair => Interaction::Crosshair,
        Cursor::Move | Cursor::AllScroll => Interaction::Move,
        Cursor::Grab => Interaction::Grab,
        Cursor::Grabbing => Interaction::Grabbing,
        Cursor::NotAllowed => Interaction::NotAllowed,
        Cursor::NoDrop => Interaction::NoDrop,
        Cursor::Help => Interaction::Help,
        Cursor::ZoomIn => Interaction::ZoomIn,
        Cursor::ZoomOut => Interaction::ZoomOut,
        Cursor::Cell => Interaction::Cell,
        Cursor::ContextMenu => Interaction::ContextMenu,
        Cursor::Alias => Interaction::Alias,
        Cursor::Copy => Interaction::Copy,
        Cursor::ColResize => Interaction::ResizingColumn,
        Cursor::RowResize => Interaction::ResizingRow,
        Cursor::EResize | Cursor::WResize | Cursor::EwResize => Interaction::ResizingHorizontally,
        Cursor::NResize | Cursor::SResize | Cursor::NsResize => Interaction::ResizingVertically,
        Cursor::NeResize | Cursor::SwResize | Cursor::NeswResize => Interaction::ResizingDiagonallyUp,
        Cursor::NwResize | Cursor::SeResize | Cursor::NwseResize => Interaction::ResizingDiagonallyDown,
    }
}

/// The interaction over a page widget for a cursor position and page cursor.
pub open spec fn page_interaction_spec(over: bool, cursor: Cursor) -> Interaction {
    if over {
        interaction_for(cursor)
    } else {
        Interaction::Default
    }
}

/// The interaction over a page widget: the page's cursor while the mouse
/// is over the widget, none elsewhere.
pub fn page_interaction(over: bool, cursor: Cursor) -> (r: Interaction)
    ensures
        r == page_interaction_spec(over, cursor),
{
    if over {
        cursor_to_interaction(cursor)
    } else {
        Interaction::Default
    }
}

/// The interaction over the skin viewer: grabbing while dragging, a grab
/// hand while hovered, none elsewhere.
pub fn skin_interaction(dragging: bool, over: bool) -> (r: Interaction)
    ensures
        r == if dragging {
            Interaction::Grabbing
        } else if over {
            Interaction::Grab
        } else {
            Interaction::Default
        },
{
    if dragging {
        Interaction::Grabbing
    } else if over {
        Interaction::Grab
    } else {
        Interaction::Default
    }
}

/// The interaction over a clickable button: a pointer while hovered.
pub fn button_interaction(over: bool) -> (r: Interaction)
    ensures
        r == if over {
            Interaction::Pointer
        } else {
            Interaction::Default
        },
{
    if over {
        Interaction::Pointer
    } else {
        Interaction::Default
    }
}

/// The interaction shown for each cursor a page can ask for: the text
/// cursors show the text beam; the arrows, hands, waits and zooms their
/// counterparts; move and all-scroll the move cross; column and row resizing
/// their own; east, west and east-west resizing horizontal, north, south and
/// north-south vertical, north-east, south-west and their pair diagonal up,
/// north-west, south-east and their pair diagonal down; the default cursor
/// no particular interaction; no cursor a hidden one. Over a page widget the
/// page's cursor shows only while the mouse is over it.
pub proof fn law_cursor_interactions(c: Cursor)
    ensures
        interaction_for(Cursor::NoCursor) == Interaction::Hidden,
        interaction_for(Cursor::Default) == Interaction::Default,
        interaction_for(Cursor::Pointer) == Interaction::Pointer,
        interaction_for(Cursor::Text) == Interaction::Text,
        interaction_for(Cursor::VerticalText) == Interaction::Text,
        interaction_for(Cursor::Wait) == Interaction::Wait,
        interaction_for(Cursor::Progress) == Interaction::Progress,
        interaction_for(Cursor::Crosshair) == Interaction::Crosshair,
        interaction_for(Cursor::Move) == Interaction::Move,
        interaction_for(Cursor::AllScroll) == Interaction::Move,
        interaction_for(Cursor::Grab) == Interaction::Grab,
        interaction_for(Cursor::Grabbing) == Interaction::Grabbing,
        interaction_for(Cursor::NotAllowed) == Interaction::NotAllowed,
        interaction_for(Cursor::NoDrop) == Interaction::NoDrop,
        interaction_for(Cursor::Help) == Interaction::Help,
        interaction_for(Cursor::ZoomIn) == Interaction::ZoomIn,
        interaction_for(Cursor::ZoomOut) == Interaction::ZoomOut,
        interaction_for(Cursor::Cell) == Interaction::Cell,
        interaction_for(Cursor::ContextMenu) == Interaction::ContextMenu,
        interaction_for(Cursor::Alias) == Interaction::Alias,
        interaction_for(Cursor::Copy) == Interaction::Copy,
        interaction_for(Cursor::ColResize) == Interaction::ResizingColumn,
        interaction_for(Cursor::RowResize) == Interaction::ResizingRow,
        interaction_for(Cursor::EResize) == Interaction::ResizingHorizontally,
        interaction_for(Cursor::WResize) == Interaction::ResizingHorizontally,
        interaction_for(Cursor::EwResize) == Interaction::ResizingHorizontally,
        interaction_for(Cursor::NResize) == Interaction::ResizingVertically,
        interaction_for(Cursor::SResize) == Interaction::ResizingVertically,
        interaction_for(Cursor::NsResize) == Interaction::ResizingVertically,
        interaction_for(Cursor::NeResize) == Interaction::ResizingDiagonallyUp,
        interaction_for(Cursor::SwResize) == Interaction::ResizingDiagonallyUp,
        interaction_for(Cursor::NeswResize) == Interaction::ResizingDiagonallyUp,
        interaction_for(Cursor::NwResize) == Interaction::ResizingDiagonallyDown,
        interaction_for(Cursor::SeResize) == Interaction::ResizingDiagonallyDown,
        interaction_for(Cursor::NwseResize) == Interaction::ResizingDiagonallyDown,
        page_interaction_spec(false, c) == Interaction::Default,
        page_interaction_spec(true, c) == interaction_for(c),
{
}

} // verus!
