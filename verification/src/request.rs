//! What a client asks of the overlay.

use crate::render::UpdateSharedHandle;
use vstd::prelude::*;

verus! {

/// A length relative to the window, or in pixels. The number is a single-precision float, held
/// as its bits.
#[derive(Debug, Clone, Copy, PartialEq, Eq, Structural)]
pub enum PercentLength {
    Percent(u32),
    Length(u32),
}

/// Moves the overlay.
#[derive(Debug, Clone, Copy, PartialEq, Eq, Structural)]
pub struct SetPosition {
    pub x: PercentLength,
    pub y: PercentLength,
}

/// Says which point of the overlay its position is.
#[derive(Debug, Clone, Copy, PartialEq, Eq, Structural)]
pub struct SetAnchor {
    pub x: PercentLength,
    pub y: PercentLength,
}

/// Keeps the overlay off the window's edges.
#[derive(Debug, Clone, Copy, PartialEq, Eq, Structural)]
pub struct SetMargin {
    pub top: PercentLength,
    pub right: PercentLength,
    pub bottom: PercentLength,
    pub left: PercentLength,
}

/// Says which input of the window the client is told of.
#[derive(Debug, Clone, Copy, PartialEq, Eq, Structural)]
pub struct ListenInput {
    pub cursor: bool,
    pub keyboard: bool,
}

/// Keeps input from the window, or stops doing so.
#[derive(Debug, Clone, Copy, PartialEq, Eq, Structural)]
pub struct BlockInput {
    pub block: bool,
}

/// A mouse cursor, by its number.
#[derive(Debug, Clone, Copy, PartialEq, Eq, Structural)]
pub struct Cursor(pub u32);

/// Sets the cursor that shows while input is blocked; without one it is hidden.
#[derive(Debug, Clone, Copy, PartialEq, Eq, Structural)]
pub struct SetBlockingCursor {
    pub cursor: Option<Cursor>,
}

/// A request that concerns one window.
#[derive(Debug, Clone, Copy, PartialEq, Eq, Structural)]
pub enum WindowRequest {
    SetPosition(SetPosition),
    SetAnchor(SetAnchor),
    SetMargin(SetMargin),
    ListenInput(ListenInput),
    BlockInput(BlockInput),
    SetBlockingCursor(SetBlockingCursor),
    UpdateSharedHandle(UpdateSharedHandle),
}

/// A request.
#[derive(Debug, Clone, Copy, PartialEq, Eq, Structural)]
pub enum Request {
    Window { id: u32, request: WindowRequest },
}

} // verus!
