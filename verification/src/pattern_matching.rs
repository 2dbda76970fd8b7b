//! Classifying messages and points by their shape.

use vstd::prelude::*;

verus! {

/// A message to be acted on.
#[derive(Debug)]
pub enum Message {
    Quit,
    Move { x: i32, y: i32 },
    Write(String),
    ChangeColor(i32, i32, i32),
    Complex { id: u32, payload: Vec<u8>, important: bool },
}

/// The identifier that, together with a leading marker byte, makes a
/// [`Message::Complex`] special.
pub const SPECIAL_ID: u32 = 101;

/// The first payload byte of a special [`Message::Complex`].
pub const SPECIAL_MARKER: u8 = 0xAA;

/// What a message asks for.
#[derive(Debug)]
pub enum Action {
    /// Stop.
    Terminate,
    /// Go to the given coordinates.
    MoveTo { x: i32, y: i32 },
    /// Write out the given text.
    WriteText { text: String },
    /// Change the colour to the given red, green and blue parts.
    SetColor { r: i32, g: i32, b: i32 },
    /// Handle a complex message: its identifier, the length of its payload,
    /// whether it is important, and whether it meets the special condition.
    HandleComplex { id: u32, payload_len: usize, important: bool, special: bool },
}

/// Whether a complex message with this identifier and payload is special:
/// the identifier is [`SPECIAL_ID`] and the payload starts with
/// [`SPECIAL_MARKER`].
pub open spec fn is_special(id: u32, payload: Seq<u8>) -> bool {
    id == SPECIAL_ID && payload.len() > 0 && payload[0] == SPECIAL_MARKER
}

/// The action that a message asks for.
pub open spec fn action_of(msg: Message) -> Action {
    match msg {
        Message::Quit => Action::Terminate,
        Message::Move { x, y } => Action::MoveTo { x, y },
        Message::Write(text) => Action::WriteText { text },
        Message::ChangeColor(r, g, b) => Action::SetColor { r, g, b },
        Message::Complex { id, payload, important } => Action::HandleComplex {
            id,
            payload_len: payload@.len() as usize,
            important,
            special: is_special(id, payload@),
        },
    }
}

/// Takes a message apart and says what it asks for.
pub fn process_message(msg: Message) -> (action: Action)
    ensures
        action == action_of(msg),
{
    match msg {
        Message::Quit => Action::Terminate,
        Message::Move { x, y } => Action::MoveTo { x, y },
        Message::Write(text) => Action::WriteText { text },
        Message::ChangeColor(r, g, b) => Action::SetColor { r, g, b },
        Message::Complex { id, payload, important } => {
            let special = id == SPECIAL_ID && payload.len() > 0 && payload[0] == SPECIAL_MARKER;
            Action::HandleComplex { id, payload_len: payload.len(), important, special }
        },
    }
}

/// How far from the origin, along either axis, a point must lie to count as
/// far away.
pub const FAR_LIMIT: i32 = 10;

/// Where a point of the plane lies.
#[derive(Clone, Copy, Debug, PartialEq, Eq, Structural)]
pub enum PointKind {
    /// The point (0, 0).
    Origin,
    /// On the x-axis, away from the origin.
    OnXAxis { x: i32 },
    /// On the y-axis, away from the origin.
    OnYAxis { y: i32 },
    /// On the line x = y, away from the origin.
    OnDiagonal { x: i32, y: i32 },
    /// On the line x = -y, away from the origin.
    OnAntiDiagonal { x: i32, y: i32 },
    /// Anywhere else; `far` says whether either coordinate is more than
    /// [`FAR_LIMIT`] away from zero.
    Elsewhere { x: i32, y: i32, far: bool },
}

/// The absolute value of a mathematical integer.
pub open spec fn magnitude(v: int) -> int {
    if v < 0 {
        -v
    } else {
        v
    }
}

/// Whether either coordinate is more than [`FAR_LIMIT`] away from zero.
pub open spec fn is_far(x: i32, y: i32) -> bool {
    magnitude(x as int) > FAR_LIMIT || magnitude(y as int) > FAR_LIMIT
}

/// Where the point `(x, y)` lies. The cases are tried in the order in which
/// the variants of [`PointKind`] are listed, and the first that fits is
/// taken. Negation and absolute value are those of the integers, so the
/// smallest `i32` is far from the origin and is the negative of no `i32`.
pub open spec fn point_kind(x: i32, y: i32) -> PointKind {
    if x == 0 && y == 0 {
        PointKind::Origin
    } else if y == 0 {
        PointKind::OnXAxis { x }
    } else if x == 0 {
        PointKind::OnYAxis { y }
    } else if x == y {
        PointKind::OnDiagonal { x, y }
    } else if x == -y {
        PointKind::OnAntiDiagonal { x, y }
    } else {
        PointKind::Elsewhere { x, y, far: is_far(x, y) }
    }
}

/// Says where a point lies.
pub fn match_tuple_and_guards(point: (i32, i32)) -> (kind: PointKind)
    ensures
        kind == point_kind(point.0, point.1),
{
    match point {
        (0, 0) => PointKind::Origin,
        (x, 0) => PointKind::OnXAxis { x },
        (0, y) => PointKind::OnYAxis { y },
        (x, y) => {
            if x == y {
                PointKind::OnDiagonal { x, y }
            } else if y != i32::MIN && x == -y {
                PointKind::OnAntiDiagonal { x, y }
            } else {
                let far = x > FAR_LIMIT || x < -FAR_LIMIT || y > FAR_LIMIT || y < -FAR_LIMIT;
                PointKind::Elsewhere { x, y, far }
            }
        },
    }
}

} // verus!
