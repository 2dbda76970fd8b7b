//! The events that handling one item gives rise to, in order.

use vstd::prelude::*;
use vstd::string::StringSliceAdditionalSpecFns;

verus! {

/// How much an event matters, from most to least.
#[derive(Clone, Copy, Debug, PartialEq, Eq, Structural)]
pub enum Level {
    Error,
    Warn,
    Info,
    Debug,
    Trace,
}

/// What an event reports.
#[derive(Clone, Copy, Debug, PartialEq, Eq, Structural)]
pub enum Note {
    /// Work on an item starts; `data_len` is the length of its data in bytes.
    Processing { item: u32, data_len: usize },
    /// The item has no data.
    EmptyData { item: u32 },
    /// The item's data was handled.
    Processed { item: u32 },
    /// The inner step starts.
    InnerStart,
    /// The inner step is done.
    InnerDone,
    /// An error made up to show what one looks like.
    SimulatedError { item: u32 },
}

/// One thing to do while handling an item.
#[derive(Clone, Copy, Debug, PartialEq, Eq, Structural)]
pub enum Step {
    /// Record an event.
    Emit { level: Level, note: Note },
    /// Wait for so many milliseconds.
    Pause { millis: u64 },
    /// Enter the span of the inner step, which lasts until the end.
    EnterSpan { level: Level, item: u32 },
}

/// The level at which the span around the whole of an item's handling is
/// opened.
pub const ITEM_SPAN_LEVEL: Level = Level::Debug;

/// The steps of handling an item with the given identifier, whose data is
/// `data_len` bytes long.
pub open spec fn item_steps(item: u32, data_len: usize) -> Seq<Step> {
    seq![
        Step::Emit { level: Level::Info, note: Note::Processing { item, data_len } },
        Step::Pause { millis: 10 },
        if data_len == 0 {
            Step::Emit { level: Level::Warn, note: Note::EmptyData { item } }
        } else {
            Step::Emit { level: Level::Debug, note: Note::Processed { item } }
        },
        Step::EnterSpan { level: Level::Trace, item },
        Step::Emit { level: Level::Trace, note: Note::InnerStart },
        Step::Pause { millis: 5 },
        Step::Emit { level: Level::Trace, note: Note::InnerDone },
        Step::Emit { level: Level::Error, note: Note::SimulatedError { item } },
    ]
}

/// Lists what handling an item does, in order: it announces the item,
/// pauses, warns if the data is empty and otherwise reports it handled, and
/// then runs the inner step in a span of its own, ending on a made-up error.
pub fn process_item(item_id: u32, data: &str) -> (steps: Vec<Step>)
    ensures
        steps@ == item_steps(item_id, data.spec_bytes().len() as usize),
{
    let data_len = data.len();
    let mut steps: Vec<Step> = Vec::new();
    steps.push(Step::Emit { level: Level::Info, note: Note::Processing { item: item_id, data_len } });
    steps.push(Step::Pause { millis: 10 });
    if data_len == 0 {
        steps.push(Step::Emit { level: Level::Warn, note: Note::EmptyData { item: item_id } });
    } else {
        steps.push(Step::Emit { level: Level::Debug, note: Note::Processed { item: item_id } });
    }
    steps.push(Step::EnterSpan { level: Level::Trace, item: item_id });
    steps.push(Step::Emit { level: Level::Trace, note: Note::InnerStart });
    steps.push(Step::Pause { millis: 5 });
    steps.push(Step::Emit { level: Level::Trace, note: Note::InnerDone });
    steps.push(Step::Emit { level: Level::Error, note: Note::SimulatedError { item: item_id } });
    assert(steps@ =~= item_steps(item_id, data_len));
    steps
}

} // verus!
