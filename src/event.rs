use vstd::prelude::*;

use crate::UpdateResult;

verus! {

/// The key of a key event, as far as the frame loop tells keys apart.
#[derive(Debug, Clone, Copy, PartialEq, Eq)]
pub enum KeyCode {
    /// The escape key, which asks the loop to stop.
    Esc,
    /// A key that produces a character.
    Char(char),
    /// Any other key.
    Other,
}

/// One decoded input event from the terminal.
#[derive(Debug, Clone, PartialEq, Eq)]
pub enum InputEvent {
    FocusGained,
    FocusLost,
    Key(KeyCode),
    Mouse,
    Paste(String),
    Resize(u16, u16),
}

/// Whether an event asks the frame loop to stop: only a press of escape does.
pub open spec fn is_exit_event(e: InputEvent) -> bool {
    match e {
        InputEvent::Key(KeyCode::Esc) => true,
        _ => false,
    }
}

/// Whether a batch of events holds an exit request anywhere in it.
pub open spec fn exit_requested(events: Seq<InputEvent>) -> bool {
    exists|i: int| 0 <= i < events.len() && is_exit_event(#[trigger] events[i])
}

/// The signal that a batch of drained events produces.
pub open spec fn signal_of(events: Seq<InputEvent>) -> UpdateResult {
    if exit_requested(events) {
        UpdateResult::Exit
    } else {
        UpdateResult::Continue
    }
}

/// Interprets a batch of drained events: `Exit` if any of them is a press of
/// escape, `Continue` otherwise. Every other event is observed and ignored.
pub fn handle_key_events(events: &Vec<InputEvent>) -> (r: UpdateResult)
    ensures
        r == signal_of(events@),
{
    let mut i: usize = 0;
    while i < events.len()
        invariant
            0 <= i <= events@.len(),
            forall|j: int| 0 <= j < i ==> !is_exit_event(#[trigger] events@[j]),
        decreases events@.len() - i,
    {
        match &events[i] {
            InputEvent::Key(KeyCode::Esc) => {
                return UpdateResult::Exit;
            },
            _ => {},
        }
        i += 1;
    }
    UpdateResult::Continue
}

/// An event that is not a press of escape changes nothing in the signal of a
/// batch, wherever it stands in the batch.
pub proof fn lemma_ignored_event_keeps_signal(
    before: Seq<InputEvent>,
    e: InputEvent,
    after: Seq<InputEvent>,
)
    requires
        !is_exit_event(e),
    ensures
        signal_of(before + seq![e] + after) == signal_of(before + after),
{
    let with = before + seq![e] + after;
    let without = before + after;
    if exit_requested(with) {
        let i = choose|i: int| 0 <= i < with.len() && is_exit_event(#[trigger] with[i]);
        if i < before.len() {
            assert(without[i] == with[i]);
        } else {
            assert(i > before.len());
            assert(without[i - 1] == with[i]);
        }
    }
    if exit_requested(without) {
        let i = choose|i: int| 0 <= i < without.len() && is_exit_event(#[trigger] without[i]);
        if i < before.len() {
            assert(with[i] == without[i]);
        } else {
            assert(with[i + 1] == without[i]);
        }
    }
}

} // verus!
