//! The running plugin's bookkeeping: the requests it has answered, and how its event loop
//! reacts to what arrives.
use vstd::prelude::*;

use crate::event::{distinct_texts, position_of, text_set};

verus! {

/// The ids of the events that the plugin has replied to.
pub struct RepliedEvents {
    ids: Vec<String>,
}

impl RepliedEvents {
    #[verifier::type_invariant]
    spec fn well_formed(self) -> bool {
        distinct_texts(self.ids@)
    }

    /// The ids of the events replied to.
    pub closed spec fn view(self) -> Set<Seq<char>> {
        text_set(self.ids@)
    }

    /// No event replied to yet.
    pub fn new() -> (replied: Self)
        ensures
            replied.view() == Set::<Seq<char>>::empty(),
    {
        let replied = RepliedEvents { ids: Vec::new() };
        assert(replied.view() =~= Set::<Seq<char>>::empty());
        replied
    }

    /// Whether the event was replied to already; from now on it counts as replied to.
    pub fn check_replied_event(&mut self, event_id: String) -> (already: bool)
        ensures
            already == old(self).view().contains(event_id@),
            final(self).view() == old(self).view().insert(event_id@),
    {
        proof {
            use_type_invariant(&*self);
        }
        let ghost before = self.ids@;
        match position_of(&self.ids, &event_id) {
            Some(_) => {
                assert(text_set(before) =~= text_set(before).insert(event_id@));
                true
            },
            None => {
                let ghost key = event_id@;
                let mut ids: Vec<String> = Vec::new();
                std::mem::swap(&mut ids, &mut self.ids);
                ids.push(event_id);
                proof {
                    let after = ids@;
                    assert forall|t: Seq<char>| text_set(after).contains(t) <==> text_set(before).insert(key).contains(t) by {
                        if text_set(before).contains(t) {
                            let i = choose|i: int| 0 <= i < before.len() && before[i]@ == t;
                            assert(after[i]@ == t);
                        }
                        if t == key {
                            assert(after[before.len() as int]@ == t);
                        }
                    }
                    assert(text_set(after) =~= text_set(before).insert(key));
                    assert(!text_set(before).contains(key));
                }
                self.ids = ids;
                false
            },
        }
    }
}

/// A request to the running plugin's event loop.
#[derive(PartialEq, Eq, Structural, Clone, Copy, Debug)]
pub enum ContextAction {
    Shutdown,
    Resubscribe,
}

/// What reaches the event loop.
#[derive(PartialEq, Eq, Structural, Clone, Copy, Debug)]
pub enum LoopInput {
    /// A relay delivered an event.
    RelayEvent,
    /// A relay has sent all its stored events.
    EndOfStoredEvents,
    /// Any other relay notification.
    OtherNotification,
    /// The refresh interval elapsed.
    RefreshTick,
    /// A request from the plugin itself.
    Action(ContextAction),
}

/// What the event loop does next.
#[derive(PartialEq, Eq, Structural, Clone, Copy, Debug)]
pub enum LoopStep {
    /// Hand the event to the handlers, in a task of its own, and wait for more.
    HandleEvent,
    /// Listen to the relays afresh, and wait for more.
    RenewListener,
    /// Wait for more.
    Ignore,
    /// Refresh the active connections, and wait for more.
    RefreshConnections,
    /// Subscribe anew, then wait for more.
    Resubscribe,
    /// Leave the loop.
    Shutdown,
}

/// The event loop's answer to what arrived.
pub fn next_loop_step(input: LoopInput) -> (step: LoopStep)
    ensures
        step == match input {
            LoopInput::RelayEvent => LoopStep::HandleEvent,
            LoopInput::EndOfStoredEvents => LoopStep::RenewListener,
            LoopInput::OtherNotification => LoopStep::Ignore,
            LoopInput::RefreshTick => LoopStep::RefreshConnections,
            LoopInput::Action(ContextAction::Resubscribe) => LoopStep::Resubscribe,
            LoopInput::Action(ContextAction::Shutdown) => LoopStep::Shutdown,
        },
{
    match input {
        LoopInput::RelayEvent => LoopStep::HandleEvent,
        LoopInput::EndOfStoredEvents => LoopStep::RenewListener,
        LoopInput::OtherNotification => LoopStep::Ignore,
        LoopInput::RefreshTick => LoopStep::RefreshConnections,
        LoopInput::Action(ContextAction::Resubscribe) => LoopStep::Resubscribe,
        LoopInput::Action(ContextAction::Shutdown) => LoopStep::Shutdown,
    }
}

} // verus!
