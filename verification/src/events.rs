//! Raw input events, device-name matching, and the listener's decisions:
//! which rule an event fires, and which actions a batch of events
//! dispatches.

use crate::config::{is_first_match, string_eq, Config};
use crate::keys::KeyIdentity;
use crate::trigger::{spec_decode_trigger, EventDecodeError, TriggerState};
use vstd::prelude::*;

verus! {

/// An event as delivered by the device read primitive. Only key events
/// carry structure that matching reads; every other kind is ignored.
#[derive(Debug, Clone, Copy, PartialEq, Eq, Structural)]
pub enum RawEvent {
    /// A key event: the key, and the raw trigger-state value.
    Key { key: KeyIdentity, value: i32 },
    /// An event of any other kind.
    Other,
}

/// Whether a candidate device matches the configured target: its reported
/// name must equal the configured name exactly, case-sensitively; a
/// device reporting no name never matches.
pub open spec fn spec_device_matches(c: Config, name: Option<String>) -> bool {
    name matches Some(n) && n@ == c.name@
}

/// Tests a candidate device's reported name against the configuration.
pub fn device_matches(config: &Config, name: &Option<String>) -> (r: bool)
    ensures
        r == spec_device_matches(*config, *name),
{
    match name {
        Some(n) => string_eq(n, &config.name),
        None => false,
    }
}

/// What the rule table decides for one raw event: the index of the first
/// matching rule for a key event whose trigger state decodes and some
/// rule fires; nothing for any other event; a decode error for a key
/// event whose value is out of range.
pub open spec fn spec_action_for(c: Config, ev: RawEvent) -> Result<
    Option<int>,
    EventDecodeError,
> {
    match ev {
        RawEvent::Other => Ok(None),
        RawEvent::Key { key, value } => match spec_decode_trigger(value as int) {
            None => Err(EventDecodeError { value }),
            Some(t) => if exists|j: int|
                0 <= j < c.rules@.len() && (#[trigger] c.rules@[j]).spec_matches(key, t) {
                Ok(Some(choose|i: int| is_first_match(c.rules@, key, t, i)))
            } else {
                Ok(None)
            },
        },
    }
}

impl Config {
    /// Decides what one raw event dispatches: `Ok(Some(i))` names the
    /// first rule in source order that fires, `Ok(None)` dispatches
    /// nothing, and an out-of-range trigger-state value is an error that
    /// ends the device session.
    pub fn action_for(&self, ev: &RawEvent) -> (r: Result<Option<usize>, EventDecodeError>)
        ensures
            match r {
                Ok(Some(i)) => spec_action_for(*self, *ev) == Ok::<Option<int>,
                    EventDecodeError,
                >(Some(i as int)),
                Ok(None) => spec_action_for(*self, *ev) == Ok::<Option<int>,
                    EventDecodeError,
                >(None),
                Err(e) => spec_action_for(*self, *ev) == Err::<Option<int>,
                    EventDecodeError,
                >(e),
            },
            r matches Ok(Some(i)) ==> (*ev matches RawEvent::Key { key, value }
                && spec_decode_trigger(value as int) matches Some(t) && is_first_match(
                self.rules@,
                key,
                t,
                i as int,
            )),
    {
        match ev {
            RawEvent::Other => Ok(None),
            RawEvent::Key { key, value } => {
                let state = match TriggerState::decode(*value) {
                    Ok(t) => t,
                    Err(e) => {
                        return Err(e);
                    },
                };
                match self.find(*key, state) {
                    Some(i) => {
                        proof {
                            crate::config::lemma_first_match_unique(
                                self.rules@,
                                *key,
                                state,
                                i as int,
                                choose|k: int| is_first_match(self.rules@, *key, state, k),
                            );
                        }
                        Ok(Some(i))
                    },
                    None => Ok(None),
                }
            },
        }
    }
}

/// What one batch of events dispatches: the rule indices of the fired
/// actions, in event order, and the decode error that cut the batch
/// short, if one did. Events after a decode error dispatch nothing;
/// events before it dispatch whether or not any launch succeeds.
pub open spec fn spec_plan_from(c: Config, events: Seq<RawEvent>, k: int) -> (Seq<int>, Option<
    EventDecodeError,
>)
    decreases events.len() - k,
{
    if k < 0 || k >= events.len() {
        (Seq::<int>::empty(), None)
    } else {
        match spec_action_for(c, events[k]) {
            Err(e) => (Seq::<int>::empty(), Some(e)),
            Ok(None) => spec_plan_from(c, events, k + 1),
            Ok(Some(i)) => {
                let rest = spec_plan_from(c, events, k + 1);
                (seq![i] + rest.0, rest.1)
            },
        }
    }
}

/// The dispatch plan of a whole batch, from its first event.
pub open spec fn spec_plan(c: Config, events: Seq<RawEvent>) -> (Seq<int>, Option<
    EventDecodeError,
>) {
    spec_plan_from(c, events, 0)
}

/// The dispatch plan of one batch of events.
#[derive(Debug, Clone, PartialEq, Eq)]
pub struct BatchPlan {
    /// Indices into the rule table, one per dispatched action, in event
    /// order.
    pub launches: Vec<usize>,
    /// The decode error that ended the batch (and the device session)
    /// early, if any.
    pub failure: Option<EventDecodeError>,
}

/// Plans one batch of events against the rule table: every key event is
/// examined in delivery order; each first-matching rule is dispatched;
/// an out-of-range trigger-state value ends the batch at that event,
/// keeping the dispatches made before it.
pub fn plan_batch(config: &Config, events: &Vec<RawEvent>) -> (r: BatchPlan)
    ensures
        r.launches@.map_values(|u: usize| u as int) == spec_plan(*config, events@).0,
        r.failure == spec_plan(*config, events@).1,
        forall|j: int|
            0 <= j < r.launches@.len() ==> (#[trigger] r.launches@[j]) < config.rules@.len(),
{
    let mut launches: Vec<usize> = Vec::new();
    let n = events.len();
    let mut k: usize = 0;
    while k < n
        invariant
            0 <= k <= n,
            n == events@.len(),
            spec_plan(*config, events@).0 == launches@.map_values(|u: usize| u as int)
                + spec_plan_from(*config, events@, k as int).0,
            spec_plan(*config, events@).1 == spec_plan_from(*config, events@, k as int).1,
            forall|j: int|
                0 <= j < launches@.len() ==> (#[trigger] launches@[j])
                    < config.rules@.len(),
        decreases n - k,
    {
        match config.action_for(&events[k]) {
            Err(e) => {
                proof {
                    assert(spec_plan(*config, events@).0 =~= launches@.map_values(
                        |u: usize| u as int,
                    ));
                }
                return BatchPlan { launches, failure: Some(e) };
            },
            Ok(None) => {},
            Ok(Some(i)) => {
                let ghost old_launches = launches@;
                launches.push(i);
                proof {
                    let rest = spec_plan_from(*config, events@, k as int + 1);
                    assert(launches@.map_values(|u: usize| u as int) =~= old_launches
                        .map_values(|u: usize| u as int) + seq![i as int]);
                    assert(old_launches.map_values(|u: usize| u as int) + (seq![i as int]
                        + rest.0) =~= (old_launches.map_values(|u: usize| u as int)
                        + seq![i as int]) + rest.0);
                }
            },
        }
        k = k + 1;
    }
    proof {
        assert(spec_plan(*config, events@).0 =~= launches@.map_values(|u: usize| u as int));
    }
    BatchPlan { launches, failure: None }
}

} // verus!
