//! Trigger states of a key event and their decoding from raw event values.

use vstd::prelude::*;

verus! {

/// The semantic phase of a key event: press, release, or autorepeat.
#[derive(Debug, Clone, Copy, PartialEq, Eq, Structural)]
pub enum TriggerState {
    Press,
    Release,
    Repeat,
}

/// A raw key event carried a trigger-state value outside the range `0..=2`.
/// Fatal to the device session in which it was read, never to the process.
#[derive(Debug, Clone, Copy, PartialEq, Eq, Structural)]
pub struct EventDecodeError {
    pub value: i32,
}

/// The trigger state encoded by a raw event value, if the value is in range.
pub open spec fn spec_decode_trigger(v: int) -> Option<TriggerState> {
    if v == 0 {
        Some(TriggerState::Release)
    } else if v == 1 {
        Some(TriggerState::Press)
    } else if v == 2 {
        Some(TriggerState::Repeat)
    } else {
        None
    }
}

/// The raw event value that encodes a trigger state.
pub open spec fn spec_encode_trigger(t: TriggerState) -> int {
    match t {
        TriggerState::Release => 0,
        TriggerState::Press => 1,
        TriggerState::Repeat => 2,
    }
}

impl TriggerState {
    /// Decodes the trigger state carried in a raw key event value;
    /// every value outside `0..=2` is a decode error.
    pub fn decode(v: i32) -> (r: Result<TriggerState, EventDecodeError>)
        ensures
            r matches Ok(t) ==> spec_decode_trigger(v as int) == Some(t),
            r matches Err(e) ==> spec_decode_trigger(v as int) is None && e.value == v,
            (r is Ok) <==> 0 <= v <= 2,
    {
        match v {
            0 => Ok(TriggerState::Release),
            1 => Ok(TriggerState::Press),
            2 => Ok(TriggerState::Repeat),
            _ => Err(EventDecodeError { value: v }),
        }
    }
}

impl Default for TriggerState {
    /// A rule that names no trigger state defaults to `Press`.
    fn default() -> (r: Self)
        ensures
            r == TriggerState::Press,
    {
        TriggerState::Press
    }
}

/// Trigger-state decoding is total on `{0, 1, 2}`, rejects every other
/// value, and is a bijection between `{0, 1, 2}` and the trigger states.
pub proof fn lemma_trigger_decode_bijective()
    ensures
        forall|v: int| (0 <= v <= 2) <==> spec_decode_trigger(v) is Some,
        forall|v: int|
            0 <= v <= 2 ==> spec_encode_trigger(spec_decode_trigger(v)->Some_0) == v,
        forall|t: TriggerState| spec_decode_trigger(spec_encode_trigger(t)) == Some(t),
        forall|v: int, w: int|
            0 <= v <= 2 && 0 <= w <= 2 && v != w ==> spec_decode_trigger(v)
                != spec_decode_trigger(w),
{
    assert(forall|t: TriggerState|
        spec_decode_trigger(spec_encode_trigger(t)) == Some(t)) by {
        assert(spec_decode_trigger(spec_encode_trigger(TriggerState::Press))
            == Some(TriggerState::Press));
        assert(spec_decode_trigger(spec_encode_trigger(TriggerState::Release))
            == Some(TriggerState::Release));
        assert(spec_decode_trigger(spec_encode_trigger(TriggerState::Repeat))
            == Some(TriggerState::Repeat));
    }
}

} // verus!
