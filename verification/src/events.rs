//! Portable input and window events, and the per-event filtering decision:
//! pointer events are swallowed while the GUI wants pointer capture, keyboard
//! events while it wants keyboard capture, and every other event always
//! propagates, in its original order.

use vstd::prelude::*;

verus! {

/// An input event produced by the host application, reduced to the plain
/// values this layer reads: its kind, and an integer payload that rides along
/// unmodified.
#[derive(Clone, Copy, PartialEq, Eq, Structural, Debug)]
pub enum InputEvent {
    MouseMoved { delta_x: i64, delta_y: i64 },
    MouseButtonPressed(u32),
    MouseButtonReleased(u32),
    MouseWheelMoved(i32),
    KeyPressed { key_code: u32 },
    KeyReleased { key_code: u32 },
    /// Any event kind the GUI never claims (axis motion, actions, ...).
    Other(u64),
}

/// A raw windowing event. This layer only advances a cursor over the window
/// event stream; the platform adapter applies these events to the GUI's IO
/// state before the filter stage runs.
#[derive(Clone, Copy, PartialEq, Eq, Structural, Debug)]
pub struct WindowEvent {
    pub code: u64,
}

/// An input event that the GUI did not claim and that should reach the rest
/// of the application.
#[derive(Clone, Copy, PartialEq, Eq, Structural, Debug)]
pub struct FilteredInputEvent(pub InputEvent);

/// Pointer kinds: suppressed iff the GUI wants pointer capture.
pub open spec fn is_pointer_event(e: InputEvent) -> bool {
    match e {
        InputEvent::MouseMoved { .. } => true,
        InputEvent::MouseButtonPressed(_) => true,
        InputEvent::MouseButtonReleased(_) => true,
        InputEvent::MouseWheelMoved(_) => true,
        _ => false,
    }
}

/// Keyboard kinds: suppressed iff the GUI wants keyboard capture.
pub open spec fn is_keyboard_event(e: InputEvent) -> bool {
    match e {
        InputEvent::KeyPressed { .. } => true,
        InputEvent::KeyReleased { .. } => true,
        _ => false,
    }
}

/// The filtering decision for one event against the capture flags as they
/// stand at filtering time.
pub open spec fn suppressed(e: InputEvent, capture_mouse: bool, capture_keyboard: bool) -> bool {
    (is_pointer_event(e) && capture_mouse) || (is_keyboard_event(e) && capture_keyboard)
}

/// The events of `s` that are not suppressed, in the order of `s`.
pub open spec fn filter_events(
    s: Seq<InputEvent>,
    capture_mouse: bool,
    capture_keyboard: bool,
) -> Seq<InputEvent>
    decreases s.len(),
{
    if s.len() == 0 {
        Seq::empty()
    } else {
        let rest = filter_events(s.drop_last(), capture_mouse, capture_keyboard);
        if suppressed(s.last(), capture_mouse, capture_keyboard) {
            rest
        } else {
            rest.push(s.last())
        }
    }
}

/// Each event wrapped for the outgoing stream.
pub open spec fn wrap_events(s: Seq<InputEvent>) -> Seq<FilteredInputEvent> {
    s.map_values(|e: InputEvent| FilteredInputEvent(e))
}

/// Executable form of the per-event decision.
pub fn is_suppressed_event(e: InputEvent, capture_mouse: bool, capture_keyboard: bool) -> (r: bool)
    ensures
        r == suppressed(e, capture_mouse, capture_keyboard),
{
    match e {
        InputEvent::MouseMoved { .. }
        | InputEvent::MouseButtonPressed(_)
        | InputEvent::MouseButtonReleased(_)
        | InputEvent::MouseWheelMoved(_) => capture_mouse,
        InputEvent::KeyPressed { .. } | InputEvent::KeyReleased { .. } => capture_keyboard,
        InputEvent::Other(_) => false,
    }
}

/// Re-emits, wrapped and in order, exactly the events of `events` that the
/// capture flags do not suppress.
pub fn filter_input_events(
    events: &Vec<InputEvent>,
    capture_mouse: bool,
    capture_keyboard: bool,
) -> (r: Vec<FilteredInputEvent>)
    ensures
        r@ == wrap_events(filter_events(events@, capture_mouse, capture_keyboard)),
{
    let mut out: Vec<FilteredInputEvent> = Vec::new();
    let mut i: usize = 0;
    while i < events.len()
        invariant
            i <= events.len(),
            out@ == wrap_events(filter_events(events@.take(i as int), capture_mouse, capture_keyboard)),
        decreases events.len() - i,
    {
        let e = events[i];
        proof {
            assert(events@.take(i + 1).drop_last() =~= events@.take(i as int));
            assert(events@.take(i + 1).last() == events@[i as int]);
        }
        if !is_suppressed_event(e, capture_mouse, capture_keyboard) {
            out.push(FilteredInputEvent(e));
        }
        proof {
            let kept = filter_events(events@.take(i + 1), capture_mouse, capture_keyboard);
            assert(out@ =~= wrap_events(kept));
        }
        i += 1;
    }
    proof {
        assert(events@.take(events@.len() as int) =~= events@);
    }
    out
}

/// How many times `e` occurs in `s`.
pub open spec fn count_of(s: Seq<InputEvent>, e: InputEvent) -> nat
    decreases s.len(),
{
    if s.len() == 0 {
        0
    } else {
        count_of(s.drop_last(), e) + (if s.last() == e {
            1nat
        } else {
            0nat
        })
    }
}

/// Law: an event whose kind the capture flags claim — a pointer event while
/// pointer capture is wanted, a keyboard event while keyboard capture is
/// wanted — is absent from the filtered output.
pub proof fn lemma_captured_event_absent(
    s: Seq<InputEvent>,
    capture_mouse: bool,
    capture_keyboard: bool,
    e: InputEvent,
)
    requires
        suppressed(e, capture_mouse, capture_keyboard),
    ensures
        !filter_events(s, capture_mouse, capture_keyboard).contains(e),
    decreases s.len(),
{
    if s.len() > 0 {
        lemma_captured_event_absent(s.drop_last(), capture_mouse, capture_keyboard, e);
        let rest = filter_events(s.drop_last(), capture_mouse, capture_keyboard);
        if !suppressed(s.last(), capture_mouse, capture_keyboard) {
            let f = rest.push(s.last());
            assert forall|i: int| 0 <= i < f.len() implies f[i] != e by {
                if i < rest.len() {
                    assert(f[i] == rest[i]);
                    assert(rest[i] != e);
                }
            }
        }
    }
}

/// Law: an event whose kind the capture flags do not claim occurs in the
/// filtered output exactly as often as in the input — each occurrence appears
/// exactly once, unmodified.
pub proof fn lemma_unclaimed_event_count_preserved(
    s: Seq<InputEvent>,
    capture_mouse: bool,
    capture_keyboard: bool,
    e: InputEvent,
)
    requires
        !suppressed(e, capture_mouse, capture_keyboard),
    ensures
        count_of(filter_events(s, capture_mouse, capture_keyboard), e) == count_of(s, e),
    decreases s.len(),
{
    if s.len() > 0 {
        lemma_unclaimed_event_count_preserved(s.drop_last(), capture_mouse, capture_keyboard, e);
        let rest = filter_events(s.drop_last(), capture_mouse, capture_keyboard);
        if !suppressed(s.last(), capture_mouse, capture_keyboard) {
            let f = rest.push(s.last());
            assert(f.drop_last() =~= rest);
            assert(f.last() == s.last());
        }
    }
}

/// Law: an event that is neither a pointer nor a keyboard event is never
/// suppressed — it occurs in the filtered output exactly as often as in the
/// input, whatever the capture flags.
pub proof fn lemma_other_event_always_kept(
    s: Seq<InputEvent>,
    capture_mouse: bool,
    capture_keyboard: bool,
    e: InputEvent,
)
    requires
        !is_pointer_event(e),
        !is_keyboard_event(e),
    ensures
        count_of(filter_events(s, capture_mouse, capture_keyboard), e) == count_of(s, e),
{
    lemma_unclaimed_event_count_preserved(s, capture_mouse, capture_keyboard, e);
}

/// Law: with neither capture flag set, filtering is the identity — any input
/// stream of N events yields exactly those N events in the same order.
pub proof fn lemma_no_capture_identity(s: Seq<InputEvent>)
    ensures
        filter_events(s, false, false) == s,
    decreases s.len(),
{
    if s.len() == 0 {
        assert(filter_events(s, false, false) =~= s);
    } else {
        lemma_no_capture_identity(s.drop_last());
        assert(filter_events(s, false, false) =~= s);
    }
}

/// `idx` maps each position of `sub` to the position of `s` it came from:
/// strictly increasing, so `sub` is a subsequence of `s` in `s`'s order.
pub open spec fn is_ordered_embedding(sub: Seq<InputEvent>, s: Seq<InputEvent>, idx: Seq<int>) -> bool {
    &&& idx.len() == sub.len()
    &&& forall|k: int| 0 <= k < idx.len() ==> 0 <= #[trigger] idx[k] < s.len() && sub[k] == s[idx[k]]
    &&& forall|k: int, l: int| 0 <= k < l < idx.len() ==> #[trigger] idx[k] < #[trigger] idx[l]
}

/// Law: the filtered output is an ordered subsequence of the input — the kept
/// events keep their original relative order.
pub proof fn lemma_filter_preserves_order(
    s: Seq<InputEvent>,
    capture_mouse: bool,
    capture_keyboard: bool,
) -> (idx: Seq<int>)
    ensures
        is_ordered_embedding(filter_events(s, capture_mouse, capture_keyboard), s, idx),
    decreases s.len(),
{
    if s.len() == 0 {
        let idx = Seq::<int>::empty();
        idx
    } else {
        let idx0 = lemma_filter_preserves_order(s.drop_last(), capture_mouse, capture_keyboard);
        let rest = filter_events(s.drop_last(), capture_mouse, capture_keyboard);
        if suppressed(s.last(), capture_mouse, capture_keyboard) {
            assert forall|k: int| 0 <= k < idx0.len() implies 0 <= #[trigger] idx0[k] < s.len()
                && rest[k] == s[idx0[k]] by {
                assert(s.drop_last()[idx0[k]] == s[idx0[k]]);
            }
            idx0
        } else {
            let idx = idx0.push(s.len() - 1);
            let f = rest.push(s.last());
            assert forall|k: int| 0 <= k < idx.len() implies 0 <= #[trigger] idx[k] < s.len()
                && f[k] == s[idx[k]] by {
                if k < idx0.len() {
                    assert(idx[k] == idx0[k]);
                    assert(f[k] == rest[k]);
                    assert(s.drop_last()[idx0[k]] == s[idx0[k]]);
                } else {
                    assert(idx[k] == s.len() - 1);
                    assert(f[k] == s.last());
                }
            }
            assert forall|k: int, l: int| 0 <= k < l < idx.len() implies #[trigger] idx[k]
                < #[trigger] idx[l] by {
                if l < idx0.len() {
                    assert(idx0[k] < idx0[l]);
                } else {
                    assert(idx[l] == s.len() - 1);
                    assert(0 <= idx0[k] < s.drop_last().len());
                }
            }
            idx
        }
    }
}

} // verus!
