//! Cursor-based consumption of append-only broadcast event streams, backed by
//! `shrev::EventChannel`.
//!
//! Each channel is modelled by the sequence of events ever written to it and
//! by an identity tag; each reader by the identity tag of the channel it was
//! registered with and by its read position into that channel's sequence.
//! `shrev` grows its ring buffer before it would overwrite an event that a
//! live reader has not seen, so a read returns exactly the events appended
//! since the reader's previous read (or its registration), in write order.

use vstd::prelude::*;

use crate::events::{FilteredInputEvent, InputEvent, WindowEvent};

verus! {

#[verifier::external_type_specification]
#[verifier::external_body]
#[verifier::reject_recursive_types(E)]
pub struct ExEventChannel<E>(shrev::EventChannel<E>);

#[verifier::external_type_specification]
#[verifier::external_body]
#[verifier::reject_recursive_types(T)]
pub struct ExReaderId<T: 'static>(shrev::ReaderId<T>);

/// All events ever written to an input-event channel, in write order.
pub uninterp spec fn input_channel_log(c: shrev::EventChannel<InputEvent>) -> Seq<InputEvent>;

/// The identity of an input-event channel, used to tie readers to it.
pub uninterp spec fn input_channel_tag(c: shrev::EventChannel<InputEvent>) -> int;

/// The identity of the channel an input-event reader was registered with.
pub uninterp spec fn input_reader_tag(r: shrev::ReaderId<InputEvent>) -> int;

/// How far into its channel's log an input-event reader has read.
pub uninterp spec fn input_reader_pos(r: shrev::ReaderId<InputEvent>) -> nat;

/// All events ever written to a window-event channel, in write order.
pub uninterp spec fn window_channel_log(c: shrev::EventChannel<WindowEvent>) -> Seq<WindowEvent>;

/// The identity of a window-event channel, used to tie readers to it.
pub uninterp spec fn window_channel_tag(c: shrev::EventChannel<WindowEvent>) -> int;

/// The identity of the channel a window-event reader was registered with.
pub uninterp spec fn window_reader_tag(r: shrev::ReaderId<WindowEvent>) -> int;

/// How far into its channel's log a window-event reader has read.
pub uninterp spec fn window_reader_pos(r: shrev::ReaderId<WindowEvent>) -> nat;

/// All events ever written to a filtered-event channel, in write order.
pub uninterp spec fn filtered_channel_log(
    c: shrev::EventChannel<FilteredInputEvent>,
) -> Seq<FilteredInputEvent>;

/// The identity of a filtered-event channel, used to tie readers to it.
pub uninterp spec fn filtered_channel_tag(c: shrev::EventChannel<FilteredInputEvent>) -> int;

/// The identity of the channel a filtered-event reader was registered with.
pub uninterp spec fn filtered_reader_tag(r: shrev::ReaderId<FilteredInputEvent>) -> int;

/// How far into its channel's log a filtered-event reader has read.
pub uninterp spec fn filtered_reader_pos(r: shrev::ReaderId<FilteredInputEvent>) -> nat;

/// Relies on shrev::EventChannel::new: a fresh channel holds no events.
#[verifier::external_body]
pub fn new_input_channel() -> (c: shrev::EventChannel<InputEvent>)
    ensures
        input_channel_log(c) == Seq::<InputEvent>::empty(),
{
    shrev::EventChannel::new()
}

/// Relies on shrev::EventChannel::register_reader: the new reader observes
/// only events written after its registration, and reads from this channel.
#[verifier::external_body]
pub fn register_input_reader(
    c: &mut shrev::EventChannel<InputEvent>,
) -> (r: shrev::ReaderId<InputEvent>)
    ensures
        input_channel_log(*final(c)) == input_channel_log(*old(c)),
        input_channel_tag(*final(c)) == input_channel_tag(*old(c)),
        input_reader_tag(r) == input_channel_tag(*old(c)),
        input_reader_pos(r) == input_channel_log(*old(c)).len(),
{
    c.register_reader()
}

/// Relies on shrev::EventChannel::single_write: appends one event at the tail.
#[verifier::external_body]
pub fn write_input_event(c: &mut shrev::EventChannel<InputEvent>, e: InputEvent)
    ensures
        input_channel_log(*final(c)) == input_channel_log(*old(c)).push(e),
        input_channel_tag(*final(c)) == input_channel_tag(*old(c)),
{
    c.single_write(e);
}

/// Relies on shrev::EventChannel::read: returns exactly the events appended
/// since this reader's previous read (or its registration), in write order,
/// and advances the reader to the tail. Panics for a reader registered with
/// another channel, which the `requires` rules out.
#[verifier::external_body]
pub fn read_input_events(
    c: &shrev::EventChannel<InputEvent>,
    r: &mut shrev::ReaderId<InputEvent>,
) -> (out: Vec<InputEvent>)
    requires
        input_reader_tag(*old(r)) == input_channel_tag(*c),
        input_reader_pos(*old(r)) <= input_channel_log(*c).len(),
    ensures
        input_reader_tag(*final(r)) == input_reader_tag(*old(r)),
        input_reader_pos(*final(r)) == input_channel_log(*c).len(),
        out@ == input_channel_log(*c).skip(input_reader_pos(*old(r)) as int),
{
    c.read(r).copied().collect()
}

/// Relies on shrev::EventChannel::new: a fresh channel holds no events.
#[verifier::external_body]
pub fn new_window_channel() -> (c: shrev::EventChannel<WindowEvent>)
    ensures
        window_channel_log(c) == Seq::<WindowEvent>::empty(),
{
    shrev::EventChannel::new()
}

/// Relies on shrev::EventChannel::register_reader: the new reader observes
/// only events written after its registration, and reads from this channel.
#[verifier::external_body]
pub fn register_window_reader(
    c: &mut shrev::EventChannel<WindowEvent>,
) -> (r: shrev::ReaderId<WindowEvent>)
    ensures
        window_channel_log(*final(c)) == window_channel_log(*old(c)),
        window_channel_tag(*final(c)) == window_channel_tag(*old(c)),
        window_reader_tag(r) == window_channel_tag(*old(c)),
        window_reader_pos(r) == window_channel_log(*old(c)).len(),
{
    c.register_reader()
}

/// Relies on shrev::EventChannel::single_write: appends one event at the tail.
#[verifier::external_body]
pub fn write_window_event(c: &mut shrev::EventChannel<WindowEvent>, e: WindowEvent)
    ensures
        window_channel_log(*final(c)) == window_channel_log(*old(c)).push(e),
        window_channel_tag(*final(c)) == window_channel_tag(*old(c)),
{
    c.single_write(e);
}

/// Relies on shrev::EventChannel::read: returns exactly the events appended
/// since this reader's previous read (or its registration), in write order,
/// and advances the reader to the tail. Panics for a reader registered with
/// another channel, which the `requires` rules out.
#[verifier::external_body]
pub fn read_window_events(
    c: &shrev::EventChannel<WindowEvent>,
    r: &mut shrev::ReaderId<WindowEvent>,
) -> (out: Vec<WindowEvent>)
    requires
        window_reader_tag(*old(r)) == window_channel_tag(*c),
        window_reader_pos(*old(r)) <= window_channel_log(*c).len(),
    ensures
        window_reader_tag(*final(r)) == window_reader_tag(*old(r)),
        window_reader_pos(*final(r)) == window_channel_log(*c).len(),
        out@ == window_channel_log(*c).skip(window_reader_pos(*old(r)) as int),
{
    c.read(r).copied().collect()
}

/// Relies on shrev::EventChannel::new: a fresh channel holds no events.
#[verifier::external_body]
pub fn new_filtered_channel() -> (c: shrev::EventChannel<FilteredInputEvent>)
    ensures
        filtered_channel_log(c) == Seq::<FilteredInputEvent>::empty(),
{
    shrev::EventChannel::new()
}

/// Relies on shrev::EventChannel::register_reader: the new reader observes
/// only events written after its registration, and reads from this channel.
#[verifier::external_body]
pub fn register_filtered_reader(
    c: &mut shrev::EventChannel<FilteredInputEvent>,
) -> (r: shrev::ReaderId<FilteredInputEvent>)
    ensures
        filtered_channel_log(*final(c)) == filtered_channel_log(*old(c)),
        filtered_channel_tag(*final(c)) == filtered_channel_tag(*old(c)),
        filtered_reader_tag(r) == filtered_channel_tag(*old(c)),
        filtered_reader_pos(r) == filtered_channel_log(*old(c)).len(),
{
    c.register_reader()
}

/// Relies on shrev::EventChannel::iter_write: appends the events in order at
/// the tail.
#[verifier::external_body]
pub fn write_filtered_events(
    c: &mut shrev::EventChannel<FilteredInputEvent>,
    events: Vec<FilteredInputEvent>,
)
    ensures
        filtered_channel_log(*final(c)) == filtered_channel_log(*old(c)) + events@,
        filtered_channel_tag(*final(c)) == filtered_channel_tag(*old(c)),
{
    c.iter_write(events.into_iter());
}

/// Relies on shrev::EventChannel::read: returns exactly the events appended
/// since this reader's previous read (or its registration), in write order,
/// and advances the reader to the tail. Panics for a reader registered with
/// another channel, which the `requires` rules out.
#[verifier::external_body]
pub fn read_filtered_events(
    c: &shrev::EventChannel<FilteredInputEvent>,
    r: &mut shrev::ReaderId<FilteredInputEvent>,
) -> (out: Vec<FilteredInputEvent>)
    requires
        filtered_reader_tag(*old(r)) == filtered_channel_tag(*c),
        filtered_reader_pos(*old(r)) <= filtered_channel_log(*c).len(),
    ensures
        filtered_reader_tag(*final(r)) == filtered_reader_tag(*old(r)),
        filtered_reader_pos(*final(r)) == filtered_channel_log(*c).len(),
        out@ == filtered_channel_log(*c).skip(filtered_reader_pos(*old(r)) as int),
{
    c.read(r).copied().collect()
}

/// Law: draining a stream twice in a row, with no events written in between,
/// yields an empty result the second time. After a drain the reader stands at
/// the tail of the log, and the suffix past the tail is empty.
pub proof fn lemma_second_drain_empty<E>(log: Seq<E>, pos: nat)
    requires
        pos == log.len(),
    ensures
        log.skip(pos as int) == Seq::<E>::empty(),
{
    assert(log.skip(pos as int) =~= Seq::<E>::empty());
}

/// Law: a drain that starts at the tail reached by the previous drain returns
/// exactly the events appended since — an event from an earlier tick is never
/// emitted again.
pub proof fn lemma_no_double_emission<E>(log: Seq<E>, appended: Seq<E>)
    ensures
        (log + appended).skip(log.len() as int) == appended,
{
    assert((log + appended).skip(log.len() as int) =~= appended);
}

} // verus!
