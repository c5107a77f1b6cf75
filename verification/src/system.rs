//! The per-frame input filter stage: drains the window-event stream (the
//! platform adapter has already applied those events to the GUI's IO state),
//! drains the input-event stream, and re-emits, wrapped and in order, exactly
//! the events the GUI's capture flags do not suppress.

use vstd::prelude::*;

use crate::channel::{
    filtered_channel_log, filtered_channel_tag, input_channel_log, input_channel_tag,
    input_reader_pos, input_reader_tag, read_input_events, read_window_events,
    register_input_reader, register_window_reader, window_channel_log, window_channel_tag,
    window_reader_pos, window_reader_tag, write_filtered_events,
};
use crate::context::{
    apply_config_flags, config_flags_of, keyboard_captured, mouse_captured, valid_config_bits,
    want_capture_keyboard, want_capture_mouse, ImguiState,
};
use crate::events::{
    filter_events, filter_input_events, wrap_events, FilteredInputEvent, InputEvent, WindowEvent,
};

verus! {

/// The input filter stage. It owns one cursor per consumed stream and nothing
/// else; the GUI state is handed in per call.
pub struct ImguiInputSystem {
    pub input_reader: shrev::ReaderId<InputEvent>,
    pub winit_reader: shrev::ReaderId<WindowEvent>,
}

impl ImguiInputSystem {
    /// The stage's cursors belong to the given streams and do not point past
    /// their tails.
    pub open spec fn wf(
        self,
        input_events: shrev::EventChannel<InputEvent>,
        winit_events: shrev::EventChannel<WindowEvent>,
    ) -> bool {
        &&& input_reader_tag(self.input_reader) == input_channel_tag(input_events)
        &&& input_reader_pos(self.input_reader) <= input_channel_log(input_events).len()
        &&& window_reader_tag(self.winit_reader) == window_channel_tag(winit_events)
        &&& window_reader_pos(self.winit_reader) <= window_channel_log(winit_events).len()
    }

    /// The input events appended since this stage last drained the stream.
    pub open spec fn pending_input(
        self,
        input_events: shrev::EventChannel<InputEvent>,
    ) -> Seq<InputEvent> {
        input_channel_log(input_events).skip(input_reader_pos(self.input_reader) as int)
    }

    /// One tick of the filter stage. Both cursors advance to the tails of
    /// their streams, and the outgoing stream grows by exactly the pending
    /// input events that the capture flags, as they stand on the context at
    /// this moment, do not suppress — wrapped, in their original order.
    pub fn run(
        &mut self,
        state: &ImguiState,
        input_events: &shrev::EventChannel<InputEvent>,
        winit_events: &shrev::EventChannel<WindowEvent>,
        filtered_events: &mut shrev::EventChannel<FilteredInputEvent>,
    )
        requires
            old(self).wf(*input_events, *winit_events),
        ensures
            final(self).wf(*input_events, *winit_events),
            input_reader_pos(final(self).input_reader) == input_channel_log(*input_events).len(),
            window_reader_pos(final(self).winit_reader) == window_channel_log(*winit_events).len(),
            filtered_channel_tag(*final(filtered_events)) == filtered_channel_tag(*old(filtered_events)),
            filtered_channel_log(*final(filtered_events)) == filtered_channel_log(*old(filtered_events))
                + wrap_events(filter_events(
                    old(self).pending_input(*input_events),
                    mouse_captured(state.context),
                    keyboard_captured(state.context),
                )),
    {
        let _window_backlog = read_window_events(winit_events, &mut self.winit_reader);
        let pending = read_input_events(input_events, &mut self.input_reader);
        let capture_mouse = want_capture_mouse(&state.context);
        let capture_keyboard = want_capture_keyboard(&state.context);
        let out = filter_input_events(&pending, capture_mouse, capture_keyboard);
        write_filtered_events(filtered_events, out);
    }
}

/// Builds the input filter stage: immutable configuration bits, applied to the
/// GUI context when the stage is constructed.
pub struct ImguiInputSystemDesc {
    pub config_flags: u32,
}

impl ImguiInputSystemDesc {
    pub fn new(config_flags: u32) -> (r: ImguiInputSystemDesc)
        ensures
            r.config_flags == config_flags,
    {
        ImguiInputSystemDesc { config_flags }
    }

    /// First-time construction of the stage: registers one cursor at the
    /// current tail of each stream — no historical backlog is ever replayed —
    /// applies the configured GUI flags to the context, and wraps the context
    /// as the shared GUI state with no textures yet.
    pub fn build(
        self,
        context: imgui::Context,
        input_events: &mut shrev::EventChannel<InputEvent>,
        winit_events: &mut shrev::EventChannel<WindowEvent>,
    ) -> (r: (ImguiState, ImguiInputSystem))
        ensures
            input_channel_log(*final(input_events)) == input_channel_log(*old(input_events)),
            input_channel_tag(*final(input_events)) == input_channel_tag(*old(input_events)),
            window_channel_log(*final(winit_events)) == window_channel_log(*old(winit_events)),
            window_channel_tag(*final(winit_events)) == window_channel_tag(*old(winit_events)),
            r.1.wf(*final(input_events), *final(winit_events)),
            input_reader_pos(r.1.input_reader) == input_channel_log(*final(input_events)).len(),
            window_reader_pos(r.1.winit_reader) == window_channel_log(*final(winit_events)).len(),
            config_flags_of(r.0.context) == config_flags_of(context)
                | valid_config_bits(self.config_flags),
            mouse_captured(r.0.context) == mouse_captured(context),
            keyboard_captured(r.0.context) == keyboard_captured(context),
            r.0.textures@ == Seq::<u64>::empty(),
    {
        let input_reader = register_input_reader(input_events);
        let winit_reader = register_window_reader(winit_events);
        let mut context = context;
        apply_config_flags(&mut context, self.config_flags);
        let state = ImguiState::new(context);
        (state, ImguiInputSystem { input_reader, winit_reader })
    }
}

} // verus!
