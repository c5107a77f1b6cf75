//! Pipeline registration: where the input filter stage stands in the stage
//! graph (after input collection and windowing), and where the overlay draw
//! pass stands in the render graph (the fixed late "overlay" slot on a chosen
//! target). The registrations are plain data; the embedding hands them to its
//! scheduler and render graph.

use vstd::prelude::*;

use crate::channel::{
    input_channel_log, input_channel_tag, input_reader_pos, window_channel_log,
    window_channel_tag, window_reader_pos,
};
use crate::context::{config_flags_of, keyboard_captured, mouse_captured, valid_config_bits, ImguiState};
use crate::events::{InputEvent, WindowEvent};
use crate::system::{ImguiInputSystem, ImguiInputSystemDesc};

verus! {

/// A render target the overlay pass can be bound to.
#[derive(Clone, Copy, PartialEq, Eq, Structural, Debug)]
pub enum Target {
    /// The main window surface.
    Main,
    /// A custom target, named by the embedding.
    Custom(u64),
}

impl Default for Target {
    fn default() -> (r: Target)
        ensures
            r == Target::Main,
    {
        Target::Main
    }
}

/// The ordering slots of the render graph, from earliest to latest.
#[derive(Clone, Copy, PartialEq, Eq, Structural, Debug)]
pub enum RenderOrder {
    BeforeOpaque,
    Opaque,
    Transparent,
    AfterTransparent,
    Overlay,
}

impl RenderOrder {
    /// The position of this slot in the frame: larger runs later.
    pub open spec fn rank_spec(self) -> nat {
        match self {
            RenderOrder::BeforeOpaque => 0,
            RenderOrder::Opaque => 1,
            RenderOrder::Transparent => 2,
            RenderOrder::AfterTransparent => 3,
            RenderOrder::Overlay => 4,
        }
    }

    pub fn rank(&self) -> (r: u8)
        ensures
            r == self.rank_spec(),
    {
        match self {
            RenderOrder::BeforeOpaque => 0,
            RenderOrder::Opaque => 1,
            RenderOrder::Transparent => 2,
            RenderOrder::AfterTransparent => 3,
            RenderOrder::Overlay => 4,
        }
    }
}

/// Law: the overlay slot runs after every other slot of the frame.
pub proof fn lemma_overlay_runs_last(order: RenderOrder)
    requires
        order != RenderOrder::Overlay,
    ensures
        order.rank_spec() < RenderOrder::Overlay.rank_spec(),
{
}

/// The stages this layer knows by name.
#[derive(Clone, Copy, PartialEq, Eq, Structural, Debug)]
pub enum StageName {
    /// The input filter stage of this layer.
    ImguiInputSystem,
    /// The host's input collection stage.
    InputSystem,
    /// The host's windowing stage.
    Window,
}

/// A request to the host scheduler: run `stage` only after every stage in
/// `dependencies` has run this tick.
pub struct StageRegistration {
    pub stage: StageName,
    pub dependencies: Vec<StageName>,
}

/// A request to the render graph: add the overlay draw pass at `order` on
/// `target`.
#[derive(Clone, Copy, PartialEq, Eq, Structural, Debug)]
pub struct PassRegistration {
    pub target: Target,
    pub order: RenderOrder,
}

/// The render plugin: immutable configuration chosen at construction — the GUI
/// feature-flag bitmask and the render target the overlay pass draws to.
pub struct RenderImgui {
    pub target: Target,
    pub config_flags: u32,
}

impl Default for RenderImgui {
    fn default() -> (r: RenderImgui)
        ensures
            r.target == Target::Main,
            r.config_flags == 0,
    {
        RenderImgui { target: Target::Main, config_flags: 0 }
    }
}

impl RenderImgui {
    pub fn with_imgui_config(self, config_flags: u32) -> (r: RenderImgui)
        ensures
            r.config_flags == config_flags,
            r.target == self.target,
    {
        RenderImgui { config_flags, ..self }
    }

    /// Select the render target on which the UI should be rendered.
    pub fn with_target(self, target: Target) -> (r: RenderImgui)
        ensures
            r.target == target,
            r.config_flags == self.config_flags,
    {
        RenderImgui { target, ..self }
    }

    /// Builds the input filter stage against the two event streams and asks
    /// the scheduler to run it only after input collection and windowing have
    /// run this tick.
    pub fn on_build(
        &self,
        context: imgui::Context,
        input_events: &mut shrev::EventChannel<InputEvent>,
        winit_events: &mut shrev::EventChannel<WindowEvent>,
    ) -> (r: (ImguiState, ImguiInputSystem, StageRegistration))
        ensures
            input_channel_log(*final(input_events)) == input_channel_log(*old(input_events)),
            input_channel_tag(*final(input_events)) == input_channel_tag(*old(input_events)),
            window_channel_log(*final(winit_events)) == window_channel_log(*old(winit_events)),
            window_channel_tag(*final(winit_events)) == window_channel_tag(*old(winit_events)),
            r.1.wf(*final(input_events), *final(winit_events)),
            input_reader_pos(r.1.input_reader) == input_channel_log(*final(input_events)).len(),
            window_reader_pos(r.1.winit_reader) == window_channel_log(*final(winit_events)).len(),
            config_flags_of(r.0.context) == config_flags_of(context)
                | valid_config_bits(self.config_flags),
            mouse_captured(r.0.context) == mouse_captured(context),
            keyboard_captured(r.0.context) == keyboard_captured(context),
            r.2.stage == StageName::ImguiInputSystem,
            r.2.dependencies@ == seq![StageName::InputSystem, StageName::Window],
    {
        let desc = ImguiInputSystemDesc::new(self.config_flags);
        let (state, system) = desc.build(context, input_events, winit_events);
        let mut dependencies: Vec<StageName> = Vec::new();
        dependencies.push(StageName::InputSystem);
        dependencies.push(StageName::Window);
        proof {
            assert(dependencies@ =~= seq![StageName::InputSystem, StageName::Window]);
        }
        let registration = StageRegistration { stage: StageName::ImguiInputSystem, dependencies };
        (state, system, registration)
    }

    /// Plans the overlay draw pass: always the fixed late "overlay" slot, on
    /// the configured target.
    pub fn on_plan(&self) -> (r: PassRegistration)
        ensures
            r.target == self.target,
            r.order == RenderOrder::Overlay,
    {
        PassRegistration { target: self.target, order: RenderOrder::Overlay }
    }
}

} // verus!
