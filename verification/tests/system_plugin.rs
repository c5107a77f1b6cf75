use imgui_overlay::channel::{
    new_filtered_channel, new_input_channel, new_window_channel, read_filtered_events,
    register_filtered_reader, write_input_event, write_window_event,
};
use imgui_overlay::context::config_flags;
use imgui_overlay::events::{FilteredInputEvent, InputEvent, WindowEvent};
use imgui_overlay::plugin::{PassRegistration, RenderImgui, RenderOrder, StageName, Target};
use imgui_overlay::system::ImguiInputSystemDesc;

#[test]
fn run_suppresses_pointer_events_while_gui_wants_the_mouse() {
    let mut context = imgui::Context::create();
    context.io_mut().want_capture_mouse = true;
    context.io_mut().want_capture_keyboard = false;

    let mut input_channel = new_input_channel();
    let mut window_channel = new_window_channel();
    let mut filtered_channel = new_filtered_channel();
    let mut observer = register_filtered_reader(&mut filtered_channel);

    let desc = ImguiInputSystemDesc::new(0);
    let (state, mut system) = desc.build(context, &mut input_channel, &mut window_channel);

    write_input_event(&mut input_channel, InputEvent::MouseMoved { delta_x: 2, delta_y: 2 });
    write_input_event(&mut input_channel, InputEvent::KeyPressed { key_code: 65 });
    write_input_event(&mut input_channel, InputEvent::MouseButtonPressed(0));
    write_window_event(&mut window_channel, WindowEvent { code: 1 });

    system.run(&state, &input_channel, &window_channel, &mut filtered_channel);

    let out = read_filtered_events(&filtered_channel, &mut observer);
    assert_eq!(out, vec![FilteredInputEvent(InputEvent::KeyPressed { key_code: 65 })]);
}

#[test]
fn run_never_replays_earlier_ticks() {
    let context = imgui::Context::create();

    let mut input_channel = new_input_channel();
    let mut window_channel = new_window_channel();
    let mut filtered_channel = new_filtered_channel();
    let mut observer = register_filtered_reader(&mut filtered_channel);

    // Written before the stage exists: never replayed.
    write_input_event(&mut input_channel, InputEvent::Other(99));

    let desc = ImguiInputSystemDesc::new(0);
    let (state, mut system) = desc.build(context, &mut input_channel, &mut window_channel);

    system.run(&state, &input_channel, &window_channel, &mut filtered_channel);
    assert!(read_filtered_events(&filtered_channel, &mut observer).is_empty());

    // Tick 1.
    write_input_event(&mut input_channel, InputEvent::Other(1));
    write_input_event(&mut input_channel, InputEvent::Other(2));
    system.run(&state, &input_channel, &window_channel, &mut filtered_channel);
    let tick1 = read_filtered_events(&filtered_channel, &mut observer);
    assert_eq!(
        tick1,
        vec![
            FilteredInputEvent(InputEvent::Other(1)),
            FilteredInputEvent(InputEvent::Other(2)),
        ]
    );

    // Tick 2: nothing from tick 1 comes out again.
    write_input_event(&mut input_channel, InputEvent::Other(3));
    system.run(&state, &input_channel, &window_channel, &mut filtered_channel);
    let tick2 = read_filtered_events(&filtered_channel, &mut observer);
    assert_eq!(tick2, vec![FilteredInputEvent(InputEvent::Other(3))]);
}

#[test]
fn build_applies_the_configured_gui_flags() {
    let context = imgui::Context::create();
    let nav_enable_keyboard: u32 = 1;
    assert_eq!(config_flags(&context) & nav_enable_keyboard, 0);

    let mut input_channel = new_input_channel();
    let mut window_channel = new_window_channel();
    let desc = ImguiInputSystemDesc::new(nav_enable_keyboard);
    let (state, _system) = desc.build(context, &mut input_channel, &mut window_channel);

    assert_eq!(config_flags(&state.context) & nav_enable_keyboard, nav_enable_keyboard);
}

#[test]
fn plugin_registers_after_input_and_window_stages() {
    let context = imgui::Context::create();
    let mut input_channel = new_input_channel();
    let mut window_channel = new_window_channel();

    let plugin = RenderImgui::default().with_imgui_config(0);
    let (_state, _system, registration) =
        plugin.on_build(context, &mut input_channel, &mut window_channel);

    assert_eq!(registration.stage, StageName::ImguiInputSystem);
    assert_eq!(
        registration.dependencies,
        vec![StageName::InputSystem, StageName::Window]
    );
}

#[test]
fn overlay_pass_is_planned_last_on_the_chosen_target() {
    let plugin = RenderImgui::default().with_target(Target::Custom(3));
    let pass = plugin.on_plan();
    assert_eq!(pass, PassRegistration { target: Target::Custom(3), order: RenderOrder::Overlay });
    assert_eq!(pass.order.rank(), 4);
    assert_eq!(RenderOrder::Opaque.rank(), 1);

    let default_plugin = RenderImgui::default();
    assert_eq!(default_plugin.target, Target::Main);
    assert_eq!(default_plugin.config_flags, 0);
    assert_eq!(default_plugin.on_plan().target, Target::Main);
}
