use deferred_demo::bus::BusBuilder;
use deferred_demo::bus::EventBus;
use deferred_demo::colors::brown;
use deferred_demo::colors::light_green;
use deferred_demo::deferred::calculate_color;
use deferred_demo::deferred::cube_indices;
use deferred_demo::deferred::cube_vertices;
use deferred_demo::deferred::fullscreen_triangle;
use deferred_demo::deferred::plan_passes;
use deferred_demo::deferred::DeferredLightSystem;
use deferred_demo::deferred::Pass;
use deferred_demo::deferred::NUMBER_OF_LIGHTS;
use deferred_demo::deferred::TERRAIN_RESOLUTION;
use deferred_demo::event::Event;
use deferred_demo::event::EventID;
use deferred_demo::scalar::Scalar;

fn renderer_on_bus() -> (DeferredLightSystem, EventBus) {
    let mut builder = BusBuilder::new();
    let mailbox = builder.subscribe(&[EventID::RenderEvent]);
    (DeferredLightSystem::new(mailbox, 1200, 1000), builder.build())
}

fn passes_ending_in(last: Pass) -> Vec<Pass> {
    vec![
        Pass::UpdateTerrainLocals,
        Pass::UpdateLightLocals,
        Pass::UpdateLightVolumeLocals,
        Pass::UpdateEmitterLocals,
        Pass::UpdateLightPositions,
        Pass::ClearDepth,
        Pass::ClearPosition,
        Pass::ClearNormal,
        Pass::ClearDiffuse,
        Pass::DrawTerrain,
        Pass::ClearIntermediate,
        Pass::DrawLights,
        Pass::DrawEmitters,
        last,
    ]
}

#[test]
fn antialiasing_is_on_at_first() {
    let (mut system, mut bus) = renderer_on_bus();
    assert!(system.is_fxaa_enabled());
    let plan = system.render(&mut bus);
    assert_eq!(plan.fxaa_changes, vec![]);
    assert_eq!(plan.passes, passes_ending_in(Pass::DrawFXAA));
}

#[test]
fn toggle_command_switches_to_the_plain_copy() {
    let mut builder = BusBuilder::new();
    let mailbox = builder.subscribe(&[EventID::RenderEvent]);
    let mut bus = builder.build();
    let mut system = DeferredLightSystem::new(mailbox, 1200, 1000);

    bus.publish(EventID::RenderEvent, Event::ToggleFXAA);
    let plan = system.render(&mut bus);

    assert!(!system.is_fxaa_enabled());
    assert_eq!(plan.fxaa_changes, vec![false]);
    assert_eq!(plan.passes.last(), Some(&Pass::DrawBlit));
    assert!(!plan.passes.contains(&Pass::DrawFXAA));

    let next = system.render(&mut bus);
    assert!(!system.is_fxaa_enabled());
    assert_eq!(next.fxaa_changes, vec![]);
    assert_eq!(next.passes, passes_ending_in(Pass::DrawBlit));
}

#[test]
fn two_toggles_in_one_frame_cancel() {
    let (mut system, mut bus) = renderer_on_bus();
    bus.publish(EventID::RenderEvent, Event::ToggleFXAA);
    bus.publish(EventID::RenderEvent, Event::ReloadShaders);
    bus.publish(EventID::RenderEvent, Event::ToggleFXAA);
    let plan = system.render(&mut bus);
    assert!(system.is_fxaa_enabled());
    assert_eq!(plan.fxaa_changes, vec![false, true]);
    assert_eq!(plan.passes.last(), Some(&Pass::DrawFXAA));
}

#[test]
fn other_commands_leave_the_mode() {
    let (mut system, mut bus) = renderer_on_bus();
    bus.publish(EventID::RenderEvent, Event::ReloadShaders);
    bus.publish(EventID::RenderEvent, Event::ToggleWireframe);
    bus.publish(EventID::UIEvent, Event::ToggleConsole);
    let plan = system.render(&mut bus);
    assert!(system.is_fxaa_enabled());
    assert_eq!(plan.fxaa_changes, vec![]);
    assert_eq!(plan.passes, passes_ending_in(Pass::DrawFXAA));
}

#[test]
fn toggle_on_another_topic_is_not_seen() {
    let (mut system, mut bus) = renderer_on_bus();
    bus.publish(EventID::UIEvent, Event::ToggleFXAA);
    system.render(&mut bus);
    assert!(system.is_fxaa_enabled());
}

#[test]
fn render_drains_the_mailbox_once() {
    let mut builder = BusBuilder::new();
    let mailbox = builder.subscribe(&[EventID::RenderEvent]);
    let mut bus = builder.build();
    let mut system = DeferredLightSystem::new(mailbox, 1200, 1000);
    bus.publish(EventID::RenderEvent, Event::ToggleFXAA);
    assert_eq!(bus.pending(&mailbox), 1);
    system.render(&mut bus);
    assert_eq!(bus.pending(&mailbox), 0);
}

#[test]
fn passes_differ_only_in_the_composite() {
    assert_eq!(plan_passes(true), passes_ending_in(Pass::DrawFXAA));
    assert_eq!(plan_passes(false), passes_ending_in(Pass::DrawBlit));
}

#[test]
fn system_draws_the_fixed_terrain() {
    let (system, _) = renderer_on_bus();
    assert_eq!(TERRAIN_RESOLUTION, 256);
    assert_eq!(NUMBER_OF_LIGHTS, 250);
    assert_eq!(system.get_terrain().get_resolution(), 256);
    assert_eq!(system.get_terrain().get_vertex_count(), 257 * 257);
    assert_eq!(system.get_terrain().get_indices().len(), 256 * 256 * 6);
}

#[test]
fn targets_keep_their_size() {
    let mut builder = BusBuilder::new();
    let mailbox = builder.subscribe(&[EventID::RenderEvent]);
    let mut bus = builder.build();
    let mut system = DeferredLightSystem::new(mailbox, 640, 480);
    assert_eq!(system.get_target_size(), (640, 480));
    bus.publish(EventID::RenderEvent, Event::ToggleFXAA);
    system.render(&mut bus);
    assert_eq!(system.get_target_size(), (640, 480));
}

#[test]
fn fullscreen_triangle_covers_the_screen() {
    assert_eq!(
        fullscreen_triangle(),
        [[-3, -1, -1, 0], [1, -1, 1, 0], [1, 3, 1, 2]]
    );
}

#[test]
fn cube_has_six_faces_of_four_corners() {
    let vertices = cube_vertices();
    assert_eq!(vertices.len(), 24);
    assert_eq!(vertices[0], [-1, -1, 1, 1]);
    assert_eq!(vertices[3], [-1, 1, 1, 1]);
    assert_eq!(vertices[4], [-1, 1, -1, 1]);
    assert_eq!(vertices[8], [1, -1, -1, 1]);
    assert_eq!(vertices[12], [-1, -1, 1, 1]);
    assert_eq!(vertices[16], [1, 1, -1, 1]);
    assert_eq!(vertices[20], [1, -1, 1, 1]);
    assert_eq!(vertices[23], [1, -1, -1, 1]);
    let fixed = [(2usize, 1i8), (2, -1), (0, 1), (0, -1), (1, 1), (1, -1)];
    for (face, (axis, value)) in fixed.iter().enumerate() {
        for corner in 0..4 {
            let vertex = vertices[4 * face + corner];
            assert_eq!(vertex[*axis], *value);
            assert_eq!(vertex[3], 1);
            assert!(vertex[..3].iter().all(|c| *c == 1 || *c == -1));
        }
    }
}

#[test]
fn cube_indices_cut_each_face_in_two() {
    assert_eq!(
        cube_indices(),
        vec![
            0, 1, 2, 2, 3, 0, 4, 5, 6, 6, 7, 4, 8, 9, 10, 10, 11, 8, 12, 13, 14, 14, 15, 12, 16,
            17, 18, 18, 19, 16, 20, 21, 22, 22, 23, 20
        ]
    );
}

#[test]
fn calculate_color_bands_heights() {
    let rock = Scalar::from_bits(75.0f32.to_bits());
    let grass = Scalar::from_bits(12.0f32.to_bits());
    assert_eq!(calculate_color(rock), brown().into());
    assert_eq!(calculate_color(grass), light_green().into());
}
