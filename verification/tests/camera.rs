use deferred_demo::bus::BusBuilder;
use deferred_demo::camera::Camera;
use deferred_demo::camera::Controls;
use deferred_demo::camera::ElementState;
use deferred_demo::camera::InputEvent;
use deferred_demo::camera::Key;
use deferred_demo::camera::MouseButton;
use deferred_demo::event::Event;
use deferred_demo::event::EventID;
use deferred_demo::scalar::Scalar;

fn idle() -> Controls {
    Controls {
        moving_up: false,
        moving_down: false,
        moving_forward: false,
        moving_backward: false,
        moving_left: false,
        moving_right: false,
        moving_rotating: false,
    }
}

fn press(key: Key) -> InputEvent {
    InputEvent::KeyboardInput(ElementState::Pressed, key)
}

fn release(key: Key) -> InputEvent {
    InputEvent::KeyboardInput(ElementState::Released, key)
}

fn camera_on_bus() -> (Camera, deferred_demo::bus::EventBus) {
    let mut builder = BusBuilder::new();
    let mailbox = builder.subscribe(&[EventID::EntityEvent]);
    (Camera::new(mailbox), builder.build())
}

#[test]
fn new_camera_is_at_rest() {
    let (camera, _) = camera_on_bus();
    assert_eq!(camera.get_controls(), idle());
    assert_eq!(camera.handle_input(), (0, 0, 0));
}

#[test]
fn each_key_sets_its_own_flag() {
    let cases = [
        (Key::Space, Controls { moving_up: true, ..idle() }),
        (Key::Down, Controls { moving_down: true, ..idle() }),
        (Key::A, Controls { moving_left: true, ..idle() }),
        (Key::D, Controls { moving_right: true, ..idle() }),
        (Key::W, Controls { moving_forward: true, ..idle() }),
        (Key::S, Controls { moving_backward: true, ..idle() }),
    ];
    for (key, expected) in cases.iter() {
        let (mut camera, _) = camera_on_bus();
        camera.process_input(&press(*key));
        assert_eq!(camera.get_controls(), *expected);
        camera.process_input(&press(*key));
        assert_eq!(camera.get_controls(), *expected);
        camera.process_input(&release(*key));
        assert_eq!(camera.get_controls(), idle());
    }
}

#[test]
fn left_mouse_button_rotates() {
    let (mut camera, _) = camera_on_bus();
    camera.process_input(&InputEvent::MouseInput(
        ElementState::Pressed,
        MouseButton::Left,
    ));
    assert_eq!(
        camera.get_controls(),
        Controls { moving_rotating: true, ..idle() }
    );
    camera.process_input(&InputEvent::MouseInput(
        ElementState::Released,
        MouseButton::Left,
    ));
    assert_eq!(camera.get_controls(), idle());
}

#[test]
fn other_events_leave_the_flags() {
    let (mut camera, _) = camera_on_bus();
    camera.process_input(&press(Key::W));
    let before = camera.get_controls();
    for event in [
        press(Key::Escape),
        release(Key::Other),
        InputEvent::MouseInput(ElementState::Pressed, MouseButton::Right),
        InputEvent::MouseInput(ElementState::Released, MouseButton::Middle),
        InputEvent::MouseMoved(3, 4),
        InputEvent::Resized(800, 600),
        InputEvent::Closed,
        InputEvent::Other,
    ] {
        camera.process_input(&event);
        assert_eq!(camera.get_controls(), before);
    }
}

#[test]
fn forward_alone_moves_one_step_forward() {
    let (mut camera, mut bus) = camera_on_bus();
    camera.process_input(&press(Key::W));
    let step = camera.update(&mut bus, &InputEvent::Other);
    assert_eq!((step.right, step.up, step.forward), (0, 0, 1));
    assert_eq!(step.turn, None);
}

#[test]
fn opposing_keys_cancel() {
    let (mut camera, mut bus) = camera_on_bus();
    camera.process_input(&press(Key::W));
    camera.process_input(&press(Key::S));
    camera.process_input(&press(Key::A));
    camera.process_input(&press(Key::D));
    camera.process_input(&press(Key::Space));
    camera.process_input(&press(Key::Down));
    let step = camera.update(&mut bus, &InputEvent::Other);
    assert_eq!((step.right, step.up, step.forward), (0, 0, 0));
}

#[test]
fn axes_take_the_sign_of_the_held_key() {
    let (mut camera, _) = camera_on_bus();
    camera.process_input(&press(Key::S));
    camera.process_input(&press(Key::A));
    camera.process_input(&press(Key::Down));
    assert_eq!(camera.handle_input(), (-1, -1, -1));
    camera.process_input(&release(Key::S));
    camera.process_input(&release(Key::A));
    camera.process_input(&release(Key::Down));
    camera.process_input(&press(Key::D));
    camera.process_input(&press(Key::Space));
    camera.process_input(&press(Key::W));
    assert_eq!(camera.handle_input(), (1, 1, 1));
}

#[test]
fn rotation_hands_out_pointer_movement() {
    let (mut camera, mut bus) = camera_on_bus();
    camera.process_input(&InputEvent::MouseInput(
        ElementState::Pressed,
        MouseButton::Left,
    ));
    let first = camera.update(&mut bus, &InputEvent::MouseMoved(10, -4));
    assert_eq!(first.turn, Some((10, -4)));
    let second = camera.update(&mut bus, &InputEvent::MouseMoved(7, 6));
    assert_eq!(second.turn, Some((-3, 10)));
    let third = camera.update(&mut bus, &InputEvent::Other);
    assert_eq!(third.turn, Some((0, 0)));
}

#[test]
fn pointer_is_not_tracked_while_not_rotating() {
    let (mut camera, mut bus) = camera_on_bus();
    let step = camera.update(&mut bus, &InputEvent::MouseMoved(100, 100));
    assert_eq!(step.turn, None);
    camera.process_input(&InputEvent::MouseInput(
        ElementState::Pressed,
        MouseButton::Left,
    ));
    let step = camera.update(&mut bus, &InputEvent::MouseMoved(101, 98));
    assert_eq!(step.turn, Some((101, 98)));
}

#[test]
fn pointer_movement_does_not_overflow() {
    let (mut camera, mut bus) = camera_on_bus();
    camera.process_input(&InputEvent::MouseInput(
        ElementState::Pressed,
        MouseButton::Left,
    ));
    camera.update(&mut bus, &InputEvent::MouseMoved(i32::MIN, i32::MAX));
    let step = camera.update(&mut bus, &InputEvent::MouseMoved(i32::MAX, i32::MIN));
    assert_eq!(
        step.turn,
        Some((
            i32::MAX as i64 - i32::MIN as i64,
            i32::MIN as i64 - i32::MAX as i64
        ))
    );
}

#[test]
fn update_drains_the_camera_mailbox() {
    let (mut camera, mut bus) = camera_on_bus();
    let x = Scalar::from_bits(1.5f32.to_bits());
    let y = Scalar::from_bits(2.5f32.to_bits());
    bus.publish(EventID::EntityEvent, Event::MoveCamera(true, false, false, false));
    bus.publish(EventID::EntityEvent, Event::SetCameraPos(x, y));
    bus.publish(EventID::RenderEvent, Event::ToggleFXAA);
    bus.publish(EventID::EntityEvent, Event::SetCameraPos(y, x));
    let step = camera.update(&mut bus, &InputEvent::Other);
    assert_eq!(step.position_commands, vec![(x, y), (y, x)]);
    let again = camera.update(&mut bus, &InputEvent::Other);
    assert_eq!(again.position_commands, vec![]);
}

#[test]
fn update_leaves_the_flags() {
    let (mut camera, mut bus) = camera_on_bus();
    camera.process_input(&press(Key::D));
    let before = camera.get_controls();
    let step = camera.update(&mut bus, &InputEvent::MouseMoved(5, 5));
    assert_eq!(camera.get_controls(), before);
    assert_eq!((step.right, step.up, step.forward), (1, 0, 0));
}
