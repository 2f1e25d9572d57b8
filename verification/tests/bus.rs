use deferred_demo::bus::BusBuilder;
use deferred_demo::bus::TopicSet;
use deferred_demo::event::ConsoleLogLevel;
use deferred_demo::event::Event;
use deferred_demo::event::EventID;
use deferred_demo::scalar::Scalar;

#[test]
fn publish_reaches_every_listener_of_the_topic() {
    let mut builder = BusBuilder::new();
    let first = builder.subscribe(&[EventID::RenderEvent]);
    let second = builder.subscribe(&[EventID::UIEvent, EventID::RenderEvent]);
    let stranger = builder.subscribe(&[EventID::EntityEvent, EventID::WindowEvent]);
    let mut bus = builder.build();
    assert_eq!(bus.subscribers(), 3);

    bus.publish(EventID::RenderEvent, Event::ToggleFXAA);

    assert_eq!(bus.pending(&first), 1);
    assert_eq!(bus.pending(&second), 1);
    assert_eq!(bus.pending(&stranger), 0);
    assert_eq!(bus.drain(&first), vec![Event::ToggleFXAA]);
    assert_eq!(bus.drain(&second), vec![Event::ToggleFXAA]);
    assert_eq!(bus.drain(&stranger), vec![]);
}

#[test]
fn drain_returns_publishes_in_order() {
    let mut builder = BusBuilder::new();
    let mailbox = builder.subscribe(&[EventID::RenderEvent, EventID::UIEvent]);
    let mut bus = builder.build();
    let batch = vec![
        (EventID::RenderEvent, Event::ReloadShaders),
        (EventID::UIEvent, Event::ToggleConsole),
        (
            EventID::RenderEvent,
            Event::SetClearColor(
                Scalar::from_bits(1),
                Scalar::from_bits(2),
                Scalar::from_bits(3),
            ),
        ),
        (
            EventID::UIEvent,
            Event::ConsoleMessage("hello".to_string(), ConsoleLogLevel::WARNING),
        ),
        (EventID::RenderEvent, Event::ReloadShaders),
    ];
    for (topic, event) in batch.iter() {
        bus.publish(*topic, event.clone());
    }
    let expected: Vec<Event> = batch.iter().map(|(_, event)| event.clone()).collect();
    assert_eq!(bus.drain(&mailbox), expected);
}

#[test]
fn second_drain_is_empty() {
    let mut builder = BusBuilder::new();
    let mailbox = builder.subscribe(&[EventID::WindowEvent]);
    let mut bus = builder.build();
    bus.publish(EventID::WindowEvent, Event::ToggleFullscreen);
    bus.publish(EventID::WindowEvent, Event::ToggleVSync);
    assert_eq!(bus.drain(&mailbox).len(), 2);
    assert_eq!(bus.drain(&mailbox), vec![]);
    assert_eq!(bus.pending(&mailbox), 0);
}

#[test]
fn drain_returns_only_what_came_since_the_last_drain() {
    let mut builder = BusBuilder::new();
    let mailbox = builder.subscribe(&[EventID::EntityEvent]);
    let mut bus = builder.build();
    bus.publish(
        EventID::EntityEvent,
        Event::MoveCamera(true, false, false, false),
    );
    assert_eq!(
        bus.drain(&mailbox),
        vec![Event::MoveCamera(true, false, false, false)]
    );
    bus.publish(
        EventID::EntityEvent,
        Event::MoveCamera(false, true, false, false),
    );
    assert_eq!(
        bus.drain(&mailbox),
        vec![Event::MoveCamera(false, true, false, false)]
    );
}

#[test]
fn draining_one_mailbox_leaves_the_others() {
    let mut builder = BusBuilder::new();
    let a = builder.subscribe(&[EventID::UIEvent]);
    let b = builder.subscribe(&[EventID::UIEvent]);
    let mut bus = builder.build();
    bus.publish(EventID::UIEvent, Event::ToggleConsole);
    assert_eq!(bus.drain(&a), vec![Event::ToggleConsole]);
    assert_eq!(bus.pending(&b), 1);
    assert_eq!(bus.drain(&b), vec![Event::ToggleConsole]);
}

#[test]
fn events_on_other_topics_are_filtered_out() {
    let mut builder = BusBuilder::new();
    let mailbox = builder.subscribe(&[EventID::RenderEvent]);
    let mut bus = builder.build();
    bus.publish(EventID::UIEvent, Event::ToggleConsole);
    bus.publish(EventID::RenderEvent, Event::ToggleWireframe);
    bus.publish(EventID::WindowEvent, Event::ToggleVSync);
    bus.publish(EventID::RenderEvent, Event::ToggleFXAA);
    assert_eq!(
        bus.drain(&mailbox),
        vec![Event::ToggleWireframe, Event::ToggleFXAA]
    );
}

#[test]
fn publish_without_subscribers_is_harmless() {
    let mut bus = BusBuilder::new().build();
    bus.publish(EventID::RenderEvent, Event::ReloadShaders);
    assert_eq!(bus.subscribers(), 0);
}

#[test]
fn mailbox_without_topics_receives_nothing() {
    let mut builder = BusBuilder::new();
    let mailbox = builder.subscribe(&[]);
    let mut bus = builder.build();
    bus.publish(EventID::RenderEvent, Event::ReloadShaders);
    bus.publish(EventID::UIEvent, Event::ToggleConsole);
    assert_eq!(bus.drain(&mailbox), vec![]);
}

#[test]
fn subscription_of_another_bus_drains_nothing() {
    let mut big = BusBuilder::new();
    big.subscribe(&[EventID::UIEvent]);
    let foreign = big.subscribe(&[EventID::UIEvent]);
    let mut small = BusBuilder::new();
    let own = small.subscribe(&[EventID::UIEvent]);
    let mut bus = small.build();
    bus.publish(EventID::UIEvent, Event::ToggleConsole);
    assert_eq!(bus.drain(&foreign), vec![]);
    assert_eq!(bus.pending(&foreign), 0);
    assert_eq!(bus.drain(&own), vec![Event::ToggleConsole]);
}

#[test]
fn topic_set_ignores_repetitions() {
    let set = TopicSet::from_slice(&[
        EventID::UIEvent,
        EventID::UIEvent,
        EventID::EntityEvent,
    ]);
    assert!(set.contains(EventID::UIEvent));
    assert!(set.contains(EventID::EntityEvent));
    assert!(!set.contains(EventID::RenderEvent));
    assert!(!set.contains(EventID::WindowEvent));
    assert_eq!(
        set,
        TopicSet::empty()
            .insert(EventID::EntityEvent)
            .insert(EventID::UIEvent)
    );
}

#[test]
fn duplicate_equals_the_event() {
    let events = vec![
        Event::ReloadShaders,
        Event::ToggleWireframe,
        Event::SetClearColor(
            Scalar::from_bits(7),
            Scalar::from_bits(8),
            Scalar::from_bits(9),
        ),
        Event::ToggleFXAA,
        Event::SetWindowSize(Scalar::from_bits(10), Scalar::from_bits(11)),
        Event::ToggleFullscreen,
        Event::ToggleVSync,
        Event::SetCameraPos(Scalar::from_bits(12), Scalar::from_bits(13)),
        Event::MoveCamera(true, false, true, false),
        Event::ConsoleMessage("text".to_string(), ConsoleLogLevel::ERROR),
        Event::ToggleConsole,
    ];
    for event in events.iter() {
        assert_eq!(&event.duplicate(), event);
    }
}

#[test]
fn figures_lists_the_numbers_of_an_event() {
    let one = Scalar::from_bits(1.0f32.to_bits());
    let two = Scalar::from_bits(2.0f32.to_bits());
    let three = Scalar::from_bits(3.0f32.to_bits());
    assert_eq!(
        Event::SetClearColor(one, two, three).figures(),
        vec![one, two, three]
    );
    assert_eq!(Event::SetWindowSize(two, one).figures(), vec![two, one]);
    assert_eq!(Event::SetCameraPos(three, one).figures(), vec![three, one]);
    assert_eq!(Event::ToggleFXAA.figures(), vec![]);
    assert_eq!(
        Event::MoveCamera(true, true, true, true).figures(),
        vec![]
    );
}
