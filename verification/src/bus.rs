//! Topic-keyed publish/subscribe bus.
//!
//! Mailboxes are registered while the bus is being built. Once it is built,
//! publishing appends a copy of the event to every mailbox whose topic set
//! holds the event's topic, and draining a mailbox hands over what it has
//! received, oldest first. Mailboxes are unbounded: whoever subscribes is
//! expected to drain once per frame.

use crate::event::Event;
use crate::event::EventID;
use vstd::prelude::*;

verus! {

/// What a mailbox is to its users: the topics it listens to and the events
/// it has received and not yet handed over, oldest first.
pub struct MailboxView {
    pub topics: Set<EventID>,
    pub pending: Seq<Event>,
}

/// A mailbox as it is on registration: listening to `topics`, holding nothing.
pub open spec fn fresh_mailbox(topics: Set<EventID>) -> MailboxView {
    MailboxView { topics, pending: Seq::empty() }
}

/// The mailbox after one event arrived under `topic`.
pub open spec fn received(mailbox: MailboxView, topic: EventID, event: Event) -> MailboxView {
    if mailbox.topics.contains(topic) {
        MailboxView { topics: mailbox.topics, pending: mailbox.pending.push(event) }
    } else {
        mailbox
    }
}

/// The mailboxes after `event` was published under `topic`.
pub open spec fn delivered(boxes: Seq<MailboxView>, topic: EventID, event: Event) -> Seq<
    MailboxView,
> {
    Seq::new(boxes.len(), |i: int| received(boxes[i], topic, event))
}

/// The mailboxes after a batch was published, first entry first.
pub open spec fn delivered_all(boxes: Seq<MailboxView>, batch: Seq<(EventID, Event)>) -> Seq<
    MailboxView,
>
    decreases batch.len(),
{
    if batch.len() == 0 {
        boxes
    } else {
        delivered(delivered_all(boxes, batch.drop_last()), batch.last().0, batch.last().1)
    }
}

/// The events of `batch` published under one of `topics`, in publish order.
pub open spec fn addressed_to(topics: Set<EventID>, batch: Seq<(EventID, Event)>) -> Seq<Event>
    decreases batch.len(),
{
    if batch.len() == 0 {
        Seq::empty()
    } else if topics.contains(batch.last().0) {
        addressed_to(topics, batch.drop_last()).push(batch.last().1)
    } else {
        addressed_to(topics, batch.drop_last())
    }
}

/// The events of `batch`, without their topics.
pub open spec fn events_of(batch: Seq<(EventID, Event)>) -> Seq<Event> {
    Seq::new(batch.len(), |k: int| batch[k].1)
}

/// The mailboxes after mailbox `index` was drained; an unknown index drains nothing.
pub open spec fn drained(boxes: Seq<MailboxView>, index: int) -> Seq<MailboxView> {
    if 0 <= index < boxes.len() {
        boxes.update(index, fresh_mailbox(boxes[index].topics))
    } else {
        boxes
    }
}

/// What draining mailbox `index` hands over; nothing for an unknown index.
pub open spec fn drained_events(boxes: Seq<MailboxView>, index: int) -> Seq<Event> {
    if 0 <= index < boxes.len() {
        boxes[index].pending
    } else {
        Seq::empty()
    }
}

/// Publishing under a topic reaches every mailbox that listens to it, and
/// only those: a listening mailbox gains the event at its end, any other
/// mailbox stays as it was. No mailbox is added, removed or re-keyed.
pub proof fn lemma_publish_fans_out(
    boxes: Seq<MailboxView>,
    topic: EventID,
    event: Event,
    index: int,
)
    requires
        0 <= index < boxes.len(),
    ensures
        delivered(boxes, topic, event).len() == boxes.len(),
        delivered(boxes, topic, event)[index].topics == boxes[index].topics,
        boxes[index].topics.contains(topic) ==> delivered(boxes, topic, event)[index].pending
            == boxes[index].pending.push(event),
        !boxes[index].topics.contains(topic) ==> delivered(boxes, topic, event)[index]
            == boxes[index],
{
}

/// After a batch of publishes a mailbox holds what it held before, followed
/// by the events of the batch that were published under its topics, in
/// publish order.
pub proof fn lemma_publishes_accumulate(
    boxes: Seq<MailboxView>,
    batch: Seq<(EventID, Event)>,
    index: int,
)
    requires
        0 <= index < boxes.len(),
    ensures
        delivered_all(boxes, batch).len() == boxes.len(),
        delivered_all(boxes, batch)[index].topics == boxes[index].topics,
        delivered_all(boxes, batch)[index].pending == boxes[index].pending + addressed_to(
            boxes[index].topics,
            batch,
        ),
    decreases batch.len(),
{
    if batch.len() > 0 {
        lemma_publishes_accumulate(boxes, batch.drop_last(), index);
        let before = delivered_all(boxes, batch.drop_last());
        lemma_publish_fans_out(before, batch.last().0, batch.last().1, index);
        assert(delivered_all(boxes, batch)[index].pending =~= boxes[index].pending + addressed_to(
            boxes[index].topics,
            batch,
        ));
    } else {
        assert(boxes[index].pending + addressed_to(boxes[index].topics, batch)
            =~= boxes[index].pending);
    }
}

/// A batch published wholly under topics that a set holds is addressed to it
/// event for event.
pub proof fn lemma_addressed_to_listener(topics: Set<EventID>, batch: Seq<(EventID, Event)>)
    requires
        forall|k: int| 0 <= k < batch.len() ==> topics.contains(#[trigger] batch[k].0),
    ensures
        addressed_to(topics, batch) == events_of(batch),
    decreases batch.len(),
{
    if batch.len() > 0 {
        let front = batch.drop_last();
        assert forall|k: int| 0 <= k < front.len() implies topics.contains(
            #[trigger] front[k].0,
        ) by {
            assert(front[k] == batch[k]);
        }
        lemma_addressed_to_listener(topics, front);
        assert(topics.contains(batch[batch.len() - 1].0));
        assert(events_of(front).push(batch.last().1) =~= events_of(batch));
    } else {
        assert(events_of(batch) =~= Seq::<Event>::empty());
    }
}

/// A batch published under topics that a set holds none of leaves nothing
/// addressed to it.
pub proof fn lemma_addressed_to_stranger(topics: Set<EventID>, batch: Seq<(EventID, Event)>)
    requires
        forall|k: int| 0 <= k < batch.len() ==> !topics.contains(#[trigger] batch[k].0),
    ensures
        addressed_to(topics, batch) == Seq::<Event>::empty(),
    decreases batch.len(),
{
    if batch.len() > 0 {
        let front = batch.drop_last();
        assert forall|k: int| 0 <= k < front.len() implies !topics.contains(
            #[trigger] front[k].0,
        ) by {
            assert(front[k] == batch[k]);
        }
        lemma_addressed_to_stranger(topics, front);
        assert(!topics.contains(batch[batch.len() - 1].0));
    }
}

/// Draining a mailbox, publishing a batch under topics it listens to and
/// draining it again hands over exactly the batch's events in publish order.
pub proof fn lemma_drain_returns_publishes(
    boxes: Seq<MailboxView>,
    batch: Seq<(EventID, Event)>,
    index: int,
)
    requires
        0 <= index < boxes.len(),
        forall|k: int|
            0 <= k < batch.len() ==> boxes[index].topics.contains(#[trigger] batch[k].0),
    ensures
        drained_events(delivered_all(drained(boxes, index), batch), index) == events_of(batch),
{
    let emptied = drained(boxes, index);
    lemma_publishes_accumulate(emptied, batch, index);
    lemma_addressed_to_listener(boxes[index].topics, batch);
    assert(emptied[index].pending + events_of(batch) =~= events_of(batch));
}

/// A mailbox drained twice in a row hands over nothing the second time, and
/// the second drain changes nothing.
pub proof fn lemma_second_drain_is_empty(boxes: Seq<MailboxView>, index: int)
    ensures
        drained_events(drained(boxes, index), index) == Seq::<Event>::empty(),
        drained(drained(boxes, index), index) == drained(boxes, index),
{
    assert(drained(drained(boxes, index), index) =~= drained(boxes, index));
}

/// Draining one mailbox leaves every other mailbox as it was.
pub proof fn lemma_drain_is_private(boxes: Seq<MailboxView>, index: int, other: int)
    requires
        0 <= other < boxes.len(),
        other != index,
    ensures
        drained(boxes, index).len() == boxes.len(),
        drained(boxes, index)[other] == boxes[other],
{
}

/// A set of topics.
#[derive(Clone, Copy, Debug, PartialEq, Eq, Structural)]
pub struct TopicSet {
    render: bool,
    window: bool,
    entity: bool,
    ui: bool,
}

impl TopicSet {
    spec fn holds(self, topic: EventID) -> bool {
        match topic {
            EventID::RenderEvent => self.render,
            EventID::WindowEvent => self.window,
            EventID::EntityEvent => self.entity,
            EventID::UIEvent => self.ui,
        }
    }

    /// The set of no topics.
    pub fn empty() -> (set: TopicSet)
        ensures
            set@ == Set::<EventID>::empty(),
    {
        let set = TopicSet { render: false, window: false, entity: false, ui: false };
        assert(set@ =~= Set::<EventID>::empty());
        set
    }

    /// The set with `topic` added.
    pub fn insert(self, topic: EventID) -> (set: TopicSet)
        ensures
            set@ == self@.insert(topic),
    {
        let set = match topic {
            EventID::RenderEvent => TopicSet { render: true, ..self },
            EventID::WindowEvent => TopicSet { window: true, ..self },
            EventID::EntityEvent => TopicSet { entity: true, ..self },
            EventID::UIEvent => TopicSet { ui: true, ..self },
        };
        assert(set@ =~= self@.insert(topic));
        set
    }

    /// Whether `topic` is in the set.
    pub fn contains(self, topic: EventID) -> (found: bool)
        ensures
            found == self@.contains(topic),
    {
        match topic {
            EventID::RenderEvent => self.render,
            EventID::WindowEvent => self.window,
            EventID::EntityEvent => self.entity,
            EventID::UIEvent => self.ui,
        }
    }

    /// The set of the topics listed in `topics`; repetitions do not matter.
    pub fn from_slice(topics: &[EventID]) -> (set: TopicSet)
        ensures
            set@ == topics@.to_set(),
    {
        let mut set = TopicSet::empty();
        let mut i: usize = 0;
        while i < topics.len()
            invariant
                i <= topics.len(),
                set@ == topics@.subrange(0, i as int).to_set(),
            decreases topics.len() - i,
        {
            proof {
                let before = topics@.subrange(0, i as int);
                let after = topics@.subrange(0, i + 1);
                assert(after =~= before.push(topics@[i as int]));
                assert(after.to_set() =~= before.to_set().insert(topics@[i as int])) by {
                    assert forall|t: EventID| #[trigger]
                        after.to_set().contains(t) == before.to_set().insert(
                            topics@[i as int],
                        ).contains(t) by {
                        if before.contains(t) {
                            let k = choose|k: int| 0 <= k < before.len() && before[k] == t;
                            assert(after[k] == t);
                        }
                        if t == topics@[i as int] {
                            assert(after[i as int] == t);
                        }
                    }
                }
            }
            set = set.insert(topics[i]);
            i += 1;
        }
        assert(topics@.subrange(0, i as int) =~= topics@);
        set
    }
}

impl View for TopicSet {
    type V = Set<EventID>;

    closed spec fn view(&self) -> Set<EventID> {
        Set::new(|topic: EventID| self.holds(topic))
    }
}

/// One subscriber's private queue.
struct Mailbox {
    topics: TopicSet,
    queue: Vec<Event>,
}

impl View for Mailbox {
    type V = MailboxView;

    closed spec fn view(&self) -> MailboxView {
        MailboxView { topics: self.topics@, pending: self.queue@ }
    }
}

/// Names one mailbox of the bus it was issued by.
#[derive(Clone, Copy, Debug, PartialEq, Eq, Structural)]
pub struct Subscription {
    index: usize,
}

impl Subscription {
    /// Position of the mailbox among those of its bus, in order of registration.
    pub closed spec fn index(self) -> int {
        self.index as int
    }
}

/// A bus under construction: mailboxes can be registered, nothing can be published.
pub struct BusBuilder {
    mailboxes: Vec<Mailbox>,
}

impl View for BusBuilder {
    type V = Seq<MailboxView>;

    closed spec fn view(&self) -> Seq<MailboxView> {
        Seq::new(self.mailboxes@.len(), |i: int| self.mailboxes@[i]@)
    }
}

impl BusBuilder {
    /// A bus without mailboxes.
    pub fn new() -> (builder: BusBuilder)
        ensures
            builder@ == Seq::<MailboxView>::empty(),
    {
        let builder = BusBuilder { mailboxes: Vec::new() };
        assert(builder@ =~= Seq::<MailboxView>::empty());
        builder
    }

    /// Registers an empty mailbox that listens to the listed topics.
    pub fn subscribe(&mut self, topics: &[EventID]) -> (subscription: Subscription)
        ensures
            final(self)@ == old(self)@.push(fresh_mailbox(topics@.to_set())),
            subscription.index() == old(self)@.len(),
    {
        let index = self.mailboxes.len();
        let mailbox = Mailbox { topics: TopicSet::from_slice(topics), queue: Vec::new() };
        self.mailboxes.push(mailbox);
        assert(self@ =~= old(self)@.push(fresh_mailbox(topics@.to_set())));
        Subscription { index }
    }

    /// Closes registration and opens the bus for publishing.
    pub fn build(self) -> (bus: EventBus)
        ensures
            bus@ == self@,
    {
        let bus = EventBus { mailboxes: self.mailboxes };
        assert(bus@ =~= self@);
        bus
    }
}

/// The bus in use: a fixed set of mailboxes.
pub struct EventBus {
    mailboxes: Vec<Mailbox>,
}

impl View for EventBus {
    type V = Seq<MailboxView>;

    closed spec fn view(&self) -> Seq<MailboxView> {
        Seq::new(self.mailboxes@.len(), |i: int| self.mailboxes@[i]@)
    }
}

impl EventBus {
    /// Appends a copy of `event` to every mailbox that listens to `topic`.
    pub fn publish(&mut self, topic: EventID, event: Event)
        ensures
            final(self)@ == delivered(old(self)@, topic, event),
    {
        let count = self.mailboxes.len();
        let mut i: usize = 0;
        while i < count
            invariant
                i <= count,
                self.mailboxes@.len() == count,
                old(self).mailboxes@.len() == count,
                forall|k: int| 0 <= k < i ==> #[trigger] self.mailboxes@[k]@ == received(
                    old(self).mailboxes@[k]@,
                    topic,
                    event,
                ),
                forall|k: int| i <= k < count ==> #[trigger] self.mailboxes@[k] == old(
                    self,
                ).mailboxes@[k],
            decreases count - i,
        {
            if self.mailboxes[i].topics.contains(topic) {
                let copy = event.duplicate();
                self.mailboxes[i].queue.push(copy);
            }
            i += 1;
        }
        assert(self@ =~= delivered(old(self)@, topic, event));
    }

    /// Removes and returns everything the mailbox has received since it was
    /// last drained, in publish order. A subscription that this bus did not
    /// issue names no mailbox here: nothing is returned and nothing changes.
    pub fn drain(&mut self, subscription: &Subscription) -> (events: Vec<Event>)
        ensures
            events@ == drained_events(old(self)@, subscription.index()),
            final(self)@ == drained(old(self)@, subscription.index()),
    {
        let index = subscription.index;
        if index < self.mailboxes.len() {
            let mut events: Vec<Event> = Vec::new();
            std::mem::swap(&mut events, &mut self.mailboxes[index].queue);
            assert(self@ =~= drained(old(self)@, subscription.index()));
            events
        } else {
            Vec::new()
        }
    }

    /// Number of mailboxes.
    pub fn subscribers(&self) -> (count: usize)
        ensures
            count == self@.len(),
    {
        self.mailboxes.len()
    }

    /// Number of events waiting in the mailbox; zero for an unknown subscription.
    pub fn pending(&self, subscription: &Subscription) -> (count: usize)
        ensures
            count == drained_events(self@, subscription.index()).len(),
    {
        if subscription.index < self.mailboxes.len() {
            self.mailboxes[subscription.index].queue.len()
        } else {
            0
        }
    }
}

} // verus!
