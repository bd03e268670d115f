//! The bridge: the registries of handlers, and the three ways in which
//! work reaches the devices: a frame from a port, a message from the
//! broker, and the periodic tick.

use vstd::prelude::*;

use crate::serial::packet::hyundai::{HyundaiPacket, HyundaiPacketHandler, HyundaiPacketView};
use crate::things::ventilator::Ventilator;
use crate::things::{view_of, Channels, ChannelsView, Feature, Publish, PublishView};

verus! {

/// What the walk of a frame through a registry leads to.
pub struct Dispatched {
    /// The messages published, in the order of the handlers.
    pub published: Seq<PublishView>,
    /// What is remembered of the ventilator afterwards.
    pub ventilator: Ventilator,
}

/// The devices that are registered: those chosen, or all if none is chosen.
pub open spec fn chosen(features: Seq<Feature>) -> Seq<Feature> {
    if features.len() == 0 {
        Feature::all()
    } else {
        features
    }
}

/// The handlers of `features` that are attached to the primary port
/// (`primary`) or to the secondary one, in the order of the features.
pub open spec fn handlers_for(features: Seq<Feature>, primary: bool) -> Seq<HyundaiPacketHandler>
    decreases features.len(),
{
    if features.len() == 0 {
        Seq::empty()
    } else {
        let before = handlers_for(features.drop_last(), primary);
        if features.last().handler_of().is_primary == primary {
            before.push(features.last().handler_of())
        } else {
            before
        }
    }
}

/// Those of `features` that have a periodic task, in their order.
pub open spec fn tasks_for(features: Seq<Feature>) -> Seq<Feature>
    decreases features.len(),
{
    if features.len() == 0 {
        Seq::empty()
    } else {
        let before = tasks_for(features.drop_last());
        if features.last().polls() {
            before.push(features.last())
        } else {
            before
        }
    }
}

/// The walk of a frame through the handlers from index `from` on.
///
/// Each handler that is for the frame runs its device on it. After a
/// handler that took the frame and does not chain, the walk ends.
pub open spec fn dispatched(
    handlers: Seq<HyundaiPacketHandler>,
    from: int,
    packet: HyundaiPacketView,
    ventilator: Ventilator,
) -> Dispatched
    decreases handlers.len() - from,
{
    if from < 0 || from >= handlers.len() {
        Dispatched { published: Seq::empty(), ventilator }
    } else {
        let handler = handlers[from];
        if handler.accepts(packet) {
            let published = handler.callback.published(packet);
            let remembered = handler.callback.remembered(packet, ventilator);
            if handler.chaining {
                let rest = dispatched(handlers, from + 1, packet, remembered);
                Dispatched { published: published + rest.published, ventilator: rest.ventilator }
            } else {
                Dispatched { published, ventilator: remembered }
            }
        } else {
            dispatched(handlers, from + 1, packet, ventilator)
        }
    }
}

/// The packets that a message from the broker makes the first `count`
/// devices of `features` send, in the order of the devices.
pub open spec fn topic_commands(
    features: Seq<Feature>,
    count: int,
    ventilator: Ventilator,
    topic: Seq<u8>,
    payload: Seq<u8>,
) -> Seq<HyundaiPacketView>
    decreases count,
{
    if count <= 0 || count > features.len() {
        Seq::empty()
    } else {
        topic_commands(features, count - 1, ventilator, topic, payload) + features[count
            - 1].commands(ventilator, topic, payload)
    }
}

/// The channels of the secondary port after the tasks of the first `count`
/// devices of `tasks` have run.
pub open spec fn ticked(
    tasks: Seq<Feature>,
    count: int,
    secondary: Option<ChannelsView<HyundaiPacketView>>,
) -> Option<ChannelsView<HyundaiPacketView>>
    decreases count,
{
    if count <= 0 || count > tasks.len() {
        secondary
    } else {
        let before = ticked(tasks, count - 1, secondary);
        tasks[count - 1].asked(before)
    }
}

/// The registries of the bridge and what it remembers of the devices.
pub struct Bridge {
    /// The handlers of the primary port, in the order of registration.
    pub primary_handlers: Vec<HyundaiPacketHandler>,
    /// The handlers of the secondary port, in the order of registration.
    pub secondary_handlers: Vec<HyundaiPacketHandler>,
    /// The devices that see the messages from the broker, in the order of
    /// registration.
    pub topic_handlers: Vec<Feature>,
    /// The devices whose task runs at each tick, in the order of
    /// registration.
    pub tasks: Vec<Feature>,
    /// What the ventilator last reported.
    pub ventilator: Ventilator,
}

impl Bridge {
    /// The bridge for the chosen devices, or for all devices if none is
    /// chosen.
    pub fn new(features: &Vec<Feature>) -> (bridge: Self)
        ensures
            bridge.primary_handlers@ == handlers_for(chosen(features@), true),
            bridge.secondary_handlers@ == handlers_for(chosen(features@), false),
            bridge.topic_handlers@ == chosen(features@),
            bridge.tasks@ == tasks_for(chosen(features@)),
            bridge.ventilator == Ventilator::initial(),
    {
        let defaults = Feature::defaults();
        let list: &Vec<Feature> = if features.len() == 0 {
            &defaults
        } else {
            features
        };
        let mut primary_handlers: Vec<HyundaiPacketHandler> = Vec::new();
        let mut secondary_handlers: Vec<HyundaiPacketHandler> = Vec::new();
        let mut topic_handlers: Vec<Feature> = Vec::new();
        let mut tasks: Vec<Feature> = Vec::new();
        let mut i: usize = 0;
        while i < list.len()
            invariant
                i <= list@.len(),
                list@ == chosen(features@),
                primary_handlers@ == handlers_for(list@.take(i as int), true),
                secondary_handlers@ == handlers_for(list@.take(i as int), false),
                topic_handlers@ == list@.take(i as int),
                tasks@ == tasks_for(list@.take(i as int)),
            decreases list@.len() - i,
        {
            let feature = list[i];
            let handler = feature.handler();
            assert(list@.take(i + 1).drop_last() =~= list@.take(i as int));
            assert(list@.take(i + 1).last() == feature);
            if handler.is_primary {
                primary_handlers.push(handler);
            } else {
                secondary_handlers.push(handler);
            }
            topic_handlers.push(feature);
            if feature.has_task() {
                tasks.push(feature);
            }
            i = i + 1;
            assert(topic_handlers@ =~= list@.take(i as int));
        }
        assert(list@.take(list@.len() as int) =~= list@);
        Bridge {
            primary_handlers,
            secondary_handlers,
            topic_handlers,
            tasks,
            ventilator: Ventilator::new(),
        }
    }

    /// A port has decoded `packet`: walks the registry of that port.
    pub fn dispatch(
        &mut self,
        primary: bool,
        packet: &HyundaiPacket,
        channels: &mut Channels<HyundaiPacket>,
    )
        ensures
            final(channels)@.published == old(channels)@.published + dispatched(
                if primary {
                    old(self).primary_handlers@
                } else {
                    old(self).secondary_handlers@
                },
                0,
                packet@,
                old(self).ventilator,
            ).published,
            final(channels)@.queued == old(channels)@.queued,
            final(self).ventilator == dispatched(
                if primary {
                    old(self).primary_handlers@
                } else {
                    old(self).secondary_handlers@
                },
                0,
                packet@,
                old(self).ventilator,
            ).ventilator,
            final(self).primary_handlers == old(self).primary_handlers,
            final(self).secondary_handlers == old(self).secondary_handlers,
            final(self).topic_handlers == old(self).topic_handlers,
            final(self).tasks == old(self).tasks,
    {
        let mut ventilator = self.ventilator;
        let handlers = if primary {
            &self.primary_handlers
        } else {
            &self.secondary_handlers
        };
        let ghost whole = dispatched(handlers@, 0, packet@, ventilator);
        let mut i: usize = 0;
        let mut done = false;
        while !done && i < handlers.len()
            invariant
                i <= handlers@.len(),
                channels@.queued == old(channels)@.queued,
                !done ==> old(channels)@.published + whole.published == channels@.published
                    + dispatched(handlers@, i as int, packet@, ventilator).published,
                !done ==> whole.ventilator == dispatched(
                    handlers@,
                    i as int,
                    packet@,
                    ventilator,
                ).ventilator,
                done ==> old(channels)@.published + whole.published == channels@.published,
                done ==> whole.ventilator == ventilator,
            decreases handlers@.len() - i + if done { 0int } else { 1int },
        {
            let handler = handlers[i];
            let ghost before = channels@.published;
            let ghost rest = dispatched(handlers@, i as int, packet@, ventilator);
            let consumed = handler.handle(packet, channels, &mut ventilator);
            if consumed && !handler.chaining {
                done = true;
                assert(channels@.published =~= before + rest.published);
            } else {
                i = i + 1;
                proof {
                    let next = dispatched(handlers@, i as int, packet@, ventilator);
                    if consumed {
                        assert(before + rest.published =~= channels@.published + next.published);
                    }
                }
            }
        }
        proof {
            if !done {
                assert(channels@.published + Seq::<PublishView>::empty() =~= channels@.published);
            }
        }
        self.ventilator = ventilator;
    }

    /// The broker has forwarded `pk`: every registered device sees it, and
    /// what the devices send is queued for the primary port.
    pub fn on_publish(
        &self,
        pk: &Publish,
        primary: &mut Channels<HyundaiPacket>,
        secondary: &mut Option<Channels<HyundaiPacket>>,
    )
        ensures
            view_of(*final(secondary)) == view_of(*old(secondary)),
            final(primary)@.queued == old(primary)@.queued + topic_commands(
                self.topic_handlers@,
                self.topic_handlers@.len() as int,
                self.ventilator,
                pk@.topic,
                pk@.payload,
            ),
            final(primary)@.published == old(primary)@.published,
    {
        let mut i: usize = 0;
        assert(primary@.queued =~= old(primary)@.queued + Seq::<HyundaiPacketView>::empty());
        while i < self.topic_handlers.len()
            invariant
                i <= self.topic_handlers@.len(),
                view_of(*secondary) == view_of(*old(secondary)),
                primary@.published == old(primary)@.published,
                primary@.queued == old(primary)@.queued + topic_commands(
                    self.topic_handlers@,
                    i as int,
                    self.ventilator,
                    pk@.topic,
                    pk@.payload,
                ),
            decreases self.topic_handlers@.len() - i,
        {
            let feature = self.topic_handlers[i];
            let ghost before = topic_commands(
                self.topic_handlers@,
                i as int,
                self.ventilator,
                pk@.topic,
                pk@.payload,
            );
            feature.topic_handler(&self.ventilator, pk, primary, secondary);
            i = i + 1;
            assert(primary@.queued =~= old(primary)@.queued + (before + feature.commands(
                self.ventilator,
                pk@.topic,
                pk@.payload,
            )));
        }
    }

    /// The period has passed: the task of every device that has one runs.
    pub fn tick(
        &self,
        primary: &mut Channels<HyundaiPacket>,
        secondary: &mut Option<Channels<HyundaiPacket>>,
    )
        ensures
            final(primary)@ == old(primary)@,
            view_of(*final(secondary)) == ticked(
                self.tasks@,
                self.tasks@.len() as int,
                view_of(*old(secondary)),
            ),
    {
        let mut i: usize = 0;
        while i < self.tasks.len()
            invariant
                i <= self.tasks@.len(),
                primary@ == old(primary)@,
                view_of(*secondary) == ticked(self.tasks@, i as int, view_of(*old(secondary))),
            decreases self.tasks@.len() - i,
        {
            let feature = self.tasks[i];
            feature.task(primary, secondary);
            i = i + 1;
        }
    }
}

} // verus!
