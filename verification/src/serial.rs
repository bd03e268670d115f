//! The serial side of the bridge: frames, payloads and the port driver.
//!
//! A port driver owns one serial port. It feeds what it reads to the
//! reassembler, writes one packet at a time from its send queue while the
//! line is idle, and writes that packet again when the answer to it does
//! not come. The driver here is the part that decides; reading and writing
//! the port is left to its caller.

use std::collections::VecDeque;
use vstd::prelude::*;

use crate::serial::packet::{PacketParseError, SerialPacket};
use crate::serial::reassembler::{feed, well_formed, Chunk, Fed, Reassembler};

pub mod data;
pub mod packet;
pub mod reassembler;

verus! {

/// Every packet of `queue` can be written.
pub open spec fn all_encodable<T: SerialPacket>(queue: Seq<T::V>) -> bool {
    forall|i: int| 0 <= i < queue.len() ==> T::encodable(#[trigger] queue[i])
}

/// The packets that wait to be written to a port, the oldest first.
pub struct SendQueue<T: SerialPacket> {
    items: VecDeque<T>,
}

impl<T: SerialPacket> View for SendQueue<T> {
    type V = Seq<T::V>;

    closed spec fn view(&self) -> Seq<T::V> {
        Seq::new(self.items@.len(), |i: int| self.items@[i]@)
    }
}

impl<T: SerialPacket> SendQueue<T> {
    /// An empty queue.
    pub fn new() -> (queue: Self)
        ensures
            queue@ == Seq::<T::V>::empty(),
    {
        let queue = SendQueue { items: VecDeque::new() };
        assert(queue@ =~= Seq::<T::V>::empty());
        queue
    }

    /// The number of packets that wait.
    pub fn len(&self) -> (n: usize)
        ensures
            n == self@.len(),
    {
        self.items.len()
    }

    /// Puts `packet` behind all packets that wait.
    pub fn send(&mut self, packet: T)
        ensures
            final(self)@ == old(self)@.push(packet@),
    {
        self.items.push_back(packet);
        assert(self@ =~= old(self)@.push(packet@));
    }

    /// Takes the packet that has waited longest, if there is one.
    pub fn try_recv(&mut self) -> (packet: Option<T>)
        ensures
            old(self)@.len() == 0 ==> packet is None && final(self)@ == old(self)@,
            old(self)@.len() > 0 ==> packet is Some && packet->Some_0@ == old(self)@[0]
                && final(self)@ == old(self)@.drop_first(),
    {
        let packet = self.items.pop_front();
        assert(old(self)@.len() == 0 ==> self@ =~= old(self)@);
        assert(old(self)@.len() > 0 ==> self@ =~= old(self)@.drop_first());
        packet
    }

    /// Puts all of `packets` behind the packets that wait, in their order.
    pub fn send_all(&mut self, packets: Vec<T>)
        ensures
            final(self)@ == old(self)@ + Seq::new(packets@.len(), |i: int| packets@[i]@),
    {
        let ghost added = Seq::new(packets@.len(), |i: int| packets@[i]@);
        let mut packets = packets;
        let ghost all = packets@;
        let ghost mut taken: int = 0;
        while packets.len() > 0
            invariant
                taken + packets@.len() == all.len(),
                0 <= taken,
                packets@ == all.skip(taken),
                added == Seq::new(all.len(), |i: int| all[i]@),
                self@ == old(self)@ + added.take(taken),
            decreases packets@.len(),
        {
            let packet = packets.remove(0);
            assert(packet == all[taken]);
            self.send(packet);
            proof {
                taken = taken + 1;
            }
            assert(packets@ =~= all.skip(taken));
            assert(self@ =~= old(self)@ + added.take(taken));
        }
        assert(added.take(taken) =~= added);
    }

    /// Forgets every packet that waits.
    pub fn clear(&mut self)
        ensures
            final(self)@ == Seq::<T::V>::empty(),
    {
        self.items.clear();
        assert(self@ =~= Seq::<T::V>::empty());
    }
}

/// The first `n` packets that a port takes from `queue`.
pub open spec fn received<V>(queue: Seq<V>, n: nat) -> Seq<V>
    decreases n,
{
    if n == 0 || queue.len() == 0 {
        Seq::empty()
    } else {
        seq![queue[0]] + received(queue.drop_first(), (n - 1) as nat)
    }
}

/// Packets leave a send queue in the order in which they were put on it:
/// what a port takes from a queue is the queue from its front.
pub proof fn lemma_queue_order<V>(queue: Seq<V>, n: nat)
    requires
        n <= queue.len(),
    ensures
        received(queue, n) == queue.take(n as int),
    decreases n,
{
    if n == 0 {
        assert(queue.take(0) =~= Seq::<V>::empty());
    } else {
        lemma_queue_order(queue.drop_first(), (n - 1) as nat);
        assert(queue.take(n as int) =~= seq![queue[0]] + queue.drop_first().take(n - 1));
    }
}

/// What a handler puts on a queue is what the port takes once the packets
/// that waited before are gone, in the order in which the handler produced
/// it.
pub proof fn lemma_produced_order<V>(waiting: Seq<V>, produced: Seq<V>)
    ensures
        received(waiting + produced, waiting.len() + produced.len()).skip(waiting.len() as int)
            == produced,
{
    let all = waiting + produced;
    lemma_queue_order(all, all.len());
    assert(all.take(all.len() as int) =~= all);
    assert(all.skip(waiting.len() as int) =~= produced);
}

/// The state of a port driver, as a mathematical value.
pub struct PortView<V> {
    /// The bytes that the reassembler keeps.
    pub buffer: Seq<u8>,
    /// The packet that was written and whose answer is awaited.
    pub pending: Option<V>,
    /// The pending packet is to be written again at the next timeout.
    pub retry_needed: bool,
}

/// What a read led to, as a mathematical value.
pub enum Read<V> {
    /// The chunk was kept; no frame is complete.
    Waiting,
    /// The chunk was dropped as noise between frames.
    Noise,
    /// A frame was decoded.
    Frame(V),
    /// A candidate frame was cut and did not decode.
    Rejected(PacketParseError),
}

/// What the driver does at a timeout, as a mathematical value.
pub enum Action {
    /// Nothing to write.
    Idle,
    /// Write these bytes: the pending packet, once more.
    Retry(Seq<u8>),
    /// Write these bytes: the next packet of the queue, now pending.
    Send(Seq<u8>),
}

/// What a chunk read in the state with these kept bytes leads to.
pub open spec fn read_outcome<T: SerialPacket>(buffer: Seq<u8>, chunk: Seq<u8>) -> Read<T::V> {
    match feed::<T>(buffer, chunk).outcome {
        Fed::Noise => Read::Noise,
        Fed::Waiting => Read::Waiting,
        Fed::Frame(frame) => match T::parse_error(frame) {
            Some(e) => Read::Rejected(e),
            None => Read::Frame(T::parsed(frame)),
        },
    }
}

impl<V> PortView<V> {
    /// The state of a driver that has just opened its port.
    pub open spec fn fresh() -> Self {
        PortView { buffer: Seq::empty(), pending: None, retry_needed: false }
    }

    /// The number of packets whose answer is awaited: none or one.
    pub open spec fn in_flight(self) -> nat {
        if self.pending is Some {
            1
        } else {
            0
        }
    }
}

/// The kept bytes are well formed, a retry is due only for a pending
/// packet, and the pending packet can be written.
pub open spec fn port_wf<T: SerialPacket>(s: PortView<T::V>) -> bool {
    &&& well_formed::<T>(s.buffer)
    &&& s.retry_needed ==> s.pending is Some
    &&& s.pending is Some ==> T::encodable(s.pending->Some_0)
}

/// The state after a chunk was read.
///
/// A decoded frame that acknowledges the pending packet, or that arrives
/// while nothing is pending, clears the slot. A frame that does not
/// acknowledge the pending packet, a candidate that does not decode, and
/// noise each ask for a retry if a packet is pending.
pub open spec fn after_read<T: SerialPacket>(s: PortView<T::V>, chunk: Seq<u8>) -> PortView<T::V> {
    let buffer = feed::<T>(s.buffer, chunk).buffer;
    match read_outcome::<T>(s.buffer, chunk) {
        Read::Waiting => PortView { buffer, pending: s.pending, retry_needed: s.retry_needed },
        Read::Noise => PortView {
            buffer,
            pending: s.pending,
            retry_needed: s.retry_needed || s.pending is Some,
        },
        Read::Frame(packet) => if s.pending is Some && !T::acknowledges(
            s.pending->Some_0,
            packet,
        ) {
            PortView { buffer, pending: s.pending, retry_needed: true }
        } else {
            PortView { buffer, pending: None, retry_needed: false }
        },
        Read::Rejected(_) => if s.pending is Some {
            PortView { buffer, pending: s.pending, retry_needed: true }
        } else {
            PortView { buffer, pending: None, retry_needed: false }
        },
    }
}

/// What the driver writes when a read times out: the pending packet again
/// if a retry is due, else the next packet of the queue, if there is one.
pub open spec fn timeout_action<T: SerialPacket>(s: PortView<T::V>, queue: Seq<T::V>) -> Action {
    if s.retry_needed {
        if s.pending is Some {
            Action::Retry(T::wire(s.pending->Some_0))
        } else {
            Action::Idle
        }
    } else if queue.len() > 0 {
        Action::Send(T::wire(queue[0]))
    } else {
        Action::Idle
    }
}

/// The state after a timeout: a packet taken from the queue is pending.
pub open spec fn after_timeout<T: SerialPacket>(s: PortView<T::V>, queue: Seq<T::V>) -> PortView<
    T::V,
> {
    if !s.retry_needed && queue.len() > 0 {
        PortView { buffer: s.buffer, pending: Some(queue[0]), retry_needed: false }
    } else {
        s
    }
}

/// The queue after a timeout: without its first packet if that was taken.
pub open spec fn queue_after_timeout<T: SerialPacket>(
    s: PortView<T::V>,
    queue: Seq<T::V>,
) -> Seq<T::V> {
    if !s.retry_needed && queue.len() > 0 {
        queue.drop_first()
    } else {
        queue
    }
}

/// The state after the bytes of a retry were written: no retry is due.
pub open spec fn after_retry_written<V>(s: PortView<V>) -> PortView<V> {
    PortView { buffer: s.buffer, pending: s.pending, retry_needed: false }
}

/// Reading keeps the state of a driver well formed.
pub proof fn lemma_read_keeps_wf<T: SerialPacket>(s: PortView<T::V>, chunk: Seq<u8>)
    requires
        port_wf::<T>(s),
    ensures
        port_wf::<T>(after_read::<T>(s, chunk)),
{
    crate::serial::reassembler::lemma_feed_progress::<T>(s.buffer, chunk);
}

/// A port has one slot for a packet in flight. A timeout takes at most one
/// packet from the queue, and only when no retry is due; the packet it
/// takes is the one that is pending afterwards.
pub proof fn lemma_one_in_flight<T: SerialPacket>(
    s: PortView<T::V>,
    queue: Seq<T::V>,
    chunk: Seq<u8>,
)
    requires
        port_wf::<T>(s),
        all_encodable::<T>(queue),
    ensures
        s.in_flight() <= 1,
        after_read::<T>(s, chunk).in_flight() <= 1,
        after_timeout::<T>(s, queue).in_flight() <= 1,
        port_wf::<T>(after_timeout::<T>(s, queue)),
        all_encodable::<T>(queue_after_timeout::<T>(s, queue)),
        queue_after_timeout::<T>(s, queue).len() + 1 >= queue.len(),
        s.retry_needed ==> queue_after_timeout::<T>(s, queue) == queue && after_timeout::<T>(
            s,
            queue,
        ) == s,
        queue_after_timeout::<T>(s, queue).len() < queue.len() ==> after_timeout::<T>(
            s,
            queue,
        ).pending == Some(queue[0]) && timeout_action::<T>(s, queue) == Action::Send(
            T::wire(queue[0]),
        ),
{
    let q = queue_after_timeout::<T>(s, queue);
    assert forall|i: int| 0 <= i < q.len() implies T::encodable(#[trigger] q[i]) by {
        if q.len() < queue.len() {
            assert(q[i] == queue[i + 1]);
        }
    }
}

/// While a packet is pending, a frame that does not acknowledge it and a
/// candidate that does not decode leave it pending and ask for a retry,
/// and the next timeout writes the bytes of that packet, unchanged, and
/// takes nothing from the queue.
pub proof fn lemma_retry_after_failure<T: SerialPacket>(
    s: PortView<T::V>,
    chunk: Seq<u8>,
    queue: Seq<T::V>,
)
    requires
        port_wf::<T>(s),
        s.pending is Some,
        match read_outcome::<T>(s.buffer, chunk) {
            Read::Frame(packet) => !T::acknowledges(s.pending->Some_0, packet),
            Read::Rejected(_) => true,
            _ => false,
        },
    ensures
        after_read::<T>(s, chunk).retry_needed,
        after_read::<T>(s, chunk).pending == s.pending,
        timeout_action::<T>(after_read::<T>(s, chunk), queue) == Action::Retry(
            T::wire(s.pending->Some_0),
        ),
        after_timeout::<T>(after_read::<T>(s, chunk), queue).pending == s.pending,
        queue_after_timeout::<T>(after_read::<T>(s, chunk), queue) == queue,
{
}

/// What a read led to.
#[derive(Debug, PartialEq, Eq)]
pub enum ReadEvent<T: SerialPacket> {
    /// The chunk was kept; no frame is complete.
    Waiting,
    /// The chunk was dropped as noise between frames.
    Noise,
    /// A frame was decoded: it is to be dispatched.
    Frame(T),
    /// A candidate frame was cut and did not decode.
    Rejected(PacketParseError),
}

impl<T: SerialPacket> View for ReadEvent<T> {
    type V = Read<T::V>;

    open spec fn view(&self) -> Read<T::V> {
        match self {
            ReadEvent::Waiting => Read::Waiting,
            ReadEvent::Noise => Read::Noise,
            ReadEvent::Frame(packet) => Read::Frame(packet@),
            ReadEvent::Rejected(e) => Read::Rejected(*e),
        }
    }
}

/// What the driver is to do at a timeout.
#[derive(Debug, PartialEq, Eq)]
pub enum TimeoutAction {
    /// Nothing to write.
    Idle,
    /// Write these bytes: the pending packet, once more.
    Retry(Vec<u8>),
    /// Write these bytes: the next packet of the queue, now pending.
    Send(Vec<u8>),
}

impl View for TimeoutAction {
    type V = Action;

    open spec fn view(&self) -> Action {
        match self {
            TimeoutAction::Idle => Action::Idle,
            TimeoutAction::Retry(bytes) => Action::Retry(bytes@),
            TimeoutAction::Send(bytes) => Action::Send(bytes@),
        }
    }
}

/// The driver of one serial port.
pub struct Serial<T: SerialPacket> {
    /// The device path of the port.
    pub path: String,
    /// The line speed at which the port is opened.
    pub baud_rate: u32,
    /// The read timeout, in milliseconds.
    pub millis: u64,
    /// Whether the caller prints what is read.
    pub print_various: bool,
    /// The bytes of a frame that has begun.
    pub reassembler: Reassembler<T>,
    /// The packet that was written and whose answer is awaited.
    pub last_pkt: Option<T>,
    /// The pending packet is to be written again at the next timeout.
    pub retry_delayed: bool,
}

impl<T: SerialPacket> View for Serial<T> {
    type V = PortView<T::V>;

    open spec fn view(&self) -> PortView<T::V> {
        PortView {
            buffer: self.reassembler@,
            pending: match self.last_pkt {
                Some(packet) => Some(packet@),
                None => None,
            },
            retry_needed: self.retry_delayed,
        }
    }
}

impl<T: SerialPacket> Serial<T> {
    /// The state of the driver is well formed.
    pub open spec fn wf(&self) -> bool {
        port_wf::<T>(self@)
    }

    /// A driver for the port at `path` with a read timeout of `millis`
    /// milliseconds, at the line speed of the dialect.
    pub fn new(path: String, millis: u64, print_various: bool) -> (serial: Self)
        ensures
            serial@ == PortView::<T::V>::fresh(),
            serial.wf(),
            serial.path == path,
            serial.baud_rate == T::spec_baud_rate(),
            serial.millis == millis,
            serial.print_various == print_various,
    {
        let serial = Serial {
            path,
            baud_rate: T::baud_rate(),
            millis,
            print_various,
            reassembler: Reassembler::new(),
            last_pkt: None,
            retry_delayed: false,
        };
        assert(serial@.buffer =~= Seq::<u8>::empty());
        serial
    }

    /// The port was opened: the driver starts afresh and the packets that
    /// were queued while the port was down are dropped.
    pub fn on_open(&mut self, queue: &mut SendQueue<T>)
        ensures
            final(self)@ == PortView::<T::V>::fresh(),
            final(self).wf(),
            final(queue)@ == Seq::<T::V>::empty(),
            final(self).path == old(self).path,
            final(self).baud_rate == old(self).baud_rate,
            final(self).millis == old(self).millis,
            final(self).print_various == old(self).print_various,
    {
        self.reassembler.clear();
        self.last_pkt = None;
        self.retry_delayed = false;
        queue.clear();
        assert(self@.buffer =~= Seq::<u8>::empty());
    }

    /// Is a packet pending?
    pub fn has_pending(&self) -> (b: bool)
        ensures
            b == (self@.pending is Some),
    {
        self.last_pkt.is_some()
    }

    /// Is the pending packet to be written again at the next timeout?
    pub fn retry_needed(&self) -> (b: bool)
        ensures
            b == self@.retry_needed,
    {
        self.retry_delayed
    }

    /// The port returned `chunk`.
    pub fn on_read(&mut self, chunk: &[u8]) -> (event: ReadEvent<T>)
        ensures
            event@ == read_outcome::<T>(old(self)@.buffer, chunk@),
            final(self)@ == after_read::<T>(old(self)@, chunk@),
            old(self).wf() ==> final(self).wf(),
            final(self).path == old(self).path,
            final(self).baud_rate == old(self).baud_rate,
            final(self).millis == old(self).millis,
            final(self).print_various == old(self).print_various,
    {
        proof {
            if self.wf() {
                lemma_read_keeps_wf::<T>(self@, chunk@);
            }
        }
        match self.reassembler.feed(chunk) {
            Chunk::Waiting => ReadEvent::Waiting,
            Chunk::Noise => {
                if self.last_pkt.is_some() {
                    self.retry_delayed = true;
                }
                ReadEvent::Noise
            },
            Chunk::Frame(frame) => {
                match T::parse(frame.as_slice()) {
                    Ok(packet) => {
                        let acknowledged = match &self.last_pkt {
                            Some(sent) => sent.is_correct_response(&packet),
                            None => true,
                        };
                        if acknowledged {
                            self.last_pkt = None;
                            self.retry_delayed = false;
                        } else {
                            self.retry_delayed = true;
                        }
                        ReadEvent::Frame(packet)
                    },
                    Err(e) => {
                        if self.last_pkt.is_some() {
                            self.retry_delayed = true;
                        } else {
                            self.retry_delayed = false;
                        }
                        ReadEvent::Rejected(e)
                    },
                }
            },
        }
    }

    /// A read timed out: the line is idle.
    pub fn on_timeout(&mut self, queue: &mut SendQueue<T>) -> (action: TimeoutAction)
        requires
            old(self).wf(),
            all_encodable::<T>(old(queue)@),
        ensures
            action@ == timeout_action::<T>(old(self)@, old(queue)@),
            final(self)@ == after_timeout::<T>(old(self)@, old(queue)@),
            final(queue)@ == queue_after_timeout::<T>(old(self)@, old(queue)@),
            final(self).wf(),
            all_encodable::<T>(final(queue)@),
            final(self).path == old(self).path,
            final(self).baud_rate == old(self).baud_rate,
            final(self).millis == old(self).millis,
            final(self).print_various == old(self).print_various,
    {
        proof {
            lemma_one_in_flight::<T>(self@, queue@, Seq::empty());
        }
        if self.retry_delayed {
            match &self.last_pkt {
                Some(packet) => TimeoutAction::Retry(packet.to_vec()),
                None => TimeoutAction::Idle,
            }
        } else {
            match queue.try_recv() {
                Some(packet) => {
                    let bytes = packet.to_vec();
                    self.last_pkt = Some(packet);
                    TimeoutAction::Send(bytes)
                },
                None => TimeoutAction::Idle,
            }
        }
    }

    /// The bytes of a retry were written.
    pub fn on_retry_written(&mut self)
        ensures
            final(self)@ == after_retry_written(old(self)@),
            old(self).wf() ==> final(self).wf(),
            final(self).path == old(self).path,
            final(self).baud_rate == old(self).baud_rate,
            final(self).millis == old(self).millis,
            final(self).print_various == old(self).print_various,
    {
        self.retry_delayed = false;
    }
}

} // verus!
