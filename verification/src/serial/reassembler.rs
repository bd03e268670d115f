//! Recovers frames from the chunks that reads of a serial port return.
//!
//! The reassembler keeps the bytes of a frame that has begun and not yet
//! ended. A chunk that arrives while nothing is kept either begins with the
//! frame prefix, and then is a frame or the beginning of one, or is noise.

use std::marker::PhantomData;
use vstd::prelude::*;

use crate::serial::packet::SerialPacket;
use crate::text::{has_prefix, starts_with};
use crate::utils::{append_bytes, copy_range};

verus! {

/// What a chunk led to, as a mathematical value.
pub enum Fed {
    /// The chunk was dropped: nothing was kept and it is not the start of a
    /// frame.
    Noise,
    /// The chunk was kept; the frame is not complete yet.
    Waiting,
    /// These bytes were cut off as a candidate frame.
    Frame(Seq<u8>),
}

/// What a chunk led to.
#[derive(Debug, PartialEq, Eq)]
pub enum Chunk {
    /// The chunk was dropped: nothing was kept and it is not the start of a
    /// frame.
    Noise,
    /// The chunk was kept; the frame is not complete yet.
    Waiting,
    /// These bytes were cut off as a candidate frame.
    Frame(Vec<u8>),
}

impl View for Chunk {
    type V = Fed;

    open spec fn view(&self) -> Fed {
        match self {
            Chunk::Noise => Fed::Noise,
            Chunk::Waiting => Fed::Waiting,
            Chunk::Frame(bytes) => Fed::Frame(bytes@),
        }
    }
}

/// The kept bytes after a chunk, and what the chunk led to.
pub struct Step {
    pub buffer: Seq<u8>,
    pub outcome: Fed,
}

/// The kept bytes after a run of chunks, and the candidate frames cut on
/// the way, in the order in which they were cut.
pub struct Run {
    pub buffer: Seq<u8>,
    pub frames: Seq<Seq<u8>>,
}

/// The length at which `work` is cut: the length that its header declares,
/// once `work` is that long.
pub open spec fn cut_at<T: SerialPacket>(work: Seq<u8>) -> Option<int> {
    match T::declared_length(work) {
        Some(length) => if length <= work.len() {
            Some(length as int)
        } else {
            None
        },
        None => None,
    }
}

/// Nothing is kept, or what is kept begins with the frame prefix.
pub open spec fn well_formed<T: SerialPacket>(buffer: Seq<u8>) -> bool {
    buffer.len() == 0 || starts_with(buffer, T::spec_prefix())
}

/// One step of the reassembler.
///
/// With bytes kept, the chunk is appended; if the whole is as long as its
/// header declares, that many bytes are cut off as a candidate and the rest
/// is kept only if it begins with the prefix. With nothing kept, a chunk
/// that begins with the prefix is cut if it is as long as its header
/// declares, and kept otherwise; any other chunk is noise.
pub open spec fn feed<T: SerialPacket>(buffer: Seq<u8>, chunk: Seq<u8>) -> Step {
    if buffer.len() > 0 {
        let work = buffer + chunk;
        match cut_at::<T>(work) {
            Some(length) => {
                let rest = work.skip(length);
                Step {
                    buffer: if starts_with(rest, T::spec_prefix()) {
                        rest
                    } else {
                        Seq::empty()
                    },
                    outcome: Fed::Frame(work.take(length)),
                }
            },
            None => Step { buffer: work, outcome: Fed::Waiting },
        }
    } else if starts_with(chunk, T::spec_prefix()) {
        match cut_at::<T>(chunk) {
            Some(length) => Step { buffer: Seq::empty(), outcome: Fed::Frame(chunk.take(length)) },
            None => Step { buffer: chunk, outcome: Fed::Waiting },
        }
    } else {
        Step { buffer: Seq::empty(), outcome: Fed::Noise }
    }
}

/// The reassembler fed with `chunks`, one after the other.
pub open spec fn run<T: SerialPacket>(buffer: Seq<u8>, chunks: Seq<Seq<u8>>) -> Run
    decreases chunks.len(),
{
    if chunks.len() == 0 {
        Run { buffer, frames: Seq::empty() }
    } else {
        let before = run::<T>(buffer, chunks.drop_last());
        let step = feed::<T>(before.buffer, chunks.last());
        Run {
            buffer: step.buffer,
            frames: match step.outcome {
                Fed::Frame(frame) => before.frames.push(frame),
                _ => before.frames,
            },
        }
    }
}

/// The chunk is one whole frame: it begins with the prefix and is as long
/// as its header declares.
pub open spec fn is_whole_frame<T: SerialPacket>(chunk: Seq<u8>) -> bool {
    &&& starts_with(chunk, T::spec_prefix())
    &&& T::declared_length(chunk) matches Some(length)
    &&& length == chunk.len()
}

/// The chunk does not begin with the prefix.
pub open spec fn is_noise<T: SerialPacket>(chunk: Seq<u8>) -> bool {
    !starts_with(chunk, T::spec_prefix())
}

/// The chunks that are whole frames, in their order.
pub open spec fn whole_frames<T: SerialPacket>(chunks: Seq<Seq<u8>>) -> Seq<Seq<u8>>
    decreases chunks.len(),
{
    if chunks.len() == 0 {
        Seq::empty()
    } else {
        let before = whole_frames::<T>(chunks.drop_last());
        if is_whole_frame::<T>(chunks.last()) {
            before.push(chunks.last())
        } else {
            before
        }
    }
}

/// After a chunk the kept bytes have grown by the chunk, or nothing is
/// kept, or a candidate was cut; and what is kept is well formed.
pub proof fn lemma_feed_progress<T: SerialPacket>(buffer: Seq<u8>, chunk: Seq<u8>)
    requires
        well_formed::<T>(buffer),
    ensures
        well_formed::<T>(feed::<T>(buffer, chunk).buffer),
        feed::<T>(buffer, chunk).outcome is Frame || feed::<T>(buffer, chunk).buffer.len() == 0
            || feed::<T>(buffer, chunk).buffer == buffer + chunk,
{
    let prefix = T::spec_prefix();
    if buffer.len() > 0 {
        let work = buffer + chunk;
        assert(work.take(prefix.len() as int) =~= buffer.take(prefix.len() as int));
    } else {
        assert(buffer + chunk =~= chunk);
    }
}

/// Whatever chunks arrive, what the reassembler keeps is empty or begins
/// with the prefix.
pub proof fn lemma_run_well_formed<T: SerialPacket>(buffer: Seq<u8>, chunks: Seq<Seq<u8>>)
    requires
        well_formed::<T>(buffer),
    ensures
        well_formed::<T>(run::<T>(buffer, chunks).buffer),
    decreases chunks.len(),
{
    if chunks.len() > 0 {
        lemma_run_well_formed::<T>(buffer, chunks.drop_last());
        lemma_feed_progress::<T>(run::<T>(buffer, chunks.drop_last()).buffer, chunks.last());
    }
}

/// Whole frames with noise between them: the reassembler cuts exactly the
/// frames, in their order, and keeps nothing.
pub proof fn lemma_frames_between_noise<T: SerialPacket>(chunks: Seq<Seq<u8>>)
    requires
        forall|i: int|
            0 <= i < chunks.len() ==> is_whole_frame::<T>(#[trigger] chunks[i]) || is_noise::<T>(
                chunks[i],
            ),
    ensures
        run::<T>(Seq::empty(), chunks).frames == whole_frames::<T>(chunks),
        run::<T>(Seq::empty(), chunks).buffer.len() == 0,
    decreases chunks.len(),
{
    if chunks.len() > 0 {
        let head = chunks.drop_last();
        let last = chunks.last();
        assert forall|i: int| 0 <= i < head.len() implies is_whole_frame::<T>(#[trigger] head[i])
            || is_noise::<T>(head[i]) by {
            assert(head[i] == chunks[i]);
        }
        lemma_frames_between_noise::<T>(head);
        assert(is_whole_frame::<T>(last) || is_noise::<T>(last));
        if is_whole_frame::<T>(last) {
            assert(last.take(last.len() as int) =~= last);
        }
    }
}

/// A run of one chunk is one step.
pub proof fn lemma_run_single<T: SerialPacket>(buffer: Seq<u8>, chunk: Seq<u8>)
    ensures
        run::<T>(buffer, seq![chunk]).buffer == feed::<T>(buffer, chunk).buffer,
        run::<T>(buffer, seq![chunk]).frames == match feed::<T>(buffer, chunk).outcome {
            Fed::Frame(frame) => seq![frame],
            _ => Seq::<Seq<u8>>::empty(),
        },
{
    let only = seq![chunk];
    assert(only.drop_last() =~= Seq::<Seq<u8>>::empty());
    assert(only.last() == chunk);
    assert(run::<T>(buffer, only.drop_last()).buffer == buffer);
    assert(run::<T>(buffer, only.drop_last()).frames =~= Seq::<Seq<u8>>::empty());
    match feed::<T>(buffer, chunk).outcome {
        Fed::Frame(frame) => {
            assert(Seq::<Seq<u8>>::empty().push(frame) =~= seq![frame]);
        },
        _ => {},
    }
}

/// Feeding one run of chunks after another is feeding them all in a row.
pub proof fn lemma_run_append<T: SerialPacket>(
    buffer: Seq<u8>,
    first: Seq<Seq<u8>>,
    second: Seq<Seq<u8>>,
)
    ensures
        run::<T>(buffer, first + second).buffer == run::<T>(
            run::<T>(buffer, first).buffer,
            second,
        ).buffer,
        run::<T>(buffer, first + second).frames == run::<T>(buffer, first).frames + run::<T>(
            run::<T>(buffer, first).buffer,
            second,
        ).frames,
    decreases second.len(),
{
    let middle = run::<T>(buffer, first);
    if second.len() == 0 {
        assert(first + second =~= first);
        assert(middle.frames + Seq::<Seq<u8>>::empty() =~= middle.frames);
    } else {
        let head = second.drop_last();
        lemma_run_append::<T>(buffer, first, head);
        assert((first + second).drop_last() =~= first + head);
        assert((first + second).last() == second.last());
        let before = run::<T>(middle.buffer, head);
        let step = feed::<T>(before.buffer, second.last());
        match step.outcome {
            Fed::Frame(frame) => {
                assert((middle.frames + before.frames).push(frame) =~= middle.frames
                    + before.frames.push(frame));
            },
            _ => {},
        }
    }
}

/// The pieces of `pieces` joined in their order.
pub open spec fn joined(pieces: Seq<Seq<u8>>) -> Seq<u8>
    decreases pieces.len(),
{
    if pieces.len() == 0 {
        Seq::empty()
    } else {
        joined(pieces.drop_last()) + pieces.last()
    }
}

/// The pieces are one frame as successive reads return it: joined they are
/// a whole frame, the first piece begins with the prefix, the last piece is
/// not empty, and no shorter beginning of the frame is as long as it
/// declares.
pub open spec fn is_fragmented_frame<T: SerialPacket>(pieces: Seq<Seq<u8>>) -> bool {
    &&& pieces.len() > 0
    &&& is_whole_frame::<T>(joined(pieces))
    &&& starts_with(pieces[0], T::spec_prefix())
    &&& pieces[0].len() > 0
    &&& pieces.last().len() > 0
    &&& forall|n: int|
        0 < n < joined(pieces).len() ==> cut_at::<T>(#[trigger] joined(pieces).take(n)) is None
}

/// The first `count` pieces joined are a beginning of all pieces joined.
pub proof fn lemma_joined_prefix(pieces: Seq<Seq<u8>>, count: int)
    requires
        0 <= count <= pieces.len(),
    ensures
        joined(pieces.take(count)).len() <= joined(pieces).len(),
        joined(pieces.take(count)) == joined(pieces).take(joined(pieces.take(count)).len() as int),
        count < pieces.len() ==> joined(pieces.take(count)).len() + pieces.last().len() <= joined(
            pieces,
        ).len(),
    decreases pieces.len() - count,
{
    if count == pieces.len() {
        assert(pieces.take(count) =~= pieces);
        assert(joined(pieces).take(joined(pieces).len() as int) =~= joined(pieces));
    } else {
        lemma_joined_prefix(pieces, count + 1);
        let longer = pieces.take(count + 1);
        assert(longer.drop_last() =~= pieces.take(count));
        assert(longer.last() == pieces[count]);
        let short = joined(pieces.take(count));
        assert(joined(longer) == short + pieces[count]);
        assert(short =~= joined(longer).take(short.len() as int));
        assert(short =~= joined(pieces).take(short.len() as int));
        if count + 1 == pieces.len() {
            assert(longer =~= pieces);
        }
    }
}

/// While a frame arrives in pieces the reassembler keeps what has arrived
/// and cuts nothing.
pub proof fn lemma_fragments_are_kept<T: SerialPacket>(pieces: Seq<Seq<u8>>, count: int)
    requires
        is_fragmented_frame::<T>(pieces),
        1 <= count < pieces.len(),
    ensures
        run::<T>(Seq::empty(), pieces.take(count)).buffer == joined(pieces.take(count)),
        run::<T>(Seq::empty(), pieces.take(count)).frames == Seq::<Seq<u8>>::empty(),
        0 < joined(pieces.take(count)).len() < joined(pieces).len(),
    decreases count,
{
    let frame = joined(pieces);
    let chunks = pieces.take(count);
    let head = chunks.drop_last();
    let piece = chunks.last();
    assert(head =~= pieces.take(count - 1));
    assert(piece == pieces[count - 1]);
    lemma_joined_prefix(pieces, count);
    lemma_joined_prefix(pieces, count - 1);
    let work = joined(chunks);
    assert(work == joined(head) + piece);
    if count == 1 {
        assert(head.len() == 0);
        assert(joined(head) =~= Seq::<u8>::empty());
        assert(work =~= piece);
        assert(run::<T>(Seq::empty(), head).buffer =~= Seq::<u8>::empty());
        assert(work == frame.take(work.len() as int));
        assert(cut_at::<T>(frame.take(work.len() as int)) is None);
    } else {
        lemma_fragments_are_kept::<T>(pieces, count - 1);
        assert(work == frame.take(work.len() as int));
        assert(cut_at::<T>(frame.take(work.len() as int)) is None);
    }
}

/// A frame that arrives in pieces is cut once, whole, when its last piece
/// arrives, and nothing is kept after it.
pub proof fn lemma_fragmented_frame<T: SerialPacket>(pieces: Seq<Seq<u8>>)
    requires
        is_fragmented_frame::<T>(pieces),
    ensures
        run::<T>(Seq::empty(), pieces).frames == seq![joined(pieces)],
        run::<T>(Seq::empty(), pieces).buffer.len() == 0,
{
    let frame = joined(pieces);
    let head = pieces.drop_last();
    let last = pieces.last();
    assert(frame.take(frame.len() as int) =~= frame);
    assert(frame.skip(frame.len() as int) =~= Seq::<u8>::empty());
    if pieces.len() == 1 {
        assert(joined(head) =~= Seq::<u8>::empty());
        assert(frame =~= last);
        assert(pieces =~= seq![last]);
        lemma_run_single::<T>(Seq::empty(), last);
    } else {
        assert(head =~= pieces.take(pieces.len() - 1));
        lemma_fragments_are_kept::<T>(pieces, pieces.len() - 1);
        let before = run::<T>(Seq::empty(), head);
        assert(before.buffer + last == frame);
        assert(run::<T>(Seq::empty(), pieces).frames =~= seq![frame]);
    }
}

/// What arrives between the reads that matter: noise in one chunk, or a
/// frame in one or more pieces.
pub enum Segment {
    Noise(Seq<u8>),
    Frame(Seq<Seq<u8>>),
}

/// The chunks of a segment, as the reads return them.
pub open spec fn segment_chunks(segment: Segment) -> Seq<Seq<u8>> {
    match segment {
        Segment::Noise(chunk) => seq![chunk],
        Segment::Frame(pieces) => pieces,
    }
}

/// The segment is noise that does not begin with the prefix, or a frame in
/// pieces.
pub open spec fn is_segment<T: SerialPacket>(segment: Segment) -> bool {
    match segment {
        Segment::Noise(chunk) => is_noise::<T>(chunk),
        Segment::Frame(pieces) => is_fragmented_frame::<T>(pieces),
    }
}

/// The chunks of all segments, in their order.
pub open spec fn all_chunks(segments: Seq<Segment>) -> Seq<Seq<u8>>
    decreases segments.len(),
{
    if segments.len() == 0 {
        Seq::empty()
    } else {
        all_chunks(segments.drop_last()) + segment_chunks(segments.last())
    }
}

/// The frames among the segments, each joined from its pieces, in their
/// order.
pub open spec fn all_frames(segments: Seq<Segment>) -> Seq<Seq<u8>>
    decreases segments.len(),
{
    if segments.len() == 0 {
        Seq::empty()
    } else {
        match segments.last() {
            Segment::Noise(_) => all_frames(segments.drop_last()),
            Segment::Frame(pieces) => all_frames(segments.drop_last()).push(joined(pieces)),
        }
    }
}

/// Frames, each arriving in one or more pieces, with noise between them:
/// the reassembler cuts exactly the frames, whole and in their order, and
/// keeps nothing.
pub proof fn lemma_fragmented_frames_between_noise<T: SerialPacket>(segments: Seq<Segment>)
    requires
        forall|i: int| 0 <= i < segments.len() ==> is_segment::<T>(#[trigger] segments[i]),
    ensures
        run::<T>(Seq::empty(), all_chunks(segments)).frames == all_frames(segments),
        run::<T>(Seq::empty(), all_chunks(segments)).buffer.len() == 0,
    decreases segments.len(),
{
    if segments.len() > 0 {
        let head = segments.drop_last();
        let last = segments.last();
        assert forall|i: int| 0 <= i < head.len() implies is_segment::<T>(#[trigger] head[i]) by {
            assert(head[i] == segments[i]);
        }
        lemma_fragmented_frames_between_noise::<T>(head);
        assert(is_segment::<T>(last));
        let before = run::<T>(Seq::empty(), all_chunks(head));
        assert(before.buffer =~= Seq::<u8>::empty());
        lemma_run_append::<T>(Seq::empty(), all_chunks(head), segment_chunks(last));
        match last {
            Segment::Noise(chunk) => {
                lemma_run_single::<T>(Seq::empty(), chunk);
                assert(before.frames + Seq::<Seq<u8>>::empty() =~= before.frames);
            },
            Segment::Frame(pieces) => {
                lemma_fragmented_frame::<T>(pieces);
                assert(before.frames + seq![joined(pieces)] =~= before.frames.push(
                    joined(pieces),
                ));
            },
        }
    }
}

/// The state of the reassembler for frames of the packet type `T`.
pub struct Reassembler<T: SerialPacket> {
    buffer: Vec<u8>,
    _marker: PhantomData<T>,
}

impl<T: SerialPacket> View for Reassembler<T> {
    type V = Seq<u8>;

    closed spec fn view(&self) -> Seq<u8> {
        self.buffer@
    }
}

impl<T: SerialPacket> Reassembler<T> {
    /// A reassembler that keeps nothing.
    pub fn new() -> (r: Self)
        ensures
            r@.len() == 0,
    {
        Reassembler { buffer: Vec::new(), _marker: PhantomData }
    }

    /// The bytes that are kept.
    pub fn buffered(&self) -> (bytes: &Vec<u8>)
        ensures
            bytes@ == self@,
    {
        &self.buffer
    }

    /// Forgets the bytes that are kept.
    pub fn clear(&mut self)
        ensures
            final(self)@.len() == 0,
    {
        self.buffer = Vec::new();
    }

    /// Takes the next chunk that the port returned.
    pub fn feed(&mut self, chunk: &[u8]) -> (out: Chunk)
        ensures
            final(self)@ == feed::<T>(old(self)@, chunk@).buffer,
            out@ == feed::<T>(old(self)@, chunk@).outcome,
    {
        let prefix = T::prefix();
        if self.buffer.len() > 0 {
            append_bytes(&mut self.buffer, chunk);
            let total = self.buffer.len();
            match T::length_from_buffer(self.buffer.as_slice()) {
                Some(length) => {
                    if length <= total {
                        let frame = copy_range(self.buffer.as_slice(), 0, length);
                        let rest = copy_range(self.buffer.as_slice(), length, total);
                        assert(frame@ =~= self.buffer@.take(length as int));
                        assert(rest@ =~= self.buffer@.skip(length as int));
                        if has_prefix(rest.as_slice(), prefix.as_slice()) {
                            self.buffer = rest;
                        } else {
                            self.buffer = Vec::new();
                        }
                        Chunk::Frame(frame)
                    } else {
                        Chunk::Waiting
                    }
                },
                None => Chunk::Waiting,
            }
        } else if has_prefix(chunk, prefix.as_slice()) {
            match T::length_from_buffer(chunk) {
                Some(length) => {
                    if length <= chunk.len() {
                        let frame = copy_range(chunk, 0, length);
                        assert(frame@ =~= chunk@.take(length as int));
                        Chunk::Frame(frame)
                    } else {
                        self.buffer = copy_range(chunk, 0, chunk.len());
                        assert(self.buffer@ =~= chunk@);
                        Chunk::Waiting
                    }
                },
                None => {
                    self.buffer = copy_range(chunk, 0, chunk.len());
                    assert(self.buffer@ =~= chunk@);
                    Chunk::Waiting
                },
            }
        } else {
            Chunk::Noise
        }
    }
}

} // verus!
