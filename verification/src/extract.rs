//! Frame-size extraction.
//!
//! The decode driver (an external collaborator) demuxes a media container into
//! packets and decodes the packets of one selected video stream. This module
//! holds the verified half of that loop: the decision which packets to decode
//! and the fold of the per-packet outcomes into a [`FrameSeries`].
//!
//! Partial-failure tolerance is deliberate policy here: a packet that fails to
//! decode contributes no sample and extraction continues, so a single corrupt
//! packet cannot abort the analysis of an otherwise valid stream.

use vstd::prelude::*;

verus! {

/// Pixel dimensions of a decoded frame or of the output canvas.
#[derive(Clone, Copy, Debug, PartialEq, Eq, Structural)]
pub struct Resolution {
    pub width: u32,
    pub height: u32,
}

/// What the decoder made of one packet that was fed to it.
#[derive(Clone, Copy, Debug)]
pub enum PacketOutcome {
    /// The decoder completed a frame. `packet_size` is the compressed input
    /// packet's byte size — the per-frame bitrate proxy this pipeline
    /// measures, not the decoded frame's raw size — and `width`/`height` are
    /// the decoded frame's pixel dimensions.
    Frame { packet_size: u64, width: u32, height: u32 },
    /// The decoder accepted the packet but completed no frame yet (codecs
    /// with frame reordering buffer packets internally).
    Pending,
    /// The decoder rejected the packet.
    Failed,
}

/// One demuxed packet: the container stream it belongs to and what the
/// decoder made of it. For packets of streams other than the measured one
/// the outcome is irrelevant — they are skipped without decoding.
#[derive(Clone, Copy, Debug)]
pub struct PacketRecord {
    pub stream_index: usize,
    pub outcome: PacketOutcome,
}

/// The result of extraction: one encoded size per successfully decoded frame,
/// in decode order, and the pixel dimensions of the first decoded frame.
/// If no frame decodes, `values` is empty and both dimensions are zero.
#[derive(Clone, Debug)]
pub struct FrameSeries {
    pub width: u32,
    pub height: u32,
    pub values: Vec<u64>,
}

impl FrameSeries {
    /// The number of pixels of one frame, as captured from the stream.
    pub open spec fn pixel_count(self) -> int {
        self.width * self.height
    }
}

/// Whether this record yields a sample: it belongs to stream `idx` and its
/// packet decoded into a completed frame.
pub open spec fn is_sample(idx: usize, r: PacketRecord) -> bool {
    r.stream_index == idx && r.outcome is Frame
}

/// The encoded size carried by a decode outcome (zero when no frame completed).
pub open spec fn sample_size(o: PacketOutcome) -> u64 {
    match o {
        PacketOutcome::Frame { packet_size, .. } => packet_size,
        _ => 0u64,
    }
}

/// The frame dimensions carried by a decode outcome (zero when no frame completed).
pub open spec fn sample_dims(o: PacketOutcome) -> (u32, u32) {
    match o {
        PacketOutcome::Frame { width, height, .. } => (width, height),
        _ => (0u32, 0u32),
    }
}

/// The sizes of the frames that decode successfully from the packets of
/// stream `idx`, in decode order.
pub open spec fn frame_sizes(idx: usize, recs: Seq<PacketRecord>) -> Seq<u64>
    decreases recs.len(),
{
    if recs.len() == 0 {
        Seq::empty()
    } else if is_sample(idx, recs.last()) {
        frame_sizes(idx, recs.drop_last()).push(sample_size(recs.last().outcome))
    } else {
        frame_sizes(idx, recs.drop_last())
    }
}

/// The pixel dimensions of the first frame of stream `idx` that decodes
/// successfully, or zero if none does.
pub open spec fn first_frame_dims(idx: usize, recs: Seq<PacketRecord>) -> (u32, u32)
    decreases recs.len(),
{
    if recs.len() == 0 {
        (0u32, 0u32)
    } else if frame_sizes(idx, recs.drop_last()).len() == 0 && is_sample(idx, recs.last()) {
        sample_dims(recs.last().outcome)
    } else {
        first_frame_dims(idx, recs.drop_last())
    }
}

/// How many packets of the sequence belong to stream `idx`, decodable or not.
pub open spec fn video_packet_count(idx: usize, recs: Seq<PacketRecord>) -> int
    decreases recs.len(),
{
    if recs.len() == 0 {
        0
    } else if recs.last().stream_index == idx {
        video_packet_count(idx, recs.drop_last()) + 1
    } else {
        video_packet_count(idx, recs.drop_last())
    }
}

/// Accumulates the frame-size series for one selected video stream.
///
/// The decode driver owns the container and the decoder session; for each
/// demuxed packet it asks [`Extractor::selects`] whether the packet belongs
/// to the measured stream and, only when it does, feeds the packet to the
/// decoder and reports the outcome through [`Extractor::observe`].
pub struct Extractor {
    stream_index: usize,
    series: FrameSeries,
}

impl Extractor {
    /// The index of the measured stream.
    pub closed spec fn stream(self) -> usize {
        self.stream_index
    }

    /// The series accumulated so far.
    pub closed spec fn current(self) -> FrameSeries {
        self.series
    }

    /// A fresh extractor for the stream at index `idx`: the series starts
    /// empty with zero dimensions.
    pub fn new(idx: usize) -> (r: Extractor)
        ensures
            r.stream() == idx,
            r.current().values@ == Seq::<u64>::empty(),
            r.current().width == 0,
            r.current().height == 0,
    {
        Extractor {
            stream_index: idx,
            series: FrameSeries { width: 0, height: 0, values: Vec::new() },
        }
    }

    /// Whether a packet on stream `i` belongs to the measured stream. A
    /// container multiplexes audio and subtitle packets between the video
    /// packets; only the selected stream's packets are decoded.
    pub fn selects(&self, i: usize) -> (r: bool)
        ensures
            r == (i == self.stream()),
    {
        i == self.stream_index
    }

    /// Record the decoder's outcome for one packet of the measured stream.
    ///
    /// A completed frame appends its packet's encoded size to the series and,
    /// if it is the first completed frame, captures the frame's dimensions.
    /// A pending or failed packet leaves the series untouched: skipping a
    /// failed packet and continuing is this pipeline's deliberate
    /// partial-failure policy.
    pub fn observe(&mut self, o: PacketOutcome)
        ensures
            final(self).stream() == old(self).stream(),
            o matches PacketOutcome::Frame { packet_size, width, height } ==> {
                &&& final(self).current().values@ == old(self).current().values@.push(
                    packet_size,
                )
                &&& old(self).current().values@.len() == 0 ==> (final(self).current().width
                    == width && final(self).current().height == height)
                &&& old(self).current().values@.len() > 0 ==> (final(self).current().width == old(
                    self,
                ).current().width && final(self).current().height == old(self).current().height)
            },
            !(o is Frame) ==> final(self).current() == old(self).current(),
    {
        match o {
            PacketOutcome::Frame { packet_size, width, height } => {
                if self.series.values.len() == 0 {
                    self.series.width = width;
                    self.series.height = height;
                }
                self.series.values.push(packet_size);
            },
            PacketOutcome::Pending => {},
            PacketOutcome::Failed => {},
        }
    }

    /// Hand the finished series off to the transformer and renderer.
    pub fn finish(self) -> (r: FrameSeries)
        ensures
            r == self.current(),
    {
        self.series
    }
}

/// Extraction treats each packet on its own: the samples of a concatenated
/// packet sequence are the samples of its parts, concatenated.
pub proof fn lemma_frame_sizes_concat(idx: usize, a: Seq<PacketRecord>, b: Seq<PacketRecord>)
    ensures
        frame_sizes(idx, a + b) == frame_sizes(idx, a) + frame_sizes(idx, b),
    decreases b.len(),
{
    if b.len() == 0 {
        assert(a + b =~= a);
        assert(frame_sizes(idx, a) + frame_sizes(idx, b) =~= frame_sizes(idx, a));
    } else {
        lemma_frame_sizes_concat(idx, a, b.drop_last());
        assert((a + b).drop_last() =~= a + b.drop_last());
        assert((a + b).last() == b.last());
        if is_sample(idx, b.last()) {
            assert(frame_sizes(idx, a) + frame_sizes(idx, b) =~= (frame_sizes(idx, a)
                + frame_sizes(idx, b.drop_last())).push(sample_size(b.last().outcome)));
        }
    }
}

/// A sequence that yields no sample captures no dimensions.
pub proof fn lemma_no_samples_zero_dims(idx: usize, recs: Seq<PacketRecord>)
    requires
        frame_sizes(idx, recs).len() == 0,
    ensures
        first_frame_dims(idx, recs) == (0u32, 0u32),
    decreases recs.len(),
{
    if recs.len() > 0 {
        assert(!is_sample(idx, recs.last()));
        lemma_no_samples_zero_dims(idx, recs.drop_last());
    }
}

/// The captured dimensions of a concatenated packet sequence come from its
/// first part when that part yields any sample, else from its second part.
pub proof fn lemma_first_frame_dims_concat(idx: usize, a: Seq<PacketRecord>, b: Seq<PacketRecord>)
    ensures
        first_frame_dims(idx, a + b) == if frame_sizes(idx, a).len() > 0 {
            first_frame_dims(idx, a)
        } else {
            first_frame_dims(idx, b)
        },
    decreases b.len(),
{
    if b.len() == 0 {
        assert(a + b =~= a);
        if frame_sizes(idx, a).len() == 0 {
            lemma_no_samples_zero_dims(idx, a);
        }
    } else {
        lemma_first_frame_dims_concat(idx, a, b.drop_last());
        lemma_frame_sizes_concat(idx, a, b.drop_last());
        assert((a + b).drop_last() =~= a + b.drop_last());
        assert((a + b).last() == b.last());
        if frame_sizes(idx, a + b.drop_last()).len() == 0 && is_sample(idx, b.last()) {
            assert(frame_sizes(idx, a).len() == 0);
            assert(frame_sizes(idx, b.drop_last()).len() == 0);
            assert(first_frame_dims(idx, a + b) == sample_dims(b.last().outcome));
            assert(first_frame_dims(idx, b) == sample_dims(b.last().outcome));
        } else {
            assert(first_frame_dims(idx, a + b) == first_frame_dims(idx, a + b.drop_last()));
            if frame_sizes(idx, a).len() > 0 {
                assert(first_frame_dims(idx, a + b) == first_frame_dims(idx, a));
            } else {
                assert(first_frame_dims(idx, a + b) == first_frame_dims(idx, b.drop_last()));
                assert(!(frame_sizes(idx, b.drop_last()).len() == 0 && is_sample(idx, b.last())));
                assert(first_frame_dims(idx, b) == first_frame_dims(idx, b.drop_last()));
            }
        }
    }
}

/// Packet counting also treats each packet on its own.
pub proof fn lemma_video_packet_count_concat(
    idx: usize,
    a: Seq<PacketRecord>,
    b: Seq<PacketRecord>,
)
    ensures
        video_packet_count(idx, a + b) == video_packet_count(idx, a) + video_packet_count(idx, b),
    decreases b.len(),
{
    if b.len() == 0 {
        assert(a + b =~= a);
    } else {
        lemma_video_packet_count_concat(idx, a, b.drop_last());
        assert((a + b).drop_last() =~= a + b.drop_last());
        assert((a + b).last() == b.last());
    }
}

/// A sequence yields at most one sample per packet of the measured stream.
pub proof fn lemma_samples_at_most_video_packets(idx: usize, recs: Seq<PacketRecord>)
    ensures
        frame_sizes(idx, recs).len() <= video_packet_count(idx, recs),
    decreases recs.len(),
{
    if recs.len() > 0 {
        lemma_samples_at_most_video_packets(idx, recs.drop_last());
    }
}

/// Law: a packet of the measured stream that fails to decode mid-stream does
/// not terminate extraction. It contributes no sample and changes no captured
/// dimension — every packet before and after it is folded exactly as if the
/// failed packet were absent — and the series ends up strictly shorter than
/// the stream's packet count.
pub proof fn lemma_failed_packet_is_skipped(
    idx: usize,
    before: Seq<PacketRecord>,
    bad: PacketRecord,
    after: Seq<PacketRecord>,
)
    requires
        bad.stream_index == idx,
        !(bad.outcome is Frame),
    ensures
        frame_sizes(idx, before + seq![bad] + after) == frame_sizes(idx, before + after),
        frame_sizes(idx, before + seq![bad] + after) == frame_sizes(idx, before) + frame_sizes(
            idx,
            after,
        ),
        first_frame_dims(idx, before + seq![bad] + after) == first_frame_dims(idx, before + after),
        frame_sizes(idx, before + seq![bad] + after).len() < video_packet_count(
            idx,
            before + seq![bad] + after,
        ),
{
    let one = seq![bad];
    let none: Seq<PacketRecord> = Seq::empty();
    assert(one.drop_last() =~= none);
    assert(frame_sizes(idx, none) =~= Seq::<u64>::empty());
    assert(frame_sizes(idx, one) =~= Seq::<u64>::empty());
    lemma_frame_sizes_concat(idx, before, one);
    lemma_frame_sizes_concat(idx, before + one, after);
    lemma_frame_sizes_concat(idx, before, after);
    assert(frame_sizes(idx, before + one) =~= frame_sizes(idx, before));
    assert(frame_sizes(idx, before + one + after) =~= frame_sizes(idx, before) + frame_sizes(
        idx,
        after,
    ));
    assert(frame_sizes(idx, before + after) =~= frame_sizes(idx, before) + frame_sizes(idx, after));

    lemma_first_frame_dims_concat(idx, before + one, after);
    lemma_first_frame_dims_concat(idx, before, one);
    lemma_first_frame_dims_concat(idx, before, after);
    assert(first_frame_dims(idx, none) == (0u32, 0u32));
    assert(first_frame_dims(idx, one) == (0u32, 0u32));

    lemma_video_packet_count_concat(idx, before + one, after);
    lemma_video_packet_count_concat(idx, before, one);
    assert(video_packet_count(idx, none) == 0);
    assert(video_packet_count(idx, one) == 1);
    lemma_samples_at_most_video_packets(idx, before);
    lemma_samples_at_most_video_packets(idx, after);
}

/// Fold a fully demuxed packet sequence into its frame-size series.
///
/// This is the extraction loop in one verified piece: packets of other
/// streams are skipped, every completed frame of stream `idx` contributes
/// exactly its packet's encoded size, the first completed frame sets the
/// dimensions, and failed packets are skipped without aborting.
pub fn extract_series(idx: usize, recs: &Vec<PacketRecord>) -> (r: FrameSeries)
    ensures
        r.values@ == frame_sizes(idx, recs@),
        (r.width, r.height) == first_frame_dims(idx, recs@),
{
    let mut ex = Extractor::new(idx);
    let mut i: usize = 0;
    while i < recs.len()
        invariant
            0 <= i <= recs@.len(),
            ex.stream() == idx,
            ex.current().values@ == frame_sizes(idx, recs@.subrange(0, i as int)),
            (ex.current().width, ex.current().height) == first_frame_dims(
                idx,
                recs@.subrange(0, i as int),
            ),
        decreases recs@.len() - i,
    {
        let rec = recs[i];
        proof {
            assert(recs@.subrange(0, i + 1 as int).drop_last() =~= recs@.subrange(0, i as int));
            assert(recs@.subrange(0, i + 1 as int).last() == recs@[i as int]);
        }
        if ex.selects(rec.stream_index) {
            ex.observe(rec.outcome);
        }
        i = i + 1;
    }
    proof {
        assert(recs@.subrange(0, recs@.len() as int) =~= recs@);
    }
    ex.finish()
}

} // verus!
