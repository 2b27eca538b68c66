//! Views of the memory that the engine hands to one render call.

use vstd::prelude::*;
use vstd::layout::size_of;
use crate::format::{Sample, StreamFormat};

verus! {

/// One entry of the engine's buffer list: how many channels it carries, how
/// many bytes it spans, and those bytes seen as samples of type `S`.
pub struct AudioBuffer<'a, S> {
    /// The number of channels whose samples the buffer holds.
    pub number_channels: u32,
    /// The size of the buffer in bytes, as the engine reports it.
    pub data_byte_size: u32,
    /// The samples of the buffer.
    pub data: &'a mut [S],
}

impl<'a, S> AudioBuffer<'a, S> {
    /// The samples that the buffer holds.
    pub open spec fn samples(&self) -> Seq<S> {
        self.data@
    }

    /// The number of samples that a buffer of this many channels holds for
    /// `frames` frames.
    pub open spec fn samples_for(&self, frames: nat) -> nat {
        self.number_channels as nat * frames
    }

    /// Whether the buffer is exactly as large as `frames` frames need: in
    /// bytes, as the engine reports it, and in samples.
    pub open spec fn holds(&self, frames: nat) -> bool {
        &&& self.data_byte_size as nat == size_of::<S>() * self.samples_for(frames)
        &&& self.data@.len() == self.samples_for(frames)
    }

    /// Decides whether the buffer is exactly as large as `frames` frames need.
    pub fn check(&self, frames: u32) -> (b: bool)
        ensures
            b == self.holds(frames as nat),
    {
        let channels: u64 = self.number_channels as u64;
        let wide: u64 = frames as u64;
        assert(channels * wide <= 0xffff_ffff * 0xffff_ffff) by (nonlinear_arith)
            requires
                channels <= 0xffff_ffff,
                wide <= 0xffff_ffff,
        ;
        let samples: u64 = channels * wide;
        let size: u128 = core::mem::size_of::<S>() as u128;
        assert(size * (samples as u128) <= 0xffff_ffff_ffff_ffff * 0xffff_ffff_ffff_ffff)
            by (nonlinear_arith)
            requires
                size <= 0xffff_ffff_ffff_ffff,
                samples <= 0xffff_ffff_ffff_ffff,
        ;
        let bytes: u128 = size * (samples as u128);
        self.data_byte_size as u128 == bytes && self.data.len() as u64 == samples
    }
}

/// A view of the engine's buffers that a render callback can be given.
///
/// A buffer type is checked once against the engine's stream format, when a
/// callback is registered, and then built anew from the buffer list of each
/// render call.
pub trait Buffer<'a>: Sized {
    /// The type that the bytes of the engine's buffers are seen as.
    type Sample;

    /// Whether this type of buffer can view a stream of the given format.
    spec fn format_matches(format: StreamFormat) -> bool;

    /// Whether the buffer list of a render call of `num_frames` frames is
    /// shaped as this type of buffer needs it.
    spec fn args_fit(num_frames: u32, io_data: Seq<AudioBuffer<'a, Self::Sample>>) -> bool;

    /// Whether `self` is the view of the buffer list `io_data` of a render
    /// call of `num_frames` frames.
    spec fn views(&self, num_frames: u32, io_data: Seq<AudioBuffer<'a, Self::Sample>>) -> bool;

    /// Decides whether this type of buffer can view a stream of the given
    /// format.
    fn does_stream_format_match(format: &StreamFormat) -> (b: bool)
        ensures
            b == Self::format_matches(*format),
    ;

    /// Decides whether the buffer list of a render call is shaped as this
    /// type of buffer needs it.
    fn do_input_proc_args_fit(num_frames: u32, io_data: &[AudioBuffer<'a, Self::Sample>]) -> (b:
        bool)
        ensures
            b == Self::args_fit(num_frames, io_data@),
    ;

    /// Builds the view of the buffer list of one render call. No sample is
    /// copied: the view borrows the engine's memory for the time of the call.
    fn from_input_proc_args(
        num_frames: u32,
        io_data: &'a mut [AudioBuffer<'a, Self::Sample>],
    ) -> (buffer: Self)
        requires
            Self::args_fit(num_frames, old(io_data)@),
        ensures
            buffer.views(num_frames, old(io_data)@),
    ;
}

/// The engine's buffer list as it came, for a callback that handles the
/// bytes itself.
pub struct Custom<'a> {
    /// The buffers of the render call, each seen as bytes.
    pub data: &'a mut [AudioBuffer<'a, u8>],
}

/// A buffer of linear PCM samples.
pub struct LinearPcm<B> {
    /// The samples: one slice for an interleaved stream, one slice per
    /// buffer for a non-interleaved one.
    pub data: B,
}

impl<'a, S> LinearPcm<&'a mut [S]> {
    /// The samples that the view shows.
    pub open spec fn samples(&self) -> Seq<S> {
        self.data@
    }
}

impl<'a> Buffer<'a> for Custom<'a> {
    type Sample = u8;

    open spec fn format_matches(format: StreamFormat) -> bool {
        true
    }

    open spec fn args_fit(num_frames: u32, io_data: Seq<AudioBuffer<'a, u8>>) -> bool {
        true
    }

    open spec fn views(&self, num_frames: u32, io_data: Seq<AudioBuffer<'a, u8>>) -> bool {
        self.data@ == io_data
    }

    fn does_stream_format_match(format: &StreamFormat) -> (b: bool) {
        true
    }

    fn do_input_proc_args_fit(num_frames: u32, io_data: &[AudioBuffer<'a, u8>]) -> (b: bool) {
        true
    }

    fn from_input_proc_args(num_frames: u32, io_data: &'a mut [AudioBuffer<'a, u8>]) -> (buffer:
        Self)
        ensures
            final(io_data)@ == final(buffer.data)@,
    {
        Custom { data: io_data }
    }
}

impl<'a, S: Sample> Buffer<'a> for LinearPcm<&'a mut [S]> {
    type Sample = S;

    open spec fn format_matches(format: StreamFormat) -> bool {
        !format.non_interleaved && S::format().matches(format)
    }

    open spec fn args_fit(num_frames: u32, io_data: Seq<AudioBuffer<'a, S>>) -> bool {
        io_data.len() >= 1 && io_data[0].holds(num_frames as nat)
    }

    open spec fn views(&self, num_frames: u32, io_data: Seq<AudioBuffer<'a, S>>) -> bool {
        &&& self.data@ == io_data[0].data@
        &&& self.data@.len() == num_frames as nat * io_data[0].number_channels as nat
    }

    fn does_stream_format_match(format: &StreamFormat) -> (b: bool) {
        !format.non_interleaved && S::sample_format().does_match(format)
    }

    fn do_input_proc_args_fit(num_frames: u32, io_data: &[AudioBuffer<'a, S>]) -> (b: bool) {
        io_data.len() >= 1 && io_data[0].check(num_frames)
    }

    fn from_input_proc_args(num_frames: u32, io_data: &'a mut [AudioBuffer<'a, S>]) -> (buffer:
        Self)
        ensures
            final(io_data)@.len() == old(io_data)@.len(),
            final(io_data)@[0].data@ == final(buffer.data)@,
    {
        proof {
            vstd::arithmetic::mul::lemma_mul_is_commutative(
                num_frames as int,
                io_data@[0].number_channels as int,
            );
        }
        let first = &mut io_data[0];
        LinearPcm { data: &mut *first.data }
    }
}

/// The samples of a non-interleaved stream: one buffer per channel group.
pub struct NonInterleaved<'a, S> {
    /// The buffers of the render call.
    buffers: &'a mut [AudioBuffer<'a, S>],
    /// The number of frames in each channel.
    frames: usize,
}

/// A single pass over the buffers of a [`NonInterleaved`], yielding the
/// samples of each in turn.
pub struct Channels<'b, 'a, S> {
    /// The buffers that have not been yielded.
    buffers: &'b [AudioBuffer<'a, S>],
}

/// A single pass over the buffers of a [`NonInterleaved`], yielding the
/// samples of each in turn for writing.
pub struct ChannelsMut<'b, 'a, S> {
    /// The buffers that have not been yielded.
    buffers: &'b mut [AudioBuffer<'a, S>],
}

/// The samples of each buffer of a list, in the order of the list.
pub open spec fn data_of<'a, S>(buffers: Seq<AudioBuffer<'a, S>>) -> Seq<Seq<S>> {
    Seq::new(buffers.len(), |i: int| buffers[i].data@)
}

impl<'a, S> NonInterleaved<'a, S> {
    /// The buffers that the view was built from.
    pub closed spec fn buffers(&self) -> Seq<AudioBuffer<'a, S>> {
        self.buffers@
    }

    /// The number of frames in each channel.
    pub closed spec fn spec_frames(&self) -> nat {
        self.frames as nat
    }

    /// Every buffer is exactly as large as the frames of the call need.
    pub open spec fn wf(&self) -> bool {
        forall|i: int|
            0 <= i < self.buffers().len() ==> (#[trigger] self.buffers()[i]).holds(
                self.spec_frames(),
            )
    }

    /// The number of frames in each channel.
    pub fn frames(&self) -> (n: usize)
        ensures
            n == self.spec_frames(),
    {
        self.frames
    }

    /// The number of buffers, one per channel group.
    pub fn len(&self) -> (n: usize)
        ensures
            n == self.buffers().len(),
    {
        self.buffers.len()
    }

    /// A pass over the buffers that yields the samples of each.
    pub fn channels<'b>(&'b self) -> (channels: Channels<'b, 'a, S>)
        ensures
            channels.remaining() == data_of(self.buffers()),
    {
        Channels { buffers: &*self.buffers }
    }

    /// A pass over the buffers that yields the samples of each for writing.
    pub fn channels_mut<'b>(&'b mut self) -> (channels: ChannelsMut<'b, 'a, S>)
        ensures
            channels.remaining() == data_of(old(self).buffers()),
            final(self).spec_frames() == old(self).spec_frames(),
    {
        ChannelsMut { buffers: &mut *self.buffers }
    }
}

impl<'b, 'a, S> Channels<'b, 'a, S> {
    /// The samples of the buffers that have not been yielded, in order.
    pub closed spec fn remaining(&self) -> Seq<Seq<S>> {
        data_of(self.buffers@)
    }

    /// Yields the samples of the next buffer, or `None` after the last.
    pub fn next(&mut self) -> (out: Option<&'b [S]>)
        ensures
            match out {
                Some(samples) => old(self).remaining().len() > 0 && samples@ == old(
                    self,
                ).remaining()[0] && final(self).remaining() == old(self).remaining().skip(1),
                None => old(self).remaining().len() == 0 && final(self).remaining() == old(
                    self,
                ).remaining(),
            },
    {
        if self.buffers.len() == 0 {
            return None;
        }
        let (first, rest) = self.buffers.split_at(1);
        self.buffers = rest;
        let head = &first[0];
        assert(self.remaining() =~= old(self).remaining().skip(1));
        Some(&*head.data)
    }
}

impl<'b, 'a, S> ChannelsMut<'b, 'a, S> {
    /// The samples of the buffers that have not been yielded, in order.
    pub closed spec fn remaining(&self) -> Seq<Seq<S>> {
        data_of(self.buffers@)
    }

    /// Yields the samples of the next buffer, or `None` after the last.
    pub fn next(&mut self) -> (out: Option<&'b mut [S]>)
        ensures
            match out {
                Some(samples) => old(self).remaining().len() > 0 && samples@ == old(
                    self,
                ).remaining()[0] && final(self).remaining() == old(self).remaining().skip(1),
                None => old(self).remaining().len() == 0 && final(self).remaining() == old(
                    self,
                ).remaining(),
            },
    {
        let mut taken: &'b mut [AudioBuffer<'a, S>] = &mut [];
        core::mem::swap(&mut self.buffers, &mut taken);
        if taken.len() == 0 {
            assert(self.remaining() =~= old(self).remaining());
            return None;
        }
        let (first, rest) = taken.split_at_mut(1);
        self.buffers = rest;
        let head = &mut first[0];
        assert(self.remaining() =~= old(self).remaining().skip(1));
        Some(&mut *head.data)
    }
}

impl<'a, S: Sample> Buffer<'a> for LinearPcm<NonInterleaved<'a, S>> {
    type Sample = S;

    open spec fn format_matches(format: StreamFormat) -> bool {
        format.non_interleaved && S::format().matches(format)
    }

    open spec fn args_fit(num_frames: u32, io_data: Seq<AudioBuffer<'a, S>>) -> bool {
        forall|i: int| 0 <= i < io_data.len() ==> (#[trigger] io_data[i]).holds(num_frames as nat)
    }

    open spec fn views(&self, num_frames: u32, io_data: Seq<AudioBuffer<'a, S>>) -> bool {
        &&& self.data.buffers() == io_data
        &&& self.data.spec_frames() == num_frames as nat
        &&& self.data.wf()
    }

    fn does_stream_format_match(format: &StreamFormat) -> (b: bool) {
        format.non_interleaved && S::sample_format().does_match(format)
    }

    fn do_input_proc_args_fit(num_frames: u32, io_data: &[AudioBuffer<'a, S>]) -> (b: bool) {
        let mut i: usize = 0;
        while i < io_data.len()
            invariant
                i <= io_data@.len(),
                forall|j: int| 0 <= j < i ==> (#[trigger] io_data@[j]).holds(num_frames as nat),
            decreases io_data@.len() - i,
        {
            if !io_data[i].check(num_frames) {
                return false;
            }
            i = i + 1;
        }
        true
    }

    fn from_input_proc_args(num_frames: u32, io_data: &'a mut [AudioBuffer<'a, S>]) -> (buffer:
        Self) {
        LinearPcm { data: NonInterleaved { buffers: io_data, frames: num_frames as usize } }
    }
}

/// Each pass over the channels of a view that was built from a fitting
/// buffer list yields one slice per buffer, in the order of the list, and
/// the slice of a buffer is as long as its channel count times the frame
/// count.
pub proof fn lemma_channels_cover_buffers<'a, S>(view: NonInterleaved<'a, S>, i: int)
    requires
        view.wf(),
        0 <= i < view.buffers().len(),
    ensures
        data_of(view.buffers()).len() == view.buffers().len(),
        data_of(view.buffers())[i] == view.buffers()[i].data@,
        data_of(view.buffers())[i].len() == view.buffers()[i].number_channels as nat
            * view.spec_frames(),
{
    assert(view.buffers()[i].holds(view.spec_frames()));
}

/// Among the stream formats whose samples can be read as `S`, the
/// interleaved ones match the interleaved buffer of `S` and no other, and
/// the non-interleaved ones match the non-interleaved buffer of `S` and no
/// other. A format whose samples cannot be read as `S` matches neither.
pub proof fn lemma_layout_decides<'a, S: Sample>(format: StreamFormat)
    ensures
        S::format().matches(format) ==> <LinearPcm<&'a mut [S]> as Buffer<'a>>::format_matches(
            format,
        ) == !format.non_interleaved,
        S::format().matches(format) ==> <LinearPcm<NonInterleaved<'a, S>> as Buffer<
            'a,
        >>::format_matches(format) == format.non_interleaved,
        !S::format().matches(format) ==> !<LinearPcm<&'a mut [S]> as Buffer<'a>>::format_matches(
            format,
        ) && !<LinearPcm<NonInterleaved<'a, S>> as Buffer<'a>>::format_matches(format),
{
}

/// A buffer whose samples fill its bytes is exactly as large as `frames`
/// frames need if and only if its size in bytes is the product of the frame
/// count, its channel count and the size of a sample; it then holds as many
/// samples as the product of the frame count and the channel count.
pub proof fn lemma_exact_region_fits<'a, S: Sample>(buffer: AudioBuffer<'a, S>, frames: u32)
    requires
        buffer.samples().len() * size_of::<S>() == buffer.data_byte_size,
    ensures
        buffer.holds(frames as nat) <==> buffer.data_byte_size as nat == frames as nat
            * buffer.number_channels as nat * size_of::<S>(),
        buffer.holds(frames as nat) ==> buffer.samples().len() == frames as nat
            * buffer.number_channels as nat,
{
    S::size_agrees();
    let size = size_of::<S>();
    let len = buffer.samples().len();
    let f = frames as nat;
    let c = buffer.number_channels as nat;
    assert(size * (c * f) == f * c * size) by (nonlinear_arith);
    assert(c * f == f * c) by (nonlinear_arith);
    assert(len * size == size * (c * f) ==> len == c * f) by (nonlinear_arith)
        requires
            size > 0,
    ;
}

/// Where the samples of the first buffer fill its bytes, a list fits the
/// interleaved buffer of `S` for `frames` frames if and only if the size of
/// that buffer in bytes is the product of the frame count, its channel count
/// and the size of an `S`. The view of a list that fits has as many samples
/// as the product of the frame count and the channel count; of a list of
/// any other size no view is built.
pub proof fn lemma_interleaved_view_needs_exact_size<'a, S: Sample>(
    view: LinearPcm<&'a mut [S]>,
    frames: u32,
    io_data: Seq<AudioBuffer<'a, S>>,
)
    requires
        io_data.len() >= 1,
        io_data[0].samples().len() * size_of::<S>() == io_data[0].data_byte_size,
    ensures
        <LinearPcm<&'a mut [S]> as Buffer<'a>>::args_fit(frames, io_data) <==> io_data[0].data_byte_size as nat
            == frames as nat * io_data[0].number_channels as nat * size_of::<S>(),
        view.views(frames, io_data) ==> view.samples().len() == frames as nat
            * io_data[0].number_channels as nat,
{
    lemma_exact_region_fits::<S>(io_data[0], frames);
}

} // verus!
