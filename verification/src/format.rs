//! Sample formats and the stream format that a buffer type is checked against.

use vstd::prelude::*;

verus! {

/// The sample types that a linear PCM buffer can be read as.
#[derive(Copy, Clone, Debug, PartialEq, Eq, Structural)]
pub enum SampleFormat {
    /// 32-bit floating point.
    F32,
    /// 32-bit signed integer.
    I32,
    /// 16-bit signed integer.
    I16,
    /// 8-bit signed integer.
    I8,
}

/// How a stream encodes the value of a sample.
#[derive(Copy, Clone, Debug, PartialEq, Eq, Structural)]
pub enum Representation {
    /// Floating point.
    Float,
    /// Two's complement signed integer.
    SignedInteger,
    /// Anything else: unsigned integers, or a description that claims both
    /// of the above.
    Other,
}

/// The order of a sample's bytes in memory, seen from the machine that runs
/// the callback.
#[derive(Copy, Clone, Debug, PartialEq, Eq, Structural)]
pub enum ByteOrder {
    /// The machine's own order: a sample can be read in place.
    Native,
    /// The opposite order.
    Swapped,
}

/// The engine's description of how samples are encoded, as far as a buffer
/// type has to know it.
#[derive(Copy, Clone, Debug, PartialEq, Eq, Structural)]
pub struct StreamFormat {
    /// Whether each channel has a memory region of its own.
    pub non_interleaved: bool,
    /// The width of one sample of one channel, in bits.
    pub bits_per_channel: u32,
    /// How the value of a sample is encoded.
    pub representation: Representation,
    /// The order of the bytes of a sample.
    pub byte_order: ByteOrder,
    /// The number of channels in one frame.
    pub channels_per_frame: u32,
}

/// Format flag: samples are floating point.
pub const IS_FLOAT: u32 = 1;

/// Format flag: samples are big endian.
pub const IS_BIG_ENDIAN: u32 = 2;

/// Format flag: samples are signed integers.
pub const IS_SIGNED_INTEGER: u32 = 4;

/// Format flag: each channel has a buffer of its own.
pub const IS_NON_INTERLEAVED: u32 = 32;

/// Whether every bit of `flag` is set in `word`.
pub open spec fn has_flag(word: u32, flag: u32) -> bool {
    word & flag == flag
}

impl Representation {
    /// The representation that a word of format flags announces: float or
    /// signed integer where exactly one of the two is flagged.
    pub open spec fn of_flags(flags: u32) -> Representation {
        if has_flag(flags, IS_FLOAT) && !has_flag(flags, IS_SIGNED_INTEGER) {
            Representation::Float
        } else if has_flag(flags, IS_SIGNED_INTEGER) && !has_flag(flags, IS_FLOAT) {
            Representation::SignedInteger
        } else {
            Representation::Other
        }
    }
}

impl ByteOrder {
    /// The byte order that a word of format flags announces on a machine
    /// that is big endian or not.
    pub open spec fn of_flags(flags: u32, host_big_endian: bool) -> ByteOrder {
        if has_flag(flags, IS_BIG_ENDIAN) == host_big_endian {
            ByteOrder::Native
        } else {
            ByteOrder::Swapped
        }
    }
}

impl StreamFormat {
    /// The stream format that the engine's raw description stands for.
    pub open spec fn of_raw(
        flags: u32,
        bits_per_channel: u32,
        channels_per_frame: u32,
        host_big_endian: bool,
    ) -> StreamFormat {
        StreamFormat {
            non_interleaved: has_flag(flags, IS_NON_INTERLEAVED),
            bits_per_channel,
            representation: Representation::of_flags(flags),
            byte_order: ByteOrder::of_flags(flags, host_big_endian),
            channels_per_frame,
        }
    }

    /// Decodes the engine's raw description: its word of format flags, the
    /// sample width and the channel count, on a machine of the given byte
    /// order. Bits of `flags` other than the four named ones are ignored.
    pub fn from_raw(
        flags: u32,
        bits_per_channel: u32,
        channels_per_frame: u32,
        host_big_endian: bool,
    ) -> (format: StreamFormat)
        ensures
            format == StreamFormat::of_raw(
                flags,
                bits_per_channel,
                channels_per_frame,
                host_big_endian,
            ),
    {
        let float = flags & IS_FLOAT == IS_FLOAT;
        let signed = flags & IS_SIGNED_INTEGER == IS_SIGNED_INTEGER;
        let big = flags & IS_BIG_ENDIAN == IS_BIG_ENDIAN;
        let representation = if float && !signed {
            Representation::Float
        } else if signed && !float {
            Representation::SignedInteger
        } else {
            Representation::Other
        };
        let byte_order = if big == host_big_endian {
            ByteOrder::Native
        } else {
            ByteOrder::Swapped
        };
        StreamFormat {
            non_interleaved: flags & IS_NON_INTERLEAVED == IS_NON_INTERLEAVED,
            bits_per_channel,
            representation,
            byte_order,
            channels_per_frame,
        }
    }
}

impl SampleFormat {
    /// The size of one sample in bytes.
    pub open spec fn spec_size_in_bytes(self) -> nat {
        match self {
            SampleFormat::F32 => 4,
            SampleFormat::I32 => 4,
            SampleFormat::I16 => 2,
            SampleFormat::I8 => 1,
        }
    }

    /// How a sample of this format encodes its value.
    pub open spec fn spec_representation(self) -> Representation {
        match self {
            SampleFormat::F32 => Representation::Float,
            _ => Representation::SignedInteger,
        }
    }

    /// Whether memory that `format` describes can be read in place as
    /// samples of this format: same width, same representation, and the
    /// machine's own byte order.
    pub open spec fn matches(self, format: StreamFormat) -> bool {
        &&& format.bits_per_channel == 8 * self.spec_size_in_bytes()
        &&& format.representation == self.spec_representation()
        &&& format.byte_order == ByteOrder::Native
    }

    /// The size of one sample in bytes.
    #[verifier::when_used_as_spec(spec_size_in_bytes_usize)]
    pub fn size_in_bytes(&self) -> (n: usize)
        ensures
            n == self.spec_size_in_bytes(),
            1 <= n <= 4,
    {
        match self {
            SampleFormat::F32 => 4,
            SampleFormat::I32 => 4,
            SampleFormat::I16 => 2,
            SampleFormat::I8 => 1,
        }
    }

    /// The size of one sample in bytes, as a machine integer.
    pub open spec fn spec_size_in_bytes_usize(&self) -> usize {
        self.spec_size_in_bytes() as usize
    }

    /// How a sample of this format encodes its value.
    pub fn representation(&self) -> (r: Representation)
        ensures
            r == self.spec_representation(),
    {
        match self {
            SampleFormat::F32 => Representation::Float,
            _ => Representation::SignedInteger,
        }
    }

    /// Decides whether memory that `format` describes can be read in place
    /// as samples of this format.
    pub fn does_match(&self, format: &StreamFormat) -> (b: bool)
        ensures
            b == self.matches(*format),
    {
        let bits: u32 = match self {
            SampleFormat::F32 => 32,
            SampleFormat::I32 => 32,
            SampleFormat::I16 => 16,
            SampleFormat::I8 => 8,
        };
        format.bits_per_channel == bits && format.representation == self.representation()
            && format.byte_order == ByteOrder::Native
    }
}

/// A type whose values are the samples of one format, laid out in memory as
/// the engine lays them out.
pub trait Sample: Sized {
    /// The format whose samples this type holds.
    spec fn format() -> SampleFormat;

    /// The format whose samples this type holds.
    fn sample_format() -> (f: SampleFormat)
        ensures
            f == Self::format(),
    ;

    /// A value of this type takes as many bytes as a sample of its format.
    proof fn size_agrees()
        ensures
            vstd::layout::size_of::<Self>() == Self::format().spec_size_in_bytes(),
    ;
}

/// A 32-bit float sample, held as the 32 bits of its IEEE 754 encoding.
impl Sample for u32 {
    open spec fn format() -> SampleFormat {
        SampleFormat::F32
    }

    fn sample_format() -> (f: SampleFormat) {
        SampleFormat::F32
    }

    proof fn size_agrees() {
        broadcast use vstd::layout::layout_of_primitives;

    }
}

impl Sample for i32 {
    open spec fn format() -> SampleFormat {
        SampleFormat::I32
    }

    fn sample_format() -> (f: SampleFormat) {
        SampleFormat::I32
    }

    proof fn size_agrees() {
        broadcast use vstd::layout::layout_of_primitives;

    }
}

impl Sample for i16 {
    open spec fn format() -> SampleFormat {
        SampleFormat::I16
    }

    fn sample_format() -> (f: SampleFormat) {
        SampleFormat::I16
    }

    proof fn size_agrees() {
        broadcast use vstd::layout::layout_of_primitives;

    }
}

impl Sample for i8 {
    open spec fn format() -> SampleFormat {
        SampleFormat::I8
    }

    fn sample_format() -> (f: SampleFormat) {
        SampleFormat::I8
    }

    proof fn size_agrees() {
        broadcast use vstd::layout::layout_of_primitives;

    }
}

} // verus!
