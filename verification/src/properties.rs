//! The properties a host reads and writes.
//!
//! An Audio Unit has no methods for "how many channels" or "what is your
//! latency". Everything is a numbered property fetched through
//! `GetProperty`, and the host learns the size first by calling
//! `GetPropertyInfo`. Answer the size wrongly and the host writes past the end
//! of its own buffer; answer `InvalidProperty` to something it needs and the
//! unit is quietly not offered.

use vstd::prelude::*;
use vstd::string::StringSliceAdditionalSpecFns;
use vstd::utf8::*;
use crate::sys::{
    AudioStreamBasicDescription, AudioUnitPropertyID, AudioUnitScope, UInt32,
    kAudioFormatFlagIsFloat, kAudioFormatFlagIsNonInterleaved, kAudioFormatFlagIsPacked,
    kAudioFormatLinearPCM, kAudioUnitProperty_BypassEffect,
    kAudioUnitProperty_ElementCount, kAudioUnitProperty_LastRenderError,
    kAudioUnitProperty_Latency, kAudioUnitProperty_MaximumFramesPerSlice,
    kAudioUnitProperty_ParameterInfo, kAudioUnitProperty_ParameterList,
    kAudioUnitProperty_SampleRate, kAudioUnitProperty_StreamFormat, kAudioUnitProperty_TailTime,
    kAudioUnitScope_Global, kAudioUnitScope_Input, kAudioUnitScope_Output,
};

verus! {

/// Bytes in an `AudioStreamBasicDescription`: one `Float64` and eight
/// `UInt32`, with no padding between or after them.
pub const STREAM_DESCRIPTION_SIZE: UInt32 = 40;

/// Bytes in a `Float64`.
pub const FLOAT64_SIZE: UInt32 = 8;

/// Bytes in a `UInt32`.
pub const UINT32_SIZE: UInt32 = 4;

/// Bytes in an `AudioUnitParameterID`.
pub const PARAMETER_ID_SIZE: UInt32 = 4;

/// Bytes in an `OSStatus`.
pub const OSSTATUS_SIZE: UInt32 = 4;

/// Bytes in a pointer on the target.
pub const POINTER_SIZE: UInt32 = usize::BITS / 8;

/// Bytes in an `AudioUnitParameterInfo`, laid out as C lays it out on a
/// target with 4- or 8-byte pointers: the 52-byte name, two pointers, the
/// 4-byte clump id and five more 4-byte fields, and three paddings of
/// `POINTER_SIZE - 4` bytes each (after the name, after the clump id, and at
/// the end, to the pointer's alignment). That is 104 bytes with 8-byte
/// pointers and 84 with 4-byte ones.
pub const PARAMETER_INFO_SIZE: UInt32 = 52 + 2 * POINTER_SIZE + 4 + 20 + 3 * (POINTER_SIZE - 4);

/// The parameter-info size on the two pointer widths there are.
pub proof fn lemma_parameter_info_size()
    ensures
        usize::BITS == 64 ==> POINTER_SIZE == 8 && PARAMETER_INFO_SIZE == 104,
        usize::BITS == 32 ==> POINTER_SIZE == 4 && PARAMETER_INFO_SIZE == 84,
{
}

/// How big a property is, and whether it can be written.
pub struct PropertyInfo {
    pub size: UInt32,
    pub writable: bool,
}

/// What the unit knows about itself, in the form the property calls need.
///
/// The two rates are `Float64` values that the library only carries, never
/// computes with; they are held as their IEEE-754 bit patterns
/// (`f64::to_bits`).
pub struct Layout {
    pub inputs: u32,
    pub outputs: u32,
    pub params: u32,
    pub sample_rate_bits: u64,
    pub max_frames: u32,
    pub latency_samples: u32,
    pub tail_seconds_bits: u64,
}

/// Whether a property is answered in a scope. The stream format and the
/// sample rate belong to the input and output sides; the element count to
/// every scope; the rest to the global scope alone.
pub open spec fn is_answered(id: AudioUnitPropertyID, scope: AudioUnitScope) -> bool {
    if id == kAudioUnitProperty_StreamFormat || id == kAudioUnitProperty_SampleRate {
        scope != kAudioUnitScope_Global
    } else if id == kAudioUnitProperty_ElementCount {
        true
    } else if id == kAudioUnitProperty_MaximumFramesPerSlice || id == kAudioUnitProperty_Latency
        || id == kAudioUnitProperty_TailTime || id == kAudioUnitProperty_ParameterList || id
        == kAudioUnitProperty_ParameterInfo || id == kAudioUnitProperty_LastRenderError || id
        == kAudioUnitProperty_BypassEffect {
        scope == kAudioUnitScope_Global
    } else {
        false
    }
}

/// The size of the value a property holds: the size of its C type, or for
/// the parameter list one parameter id per parameter.
pub open spec fn property_size(id: AudioUnitPropertyID, params: u32) -> int {
    if id == kAudioUnitProperty_StreamFormat {
        STREAM_DESCRIPTION_SIZE as int
    } else if id == kAudioUnitProperty_SampleRate || id == kAudioUnitProperty_Latency || id
        == kAudioUnitProperty_TailTime {
        FLOAT64_SIZE as int
    } else if id == kAudioUnitProperty_MaximumFramesPerSlice || id
        == kAudioUnitProperty_ElementCount || id == kAudioUnitProperty_BypassEffect {
        UINT32_SIZE as int
    } else if id == kAudioUnitProperty_ParameterList {
        params * PARAMETER_ID_SIZE
    } else if id == kAudioUnitProperty_ParameterInfo {
        PARAMETER_INFO_SIZE as int
    } else if id == kAudioUnitProperty_LastRenderError {
        OSSTATUS_SIZE as int
    } else {
        0
    }
}

/// Whether a host may write a property: the stream format, the sample rate,
/// the slice size and the bypass switch.
pub open spec fn property_writable(id: AudioUnitPropertyID) -> bool {
    id == kAudioUnitProperty_StreamFormat || id == kAudioUnitProperty_SampleRate || id
        == kAudioUnitProperty_MaximumFramesPerSlice || id == kAudioUnitProperty_BypassEffect
}

/// The size and writability of a property, or `None` if we do not have it.
///
/// `None` is a legitimate answer: a host asks about far more properties than
/// any one unit has, and expects to be told no.
pub fn info(id: AudioUnitPropertyID, scope: AudioUnitScope, layout: &Layout) -> (res: Option<
    PropertyInfo,
>)
    requires
        id == kAudioUnitProperty_ParameterList && scope == kAudioUnitScope_Global ==> layout.params
            * PARAMETER_ID_SIZE <= u32::MAX,
    ensures
        res is Some <==> is_answered(id, scope),
        res matches Some(p) ==> p.size == property_size(id, layout.params) && p.writable
            == property_writable(id),
        // Only the ten properties the unit implements are ever answered.
        res is Some ==> (id == kAudioUnitProperty_StreamFormat || id == kAudioUnitProperty_SampleRate || id
            == kAudioUnitProperty_MaximumFramesPerSlice || id == kAudioUnitProperty_ElementCount
            || id == kAudioUnitProperty_Latency || id == kAudioUnitProperty_TailTime || id
            == kAudioUnitProperty_ParameterList || id == kAudioUnitProperty_ParameterInfo || id
            == kAudioUnitProperty_LastRenderError || id == kAudioUnitProperty_BypassEffect),
        // The stream format and the sample rate belong to the input and
        // output sides, the element count to every scope, the rest to the
        // global scope alone.
        (id == kAudioUnitProperty_StreamFormat || id == kAudioUnitProperty_SampleRate) ==> (res is Some
            <==> scope != kAudioUnitScope_Global),
        id == kAudioUnitProperty_ElementCount ==> res is Some,
        (id == kAudioUnitProperty_MaximumFramesPerSlice || id == kAudioUnitProperty_Latency || id
            == kAudioUnitProperty_TailTime || id == kAudioUnitProperty_ParameterList || id
            == kAudioUnitProperty_ParameterInfo || id == kAudioUnitProperty_LastRenderError || id
            == kAudioUnitProperty_BypassEffect) ==> (res is Some <==> scope == kAudioUnitScope_Global),
        // The size of each value is that of its C type, and only the stream
        // format, sample rate, slice size and bypass switch are writable.
        id == kAudioUnitProperty_StreamFormat && res is Some ==> res->0.size == STREAM_DESCRIPTION_SIZE && res->0.writable,
        id == kAudioUnitProperty_SampleRate && res is Some ==> res->0.size == FLOAT64_SIZE && res->0.writable,
        id == kAudioUnitProperty_MaximumFramesPerSlice && res is Some ==> res->0.size == UINT32_SIZE && res->0.writable,
        id == kAudioUnitProperty_ElementCount && res is Some ==> res->0.size == UINT32_SIZE && !res->0.writable,
        id == kAudioUnitProperty_Latency && res is Some ==> res->0.size == FLOAT64_SIZE && !res->0.writable,
        id == kAudioUnitProperty_TailTime && res is Some ==> res->0.size == FLOAT64_SIZE && !res->0.writable,
        id == kAudioUnitProperty_ParameterList && res is Some ==> res->0.size == layout.params * PARAMETER_ID_SIZE && !res->0.writable,
        id == kAudioUnitProperty_ParameterInfo && res is Some ==> res->0.size == PARAMETER_INFO_SIZE && !res->0.writable,
        id == kAudioUnitProperty_LastRenderError && res is Some ==> res->0.size == OSSTATUS_SIZE && !res->0.writable,
        id == kAudioUnitProperty_BypassEffect && res is Some ==> res->0.size == UINT32_SIZE && res->0.writable,
{
    if id == kAudioUnitProperty_StreamFormat && scope != kAudioUnitScope_Global {
        Some(PropertyInfo { size: STREAM_DESCRIPTION_SIZE, writable: true })
    } else if id == kAudioUnitProperty_SampleRate && scope != kAudioUnitScope_Global {
        Some(PropertyInfo { size: FLOAT64_SIZE, writable: true })
    } else if id == kAudioUnitProperty_MaximumFramesPerSlice && scope == kAudioUnitScope_Global {
        Some(PropertyInfo { size: UINT32_SIZE, writable: true })
    } else if id == kAudioUnitProperty_ElementCount {
        // A unit with a fixed layout does not let a host add elements.
        Some(PropertyInfo { size: UINT32_SIZE, writable: false })
    } else if id == kAudioUnitProperty_Latency && scope == kAudioUnitScope_Global {
        Some(PropertyInfo { size: FLOAT64_SIZE, writable: false })
    } else if id == kAudioUnitProperty_TailTime && scope == kAudioUnitScope_Global {
        Some(PropertyInfo { size: FLOAT64_SIZE, writable: false })
    } else if id == kAudioUnitProperty_ParameterList && scope == kAudioUnitScope_Global {
        Some(PropertyInfo { size: layout.params * PARAMETER_ID_SIZE, writable: false })
    } else if id == kAudioUnitProperty_ParameterInfo && scope == kAudioUnitScope_Global {
        Some(PropertyInfo { size: PARAMETER_INFO_SIZE, writable: false })
    } else if id == kAudioUnitProperty_LastRenderError && scope == kAudioUnitScope_Global {
        Some(PropertyInfo { size: OSSTATUS_SIZE, writable: false })
    } else if id == kAudioUnitProperty_BypassEffect && scope == kAudioUnitScope_Global {
        Some(PropertyInfo { size: UINT32_SIZE, writable: true })
    } else {
        None
    }
}

/// The property table: which ids are answered in which scopes, how big
/// each value is and which can be written. Nothing outside the ten
/// implemented properties is ever answered.
pub proof fn lemma_property_table(id: AudioUnitPropertyID, scope: AudioUnitScope, params: u32)
    ensures
        // Only the ten properties the unit implements are ever answered.
        is_answered(id, scope) ==> (id == kAudioUnitProperty_StreamFormat || id == kAudioUnitProperty_SampleRate || id
            == kAudioUnitProperty_MaximumFramesPerSlice || id == kAudioUnitProperty_ElementCount
            || id == kAudioUnitProperty_Latency || id == kAudioUnitProperty_TailTime || id
            == kAudioUnitProperty_ParameterList || id == kAudioUnitProperty_ParameterInfo || id
            == kAudioUnitProperty_LastRenderError || id == kAudioUnitProperty_BypassEffect),
        // The stream format and the sample rate belong to the input and
        // output sides, the element count to every scope, the rest to the
        // global scope alone.
        (id == kAudioUnitProperty_StreamFormat || id == kAudioUnitProperty_SampleRate) ==> (is_answered(id, scope)
            <==> scope != kAudioUnitScope_Global),
        id == kAudioUnitProperty_ElementCount ==> is_answered(id, scope),
        (id == kAudioUnitProperty_MaximumFramesPerSlice || id == kAudioUnitProperty_Latency || id
            == kAudioUnitProperty_TailTime || id == kAudioUnitProperty_ParameterList || id
            == kAudioUnitProperty_ParameterInfo || id == kAudioUnitProperty_LastRenderError || id
            == kAudioUnitProperty_BypassEffect) ==> (is_answered(id, scope) <==> scope == kAudioUnitScope_Global),
        // The size of each value is that of its C type, and only the stream
        // format, sample rate, slice size and bypass switch are writable.
        id == kAudioUnitProperty_StreamFormat ==> property_size(id, params) == STREAM_DESCRIPTION_SIZE && property_writable(id),
        id == kAudioUnitProperty_SampleRate ==> property_size(id, params) == FLOAT64_SIZE && property_writable(id),
        id == kAudioUnitProperty_MaximumFramesPerSlice ==> property_size(id, params) == UINT32_SIZE && property_writable(id),
        id == kAudioUnitProperty_ElementCount ==> property_size(id, params) == UINT32_SIZE && !property_writable(id),
        id == kAudioUnitProperty_Latency ==> property_size(id, params) == FLOAT64_SIZE && !property_writable(id),
        id == kAudioUnitProperty_TailTime ==> property_size(id, params) == FLOAT64_SIZE && !property_writable(id),
        id == kAudioUnitProperty_ParameterList ==> property_size(id, params) == params * PARAMETER_ID_SIZE && !property_writable(id),
        id == kAudioUnitProperty_ParameterInfo ==> property_size(id, params) == PARAMETER_INFO_SIZE && !property_writable(id),
        id == kAudioUnitProperty_LastRenderError ==> property_size(id, params) == OSSTATUS_SIZE && !property_writable(id),
        id == kAudioUnitProperty_BypassEffect ==> property_size(id, params) == UINT32_SIZE && property_writable(id),
{
}

/// Every property that is answered has room for a value: only a parameter
/// list with no parameters in it is empty.
pub proof fn lemma_answered_properties_have_a_size(
    id: AudioUnitPropertyID,
    scope: AudioUnitScope,
    params: u32,
)
    requires
        is_answered(id, scope),
    ensures
        property_size(id, params) > 0 || (id == kAudioUnitProperty_ParameterList && params == 0),
        property_size(id, params) >= 0,
{
    lemma_parameter_info_size();
}

/// How many elements a scope has. An effect has one input bus and one
/// output bus, and the global scope has exactly one element by definition;
/// any other scope has none.
pub open spec fn spec_element_count(scope: AudioUnitScope) -> UInt32 {
    if scope == kAudioUnitScope_Global || scope == kAudioUnitScope_Input || scope
        == kAudioUnitScope_Output {
        1
    } else {
        0
    }
}

/// The global, input and output scopes have one element each; every other
/// scope has none.
pub proof fn lemma_element_counts(scope: AudioUnitScope)
    ensures
        (scope == kAudioUnitScope_Global || scope == kAudioUnitScope_Input || scope
            == kAudioUnitScope_Output) ==> spec_element_count(scope) == 1,
        (scope != kAudioUnitScope_Global && scope != kAudioUnitScope_Input && scope
            != kAudioUnitScope_Output) ==> spec_element_count(scope) == 0,
{
}

/// How many elements a scope has.
pub fn element_count(scope: AudioUnitScope) -> (n: UInt32)
    ensures
        n == spec_element_count(scope),
        (scope == kAudioUnitScope_Global || scope == kAudioUnitScope_Input || scope
            == kAudioUnitScope_Output) ==> n == 1,
        (scope != kAudioUnitScope_Global && scope != kAudioUnitScope_Input && scope
            != kAudioUnitScope_Output) ==> n == 0,
{
    if scope == kAudioUnitScope_Global {
        1
    } else if scope == kAudioUnitScope_Input || scope == kAudioUnitScope_Output {
        1
    } else {
        0
    }
}

/// The format flags every stream of this unit has: packed, non-interleaved
/// 32-bit float.
pub open spec fn stream_format_flags() -> UInt32 {
    kAudioFormatFlagIsFloat | kAudioFormatFlagIsPacked | kAudioFormatFlagIsNonInterleaved
}

/// The stream format a scope runs at.
///
/// Non-interleaved 32-bit float, which is what every modern host wants: one
/// buffer per channel, so a "frame" in each buffer is one 4-byte sample and
/// the channel count lives in the buffer list. The input scope carries the
/// input channels; every other scope the output channels.
pub fn stream_format(scope: AudioUnitScope, layout: &Layout) -> (f: AudioStreamBasicDescription)
    ensures
        f.mSampleRateBits == layout.sample_rate_bits,
        f.mFormatID == kAudioFormatLinearPCM,
        f.mFormatFlags == stream_format_flags(),
        f.mFormatFlags == kAudioFormatFlagIsFloat | kAudioFormatFlagIsPacked
            | kAudioFormatFlagIsNonInterleaved,
        f.mBytesPerPacket == 4,
        f.mFramesPerPacket == 1,
        f.mBytesPerFrame == 4,
        f.mChannelsPerFrame == (if scope == kAudioUnitScope_Input {
            layout.inputs
        } else {
            layout.outputs
        }),
        f.mBitsPerChannel == 32,
        f.mReserved == 0,
        // float, packed and non-interleaved
        f.mFormatFlags & kAudioFormatFlagIsFloat != 0,
        f.mFormatFlags & kAudioFormatFlagIsPacked != 0,
        f.mFormatFlags & kAudioFormatFlagIsNonInterleaved != 0,
        // a frame in each buffer is exactly one sample
        f.mBytesPerFrame * 8 == f.mBitsPerChannel,
        f.mBytesPerPacket == f.mBytesPerFrame * f.mFramesPerPacket,
{
    let channels = if scope == kAudioUnitScope_Input {
        layout.inputs
    } else {
        layout.outputs
    };
    let flags: u32 = kAudioFormatFlagIsFloat | kAudioFormatFlagIsPacked
        | kAudioFormatFlagIsNonInterleaved;
    assert(flags & 1u32 != 0 && flags & 8u32 != 0 && flags & 32u32 != 0) by (bit_vector)
        requires
            flags == 1u32 | 8u32 | 32u32,
    ;
    AudioStreamBasicDescription {
        mSampleRateBits: layout.sample_rate_bits,
        mFormatID: kAudioFormatLinearPCM,
        mFormatFlags: flags,
        mBytesPerPacket: 4,
        mFramesPerPacket: 1,
        mBytesPerFrame: 4,
        mChannelsPerFrame: channels,
        mBitsPerChannel: 32,
        mReserved: 0,
    }
}

/// The room for a name in `AudioUnitParameterInfo`, terminator included.
pub const NAME_CAPACITY: usize = 52;

/// The largest character boundary of `bytes` at or below `i` (0 when `i` is
/// not positive).
pub open spec fn last_boundary_at_or_below(bytes: Seq<u8>, i: int) -> int
    decreases i,
{
    if i <= 0 {
        0
    } else if is_char_boundary(bytes, i) {
        i
    } else {
        last_boundary_at_or_below(bytes, i - 1)
    }
}

/// How many bytes of a name's UTF-8 encoding `write_name` keeps: as many as
/// fit beside the terminator, cut back to the last character boundary.
pub open spec fn written_name_len(bytes: Seq<u8>) -> int {
    last_boundary_at_or_below(
        bytes,
        if bytes.len() < NAME_CAPACITY - 1 {
            bytes.len() as int
        } else {
            NAME_CAPACITY - 1
        },
    )
}

/// `last_boundary_at_or_below` is a character boundary, and no boundary lies
/// between it and `i`.
proof fn lemma_last_boundary(bytes: Seq<u8>, i: int)
    requires
        valid_utf8(bytes),
        0 <= i <= bytes.len(),
    ensures
        0 <= last_boundary_at_or_below(bytes, i) <= i,
        is_char_boundary(bytes, last_boundary_at_or_below(bytes, i)),
        forall|j: int|
            last_boundary_at_or_below(bytes, i) < j <= i ==> !is_char_boundary(bytes, j),
    decreases i,
{
    if i > 0 && !is_char_boundary(bytes, i) {
        lemma_last_boundary(bytes, i - 1);
    }
}

/// What `write_name` keeps of a name is the longest prefix of its UTF-8
/// encoding that fits in 51 bytes and ends on a character boundary; it is
/// itself valid UTF-8 and decodes to the name's first characters; and a name
/// of at most 51 bytes is kept whole.
pub proof fn lemma_written_name_is_a_prefix(name: Seq<char>)
    ensures
        ({
            let bytes = encode_utf8(name);
            let end = written_name_len(bytes);
            &&& 0 <= end <= bytes.len()
            &&& end < NAME_CAPACITY
            &&& is_char_boundary(bytes, end)
            &&& forall|j: int|
                end < j <= bytes.len() && j < NAME_CAPACITY ==> !is_char_boundary(bytes, j)
            &&& bytes.len() < NAME_CAPACITY ==> end == bytes.len()
            &&& valid_utf8(bytes.subrange(0, end))
            &&& decode_utf8(bytes.subrange(0, end)).is_prefix_of(name)
        }),
{
    broadcast use encode_utf8_valid_utf8, encode_utf8_decode_utf8, is_char_boundary_start_end_of_seq;

    let bytes = encode_utf8(name);
    let limit: int = if bytes.len() < NAME_CAPACITY - 1 {
        bytes.len() as int
    } else {
        NAME_CAPACITY - 1
    };
    lemma_last_boundary(bytes, limit);
    let end = written_name_len(bytes);
    if bytes.len() < NAME_CAPACITY {
        assert(is_char_boundary(bytes, bytes.len() as int));
    }
    valid_utf8_split(bytes, end);
    decode_utf8_split(bytes, end);
    let head = decode_utf8(bytes.subrange(0, end));
    assert(name =~= head + decode_utf8(bytes.subrange(end, bytes.len() as int)));
    assert forall|k: int| 0 <= k < head.len() implies head[k] == name[k] by {
        assert(name[k] == (head + decode_utf8(bytes.subrange(end, bytes.len() as int)))[k]);
    }
}

/// Copy a name into the fixed array `AudioUnitParameterInfo` uses, which is
/// 52 bytes and must be NUL-terminated.
///
/// One byte is reserved for the terminator, and the truncation is on a
/// character boundary so a multi-byte name cannot be cut in half. The bytes
/// after the terminator are left as they were.
pub fn write_name(dst: &mut [i8; 52], name: &str)
    ensures
        0 <= written_name_len(name.spec_bytes()) < NAME_CAPACITY,
        // what is kept is the longest prefix of at most 51 bytes that ends on
        // a character boundary
        written_name_len(name.spec_bytes()) <= 51,
        written_name_len(name.spec_bytes()) <= name.spec_bytes().len(),
        is_char_boundary(name.spec_bytes(), written_name_len(name.spec_bytes())),
        forall|j: int|
            written_name_len(name.spec_bytes()) < j <= name.spec_bytes().len() && j <= 51
                ==> !is_char_boundary(name.spec_bytes(), j),
        name.spec_bytes().len() <= 51 ==> written_name_len(name.spec_bytes())
            == name.spec_bytes().len(),
        forall|k: int|
            0 <= k < written_name_len(name.spec_bytes()) ==> final(dst)@[k] == name.spec_bytes()[k]
                as i8 && final(dst)@[k] as u8 == name.spec_bytes()[k],
        final(dst)@[written_name_len(name.spec_bytes())] == 0i8,
        forall|k: int|
            written_name_len(name.spec_bytes()) < k < NAME_CAPACITY ==> final(dst)@[k] == old(
                dst,
            )@[k],
{
    let ghost b = name.spec_bytes();
    let bytes: &[u8] = name.as_bytes();
    let ghost limit: int = if b.len() < 51 { b.len() as int } else { 51 };
    let mut end: usize = if bytes.len() < 51 { bytes.len() } else { 51 };
    while end > 0 && !name.is_char_boundary(end)
        invariant
            0 <= end <= limit,
            last_boundary_at_or_below(b, end as int) == last_boundary_at_or_below(b, limit),
            b == name.spec_bytes(),
            bytes@ == b,
            limit == (if b.len() < 51 { b.len() as int } else { 51 }),
        decreases end,
    {
        end = end - 1;
    }
    assert(end as int == written_name_len(b));
    proof {
        broadcast use encode_utf8_valid_utf8, is_char_boundary_start_end_of_seq;

        lemma_last_boundary(b, limit);
        if b.len() <= 51 {
            assert(is_char_boundary(b, b.len() as int));
        }
    }
    let mut i: usize = 0;
    while i < end
        invariant
            0 <= i <= end,
            end <= limit <= 51,
            limit <= b.len(),
            bytes@ == b,
            forall|k: int| 0 <= k < i ==> dst@[k] == b[k] as i8 && dst@[k] as u8 == b[k],
            forall|k: int| i <= k < 52 ==> dst@[k] == old(dst)@[k],
        decreases end - i,
    {
        let byte: u8 = bytes[i];
        let c: i8 = byte as i8;
        assert(c as u8 == byte) by (bit_vector)
            requires
                c == byte as i8,
        ;
        dst[i] = c;
        i = i + 1;
    }
    dst[end] = 0;
}

} // verus!
