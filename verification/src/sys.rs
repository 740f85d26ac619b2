//! The parts of Apple's AudioUnit C API that this backend speaks, as plain
//! values: the scalar types, the status codes, the selectors, the property
//! and scope numbers, the format codes and flags, and the two records whose
//! fields are all integers.
//!
//! Names follow `AudioToolbox/AudioComponent.h`, `AudioToolbox/AUComponent.h`
//! and `CoreAudioTypes/CoreAudioBaseTypes.h`.

use vstd::prelude::*;

verus! {

pub type OSStatus = i32;
pub type OSType = u32;
pub type UInt32 = u32;
pub type SInt16 = i16;
pub type SInt32 = i32;
pub type Boolean = u8;

/// Everything went well.
pub const noErr: OSStatus = 0;

// The errors an Audio Unit is expected to be able to return.
pub const kAudioUnitErr_InvalidProperty: OSStatus = -10879;
pub const kAudioUnitErr_InvalidParameter: OSStatus = -10878;
pub const kAudioUnitErr_InvalidElement: OSStatus = -10877;
pub const kAudioUnitErr_NoConnection: OSStatus = -10876;
pub const kAudioUnitErr_FailedInitialization: OSStatus = -10875;
pub const kAudioUnitErr_TooManyFramesToProcess: OSStatus = -10874;
pub const kAudioUnitErr_InvalidPropertyValue: OSStatus = -10851;
pub const kAudioUnitErr_PropertyNotInUse: OSStatus = -10850;
pub const kAudioUnitErr_Initialized: OSStatus = -10849;
pub const kAudioUnitErr_InvalidOfflineRender: OSStatus = -10848;
pub const kAudioUnitErr_Unauthorized: OSStatus = -10847;
pub const kAudioUnitErr_Uninitialized: OSStatus = -10867;

/// The big-endian number that a four-character code stands for: the first
/// character in the most significant byte.
pub open spec fn spec_fourcc(s: Seq<u8>) -> int
    recommends
        s.len() == 4,
{
    s[0] * 0x1000000 + s[1] * 0x10000 + s[2] * 0x100 + s[3]
}

/// A four-character code, written the way Apple writes them.
pub fn fourcc(s: &[u8; 4]) -> (code: OSType)
    ensures
        code as int == spec_fourcc(s@),
        code as int == s@[0] * 0x1000000 + s@[1] * 0x10000 + s@[2] * 0x100 + s@[3],
{
    let a: u8 = s[0];
    let b: u8 = s[1];
    let c: u8 = s[2];
    let d: u8 = s[3];
    let code: u32 = ((a as u32) << 24u32) | ((b as u32) << 16u32) | ((c as u32) << 8u32) | (
    d as u32);
    assert(code as int == a * 0x1000000 + b * 0x10000 + c * 0x100 + d) by (bit_vector)
        requires
            code == ((a as u32) << 24u32) | ((b as u32) << 16u32) | ((c as u32) << 8u32) | (
            d as u32),
    ;
    code
}

/// The four bytes a code is made of, most significant first: what `fourcc`
/// undoes.
pub open spec fn spec_fourcc_bytes(code: OSType) -> Seq<u8> {
    seq![(code / 0x1000000) as u8, (code / 0x10000 % 0x100) as u8, (code / 0x100 % 0x100) as u8, (code % 0x100) as u8]
}

/// No two spellings share a code, and every code is spelled by its own
/// four bytes: `fourcc` is a bijection between four-byte strings and `OSType`.
pub proof fn lemma_fourcc_round_trip(s: Seq<u8>, code: OSType)
    requires
        s.len() == 4,
    ensures
        spec_fourcc(s) == code <==> spec_fourcc_bytes(code) == s,
{
    let (a, b, c, d) = (s[0], s[1], s[2], s[3]);
    assert(0 <= spec_fourcc(s) <= 0xffff_ffff) by (nonlinear_arith)
        requires
            spec_fourcc(s) == a * 0x1000000 + b * 0x10000 + c * 0x100 + d,
            0 <= a < 256,
            0 <= b < 256,
            0 <= c < 256,
            0 <= d < 256,
    ;
    if spec_fourcc(s) == code {
        assert(code / 0x1000000 == a && code / 0x10000 % 0x100 == b && code / 0x100 % 0x100 == c
            && code % 0x100 == d) by (nonlinear_arith)
            requires
                code == a * 0x1000000 + b * 0x10000 + c * 0x100 + d,
                0 <= a < 256,
                0 <= b < 256,
                0 <= c < 256,
                0 <= d < 256,
        ;
        assert(spec_fourcc_bytes(code) =~= s);
    }
    if spec_fourcc_bytes(code) == s {
        let q = code as int;
        assert(q == (q / 0x1000000) * 0x1000000 + (q / 0x10000 % 0x100) * 0x10000 + (q / 0x100
            % 0x100) * 0x100 + q % 0x100) by (nonlinear_arith)
            requires
                0 <= q <= 0xffff_ffff,
        ;
    }
}

/// Whether four bytes come before four others in lexicographic order: the
/// first byte that differs is smaller.
pub open spec fn bytes_less(a: Seq<u8>, b: Seq<u8>) -> bool
    recommends
        a.len() == 4,
        b.len() == 4,
{
    ||| a[0] < b[0]
    ||| a[0] == b[0] && a[1] < b[1]
    ||| a[0] == b[0] && a[1] == b[1] && a[2] < b[2]
    ||| a[0] == b[0] && a[1] == b[1] && a[2] == b[2] && a[3] < b[3]
}

/// `fourcc` keeps the order of its spellings: one code is below another
/// exactly when its four bytes come first in lexicographic order.
pub proof fn lemma_fourcc_preserves_order(a: Seq<u8>, b: Seq<u8>)
    requires
        a.len() == 4,
        b.len() == 4,
    ensures
        bytes_less(a, b) <==> spec_fourcc(a) < spec_fourcc(b),
{
    let (a0, a1, a2, a3) = (a[0] as int, a[1] as int, a[2] as int, a[3] as int);
    let (b0, b1, b2, b3) = (b[0] as int, b[1] as int, b[2] as int, b[3] as int);
    assert(bytes_less(a, b) <==> a0 * 0x1000000 + a1 * 0x10000 + a2 * 0x100 + a3 < b0 * 0x1000000
        + b1 * 0x10000 + b2 * 0x100 + b3) by (nonlinear_arith)
        requires
            bytes_less(a, b) <==> (a0 < b0 || a0 == b0 && a1 < b1 || a0 == b0 && a1 == b1 && a2 < b2
                || a0 == b0 && a1 == b1 && a2 == b2 && a3 < b3),
            0 <= a0 < 256,
            0 <= a1 < 256,
            0 <= a2 < 256,
            0 <= a3 < 256,
            0 <= b0 < 256,
            0 <= b1 < 256,
            0 <= b2 < 256,
            0 <= b3 < 256,
    ;
}

/// The component types an Audio Unit can be. An effect is `aufx` and an
/// instrument is `aumu`; the choice decides which list in the host the
/// plug-in appears in. Each is `fourcc` of its name.
pub const kAudioUnitType_Effect: OSType = 0x6175_6678;
pub const kAudioUnitType_MusicDevice: OSType = 0x6175_6d75;
pub const kAudioUnitType_MusicEffect: OSType = 0x6175_6d66;

/// The type codes and the PCM format code are `fourcc` of their names:
/// `aufx`, `aumu`, `aumf` and `lpcm` (the bytes are the ASCII letters).
pub proof fn lemma_codes_are_their_names()
    ensures
        spec_fourcc(seq!['a' as u8, 'u' as u8, 'f' as u8, 'x' as u8]) == kAudioUnitType_Effect,
        spec_fourcc(seq!['a' as u8, 'u' as u8, 'm' as u8, 'u' as u8])
            == kAudioUnitType_MusicDevice,
        spec_fourcc(seq!['a' as u8, 'u' as u8, 'm' as u8, 'f' as u8])
            == kAudioUnitType_MusicEffect,
        spec_fourcc(seq!['l' as u8, 'p' as u8, 'c' as u8, 'm' as u8]) == kAudioFormatLinearPCM,
{
}

/// What a host asks a factory for.
#[derive(Clone, Copy, Debug, Default, PartialEq, Eq, Structural)]
pub struct AudioComponentDescription {
    pub componentType: OSType,
    pub componentSubType: OSType,
    pub componentManufacturer: OSType,
    pub componentFlags: UInt32,
    pub componentFlagsMask: UInt32,
}

// The selectors a host looks up.
pub const kAudioUnitInitializeSelect: SInt16 = 0x0001;
pub const kAudioUnitUninitializeSelect: SInt16 = 0x0002;
pub const kAudioUnitGetPropertyInfoSelect: SInt16 = 0x0003;
pub const kAudioUnitGetPropertySelect: SInt16 = 0x0004;
pub const kAudioUnitSetPropertySelect: SInt16 = 0x0005;
pub const kAudioUnitAddPropertyListenerSelect: SInt16 = 0x000A;
pub const kAudioUnitRemovePropertyListenerSelect: SInt16 = 0x000B;
pub const kAudioUnitRemovePropertyListenerWithUserDataSelect: SInt16 = 0x0012;
pub const kAudioUnitAddRenderNotifySelect: SInt16 = 0x000F;
pub const kAudioUnitRemoveRenderNotifySelect: SInt16 = 0x0010;
pub const kAudioUnitGetParameterSelect: SInt16 = 0x0006;
pub const kAudioUnitSetParameterSelect: SInt16 = 0x0007;
pub const kAudioUnitScheduleParametersSelect: SInt16 = 0x0011;
pub const kAudioUnitRenderSelect: SInt16 = 0x000E;
pub const kAudioUnitResetSelect: SInt16 = 0x0009;
pub const kAudioUnitComplexRenderSelect: SInt16 = 0x0013;
pub const kAudioUnitProcessSelect: SInt16 = 0x0014;
pub const kAudioUnitProcessMultipleSelect: SInt16 = 0x0015;

// The properties a host asks about.
pub const kAudioUnitProperty_ClassInfo: UInt32 = 0;
pub const kAudioUnitProperty_MakeConnection: UInt32 = 1;
pub const kAudioUnitProperty_SampleRate: UInt32 = 2;
pub const kAudioUnitProperty_ParameterList: UInt32 = 3;
pub const kAudioUnitProperty_ParameterInfo: UInt32 = 4;
pub const kAudioUnitProperty_StreamFormat: UInt32 = 8;
pub const kAudioUnitProperty_ElementCount: UInt32 = 11;
pub const kAudioUnitProperty_Latency: UInt32 = 12;
pub const kAudioUnitProperty_SupportedNumChannels: UInt32 = 13;
pub const kAudioUnitProperty_MaximumFramesPerSlice: UInt32 = 14;
pub const kAudioUnitProperty_TailTime: UInt32 = 20;
pub const kAudioUnitProperty_BypassEffect: UInt32 = 21;
pub const kAudioUnitProperty_LastRenderError: UInt32 = 22;
pub const kAudioUnitProperty_SetRenderCallback: UInt32 = 23;
pub const kAudioUnitProperty_FactoryPresets: UInt32 = 24;
pub const kAudioUnitProperty_PresentPreset: UInt32 = 36;
pub const kAudioUnitProperty_ElementName: UInt32 = 30;
pub const kAudioUnitProperty_CocoaUI: UInt32 = 31;
pub const kAudioUnitProperty_SupportedChannelLayoutTags: UInt32 = 32;
pub const kAudioUnitProperty_ParameterValueStrings: UInt32 = 16;
pub const kAudioUnitProperty_AudioChannelLayout: UInt32 = 19;
pub const kAudioUnitProperty_ShouldAllocateBuffer: UInt32 = 51;
pub const kAudioUnitProperty_LastRenderSampleTime: UInt32 = 61;

/// Which side of the unit a property is about.
pub type AudioUnitScope = UInt32;

pub const kAudioUnitScope_Global: AudioUnitScope = 0;
pub const kAudioUnitScope_Input: AudioUnitScope = 1;
pub const kAudioUnitScope_Output: AudioUnitScope = 2;

pub type AudioUnitElement = UInt32;
pub type AudioUnitPropertyID = UInt32;
pub type AudioUnitParameterID = UInt32;

/// `fourcc(b"lpcm")`.
pub const kAudioFormatLinearPCM: OSType = 0x6c70_636d;
pub const kAudioFormatFlagIsFloat: UInt32 = 1;
pub const kAudioFormatFlagIsPacked: UInt32 = 8;
pub const kAudioFormatFlagIsNonInterleaved: UInt32 = 32;

/// How a stream's samples are laid out.
///
/// `mSampleRateBits` is the `Float64` sample rate as its IEEE-754 bit
/// pattern (`f64::to_bits`): the library carries the rate and never computes
/// with it.
#[derive(Clone, Copy, Debug, Default)]
pub struct AudioStreamBasicDescription {
    pub mSampleRateBits: u64,
    pub mFormatID: OSType,
    pub mFormatFlags: UInt32,
    pub mBytesPerPacket: UInt32,
    pub mFramesPerPacket: UInt32,
    pub mBytesPerFrame: UInt32,
    pub mChannelsPerFrame: UInt32,
    pub mBitsPerChannel: UInt32,
    pub mReserved: UInt32,
}

/// A SMPTE time, as a host's timestamp carries it.
#[derive(Clone, Copy, Debug, Default)]
pub struct SMPTETime {
    pub mSubframes: SInt16,
    pub mSubframeDivisor: SInt16,
    pub mCounter: UInt32,
    pub mType: UInt32,
    pub mFlags: UInt32,
    pub mHours: SInt16,
    pub mMinutes: SInt16,
    pub mSeconds: SInt16,
    pub mFrames: SInt16,
}

pub type AudioUnitRenderActionFlags = UInt32;

pub const kAudioUnitRenderAction_PreRender: AudioUnitRenderActionFlags = 4;
pub const kAudioUnitRenderAction_PostRender: AudioUnitRenderActionFlags = 8;

pub const kAudioUnitParameterUnit_Generic: UInt32 = 0;
pub const kAudioUnitParameterUnit_Indexed: UInt32 = 1;
pub const kAudioUnitParameterUnit_Boolean: UInt32 = 2;
pub const kAudioUnitParameterUnit_Percent: UInt32 = 3;
pub const kAudioUnitParameterUnit_Seconds: UInt32 = 4;
pub const kAudioUnitParameterUnit_Hertz: UInt32 = 9;
pub const kAudioUnitParameterUnit_Decibels: UInt32 = 13;
pub const kAudioUnitParameterUnit_Milliseconds: UInt32 = 18;

pub const kAudioUnitParameterFlag_CFNameRelease: UInt32 = 0x10;
pub const kAudioUnitParameterFlag_IsHighResolution: UInt32 = 0x80_0000;
pub const kAudioUnitParameterFlag_IsReadable: UInt32 = 0x4000_0000;
pub const kAudioUnitParameterFlag_IsWritable: UInt32 = 0x8000_0000;

} // verus!
