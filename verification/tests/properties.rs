use auv2::properties::{
    element_count, info, stream_format, write_name, Layout, PropertyInfo, FLOAT64_SIZE,
    OSSTATUS_SIZE, PARAMETER_INFO_SIZE, STREAM_DESCRIPTION_SIZE, UINT32_SIZE,
};
use auv2::sys::{
    AudioUnitParameterID, AudioUnitPropertyID, AudioUnitScope, OSStatus, UInt32,
    kAudioFormatFlagIsFloat, kAudioFormatFlagIsNonInterleaved, kAudioFormatFlagIsPacked,
    kAudioFormatLinearPCM, kAudioUnitProperty_BypassEffect, kAudioUnitProperty_ClassInfo,
    kAudioUnitProperty_CocoaUI, kAudioUnitProperty_ElementCount,
    kAudioUnitProperty_LastRenderError, kAudioUnitProperty_Latency,
    kAudioUnitProperty_MaximumFramesPerSlice, kAudioUnitProperty_ParameterInfo,
    kAudioUnitProperty_ParameterList, kAudioUnitProperty_SampleRate,
    kAudioUnitProperty_StreamFormat, kAudioUnitProperty_TailTime, kAudioUnitScope_Global,
    kAudioUnitScope_Input, kAudioUnitScope_Output,
};
use std::mem::{align_of, size_of};

fn layout() -> Layout {
    Layout {
        inputs: 2,
        outputs: 2,
        params: 7,
        sample_rate_bits: 48_000.0f64.to_bits(),
        max_frames: 512,
        latency_samples: 0,
        tail_seconds_bits: 0.0f64.to_bits(),
    }
}

/// The size a `#[repr(C)]` struct with these fields (size, alignment) has.
fn c_struct_size(fields: &[(usize, usize)]) -> usize {
    let mut offset = 0;
    let mut align = 1;
    for &(size, a) in fields {
        offset = (offset + a - 1) / a * a;
        offset += size;
        align = align.max(a);
    }
    (offset + align - 1) / align * align
}

fn stream_description_size() -> UInt32 {
    let mut fields = vec![(size_of::<f64>(), align_of::<f64>())];
    for _ in 0..8 {
        fields.push((size_of::<UInt32>(), align_of::<UInt32>()));
    }
    c_struct_size(&fields) as UInt32
}

fn parameter_info_size() -> UInt32 {
    // A pointer is the width of `usize`.
    let ptr = (size_of::<usize>(), align_of::<usize>());
    let u32f = (size_of::<UInt32>(), align_of::<UInt32>());
    let f32f = (size_of::<f32>(), align_of::<f32>());
    c_struct_size(&[(52, 1), ptr, u32f, ptr, u32f, f32f, f32f, f32f, u32f]) as UInt32
}

#[test]
fn properties_agree_about_their_own_size() {
    let l = layout();
    let cases: &[(AudioUnitPropertyID, AudioUnitScope, UInt32)] = &[
        (
            kAudioUnitProperty_StreamFormat,
            kAudioUnitScope_Output,
            stream_description_size(),
        ),
        (
            kAudioUnitProperty_SampleRate,
            kAudioUnitScope_Output,
            size_of::<f64>() as UInt32,
        ),
        (
            kAudioUnitProperty_MaximumFramesPerSlice,
            kAudioUnitScope_Global,
            size_of::<UInt32>() as UInt32,
        ),
        (
            kAudioUnitProperty_ParameterList,
            kAudioUnitScope_Global,
            7 * size_of::<AudioUnitParameterID>() as UInt32,
        ),
        (
            kAudioUnitProperty_ParameterInfo,
            kAudioUnitScope_Global,
            parameter_info_size(),
        ),
    ];
    for (id, scope, want) in cases {
        let got = info(*id, *scope, &l)
            .unwrap_or_else(|| panic!("property {id} is not answered in scope {scope}"));
        assert_eq!(got.size, *want, "property {id} reports the wrong size");
    }
}

#[test]
fn an_unknown_property_is_refused() {
    let l = layout();
    // A real property, in a scope it does not belong to.
    assert!(info(kAudioUnitProperty_Latency, kAudioUnitScope_Input, &l).is_none());
    // And one this unit simply does not implement.
    assert!(info(kAudioUnitProperty_CocoaUI, kAudioUnitScope_Global, &l).is_none());
}

#[test]
fn the_stream_format_is_non_interleaved_float() {
    let f = stream_format(kAudioUnitScope_Output, &layout());
    assert_eq!(f.mFormatID, kAudioFormatLinearPCM);
    assert!(f.mFormatFlags & kAudioFormatFlagIsFloat != 0, "not float");
    assert!(
        f.mFormatFlags & kAudioFormatFlagIsNonInterleaved != 0,
        "not non-interleaved"
    );
    assert_eq!(f.mBitsPerChannel, 32);
    // Per *buffer*, and each buffer is one channel when non-interleaved.
    assert_eq!(f.mBytesPerFrame, 4, "a frame is one float per buffer");
    assert_eq!(f.mChannelsPerFrame, 2);
}

fn read_name(dst: &[i8; 52]) -> Vec<u8> {
    dst.iter().take_while(|c| **c != 0).map(|c| *c as u8).collect()
}

#[test]
fn a_name_is_truncated_on_a_character_boundary_and_terminated() {
    let mut dst = [0 as i8; 52];
    write_name(&mut dst, "Decay");
    let s: Vec<u8> = read_name(&dst);
    assert_eq!(String::from_utf8(s).unwrap(), "Decay");

    // Longer than the array, and multi-byte, so a naive truncation would
    // leave half a character and an invalid string.
    let long = "é".repeat(40);
    write_name(&mut dst, &long);
    let s: Vec<u8> = read_name(&dst);
    assert!(String::from_utf8(s).is_ok(), "the name was cut in half");
    assert_eq!(dst[51], 0, "the array is not terminated");
}

#[test]
fn the_size_constants_are_the_c_layouts() {
    assert_eq!(STREAM_DESCRIPTION_SIZE, stream_description_size());
    assert_eq!(PARAMETER_INFO_SIZE, parameter_info_size());
    assert_eq!(FLOAT64_SIZE as usize, size_of::<f64>());
    assert_eq!(UINT32_SIZE as usize, size_of::<UInt32>());
    assert_eq!(OSSTATUS_SIZE as usize, size_of::<OSStatus>());
}

fn expect(id: AudioUnitPropertyID, scope: AudioUnitScope, size: UInt32, writable: bool) {
    let l = layout();
    let got: PropertyInfo = info(id, scope, &l).expect("answered");
    assert_eq!(got.size, size, "size of {id} in {scope}");
    assert_eq!(got.writable, writable, "writability of {id} in {scope}");
}

#[test]
fn every_answered_property_has_its_size_and_writability() {
    for scope in [kAudioUnitScope_Input, kAudioUnitScope_Output] {
        expect(kAudioUnitProperty_StreamFormat, scope, 40, true);
        expect(kAudioUnitProperty_SampleRate, scope, 8, true);
        expect(kAudioUnitProperty_ElementCount, scope, 4, false);
    }
    let g = kAudioUnitScope_Global;
    expect(kAudioUnitProperty_MaximumFramesPerSlice, g, 4, true);
    expect(kAudioUnitProperty_ElementCount, g, 4, false);
    expect(kAudioUnitProperty_Latency, g, 8, false);
    expect(kAudioUnitProperty_TailTime, g, 8, false);
    expect(kAudioUnitProperty_ParameterList, g, 28, false);
    expect(kAudioUnitProperty_ParameterInfo, g, parameter_info_size(), false);
    expect(kAudioUnitProperty_LastRenderError, g, 4, false);
    expect(kAudioUnitProperty_BypassEffect, g, 4, true);
    // The element count is answered in a scope no other property knows.
    expect(kAudioUnitProperty_ElementCount, 7, 4, false);
}

#[test]
fn properties_outside_their_scope_are_refused() {
    let l = layout();
    assert!(info(kAudioUnitProperty_StreamFormat, kAudioUnitScope_Global, &l).is_none());
    assert!(info(kAudioUnitProperty_SampleRate, kAudioUnitScope_Global, &l).is_none());
    for id in [
        kAudioUnitProperty_MaximumFramesPerSlice,
        kAudioUnitProperty_Latency,
        kAudioUnitProperty_TailTime,
        kAudioUnitProperty_ParameterList,
        kAudioUnitProperty_ParameterInfo,
        kAudioUnitProperty_LastRenderError,
        kAudioUnitProperty_BypassEffect,
    ] {
        assert!(info(id, kAudioUnitScope_Input, &l).is_none());
        assert!(info(id, kAudioUnitScope_Output, &l).is_none());
    }
    assert!(info(kAudioUnitProperty_ClassInfo, kAudioUnitScope_Global, &l).is_none());
    assert!(info(9999, kAudioUnitScope_Global, &l).is_none());
}

#[test]
fn an_empty_parameter_list_has_size_zero() {
    let mut l = layout();
    l.params = 0;
    let got = info(kAudioUnitProperty_ParameterList, kAudioUnitScope_Global, &l).unwrap();
    assert_eq!(got.size, 0);
}

#[test]
fn element_counts() {
    assert_eq!(element_count(kAudioUnitScope_Global), 1);
    assert_eq!(element_count(kAudioUnitScope_Input), 1);
    assert_eq!(element_count(kAudioUnitScope_Output), 1);
    assert_eq!(element_count(3), 0);
    assert_eq!(element_count(u32::MAX), 0);
}

#[test]
fn the_input_scope_has_the_input_channels_and_the_rate_is_carried() {
    let mut l = layout();
    l.inputs = 1;
    l.outputs = 6;
    let i = stream_format(kAudioUnitScope_Input, &l);
    let o = stream_format(kAudioUnitScope_Output, &l);
    let g = stream_format(kAudioUnitScope_Global, &l);
    assert_eq!(i.mChannelsPerFrame, 1);
    assert_eq!(o.mChannelsPerFrame, 6);
    assert_eq!(g.mChannelsPerFrame, 6);
    assert_eq!(f64::from_bits(i.mSampleRateBits), 48_000.0);
    assert_eq!(
        o.mFormatFlags,
        kAudioFormatFlagIsFloat | kAudioFormatFlagIsPacked | kAudioFormatFlagIsNonInterleaved
    );
    assert_eq!(o.mFormatFlags, 41);
    assert_eq!(o.mBytesPerPacket, 4);
    assert_eq!(o.mFramesPerPacket, 1);
    assert_eq!(o.mReserved, 0);
}

#[test]
fn a_name_that_fits_is_written_whole() {
    let name = "a".repeat(51);
    let mut dst = [0x55 as i8; 52];
    write_name(&mut dst, &name);
    assert_eq!(read_name(&dst), name.as_bytes());
    assert_eq!(dst[51], 0);
}

#[test]
fn a_name_one_byte_too_long_loses_its_last_byte() {
    let name = "b".repeat(52);
    let mut dst = [0x55 as i8; 52];
    write_name(&mut dst, &name);
    assert_eq!(read_name(&dst), &name.as_bytes()[..51]);
}

#[test]
fn the_bytes_after_the_terminator_are_left_alone() {
    let mut dst = [0x55 as i8; 52];
    write_name(&mut dst, "Gain");
    assert_eq!(&dst[..5], &[b'G' as i8, b'a' as i8, b'i' as i8, b'n' as i8, 0]);
    assert!(dst[5..].iter().all(|c| *c == 0x55));
}

#[test]
fn a_long_two_byte_name_keeps_fifty_bytes() {
    let long = "é".repeat(40);
    let mut dst = [0x55 as i8; 52];
    write_name(&mut dst, &long);
    assert_eq!(read_name(&dst).len(), 50);
    assert_eq!(dst[50], 0);
    assert_eq!(String::from_utf8(read_name(&dst)).unwrap(), "é".repeat(25));
}

#[test]
fn four_byte_characters_are_not_split() {
    // 13 four-byte characters are 52 bytes; only 12 fit beside the NUL.
    let name = "🎛".repeat(13);
    let mut dst = [0 as i8; 52];
    write_name(&mut dst, &name);
    assert_eq!(String::from_utf8(read_name(&dst)).unwrap(), "🎛".repeat(12));
    assert_eq!(dst[48], 0);
}

#[test]
fn an_empty_name_is_just_a_terminator() {
    let mut dst = [0x55 as i8; 52];
    write_name(&mut dst, "");
    assert_eq!(dst[0], 0);
    assert!(dst[1..].iter().all(|c| *c == 0x55));
}
