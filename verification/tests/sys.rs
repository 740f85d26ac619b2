use auv2::sys::{
    fourcc, kAudioFormatLinearPCM, kAudioUnitType_Effect, kAudioUnitType_MusicDevice,
    kAudioUnitType_MusicEffect, AudioComponentDescription,
};

#[test]
fn the_type_codes_are_their_four_characters() {
    assert_eq!(fourcc(b"aufx"), kAudioUnitType_Effect);
    assert_eq!(fourcc(b"aumu"), kAudioUnitType_MusicDevice);
    assert_eq!(fourcc(b"aumf"), kAudioUnitType_MusicEffect);
    assert_eq!(fourcc(b"lpcm"), kAudioFormatLinearPCM);
}

#[test]
fn fourcc_is_big_endian() {
    assert_eq!(fourcc(&[1, 2, 3, 4]), 0x0102_0304);
    assert_eq!(fourcc(&[0xff, 0, 0, 0]), 0xff00_0000);
    assert_eq!(fourcc(&[0, 0, 0, 0xff]), 0xff);
    assert_eq!(fourcc(&[0xff; 4]), u32::MAX);
}

#[test]
fn fourcc_round_trips_through_its_bytes() {
    for s in [*b"aufx", *b"NoOb", [0, 1, 0x80, 0xff]] {
        assert_eq!(fourcc(&s).to_be_bytes(), s);
    }
}

#[test]
fn a_description_compares_by_its_fields() {
    let a = AudioComponentDescription {
        componentType: kAudioUnitType_Effect,
        componentSubType: fourcc(b"NoOb"),
        componentManufacturer: fourcc(b"Noob"),
        componentFlags: 0,
        componentFlagsMask: 0,
    };
    let mut b = a;
    assert_eq!(a, b);
    b.componentFlags = 1;
    assert_ne!(a, b);
    assert_eq!(AudioComponentDescription::default().componentType, 0);
}

#[test]
fn fourcc_keeps_the_order_of_its_spellings() {
    let spellings = [*b"aufx", *b"aumf", *b"aumu", *b"lpcm", [0, 0, 0, 1], [0, 0, 1, 0], [0xff, 0, 0, 0]];
    for a in spellings {
        for b in spellings {
            assert_eq!(a < b, fourcc(&a) < fourcc(&b), "{a:?} against {b:?}");
        }
    }
}
