use rigela_core::ibmeci::{strip_char_references, Ibmeci, IbmeciVoiceParams};

#[test]
fn voice_params_round_trip_through_registers() {
    let mut eci = Ibmeci::new();
    let params = IbmeciVoiceParams {
        gender: 1,
        head_size: 2,
        pitch_baseline: 3,
        pitch_fluctuation: 4,
        roughness: 5,
        breathiness: 6,
        speed: 7,
        volume: 8,
    };
    eci.set_voice_params(&params);
    let back = eci.get_voice_params();
    assert_eq!(back.gender, 1);
    assert_eq!(back.head_size, 2);
    assert_eq!(back.pitch_baseline, 3);
    // The fluctuation field reads back from the baseline register.
    assert_eq!(back.pitch_fluctuation, 3);
    assert_eq!(back.roughness, 5);
    assert_eq!(back.breathiness, 6);
    assert_eq!(back.speed, 7);
    assert_eq!(back.volume, 8);
    assert_eq!(IbmeciVoiceParams::default().speed, 0);
}

#[test]
fn voices_and_active_voice() {
    let mut eci = Ibmeci::new();
    let voices = eci.get_voices();
    assert_eq!(voices.len(), 8);
    assert_eq!(voices[0], (1, String::from("Adult Male 1")));
    assert_eq!(voices[7], (8, String::from("Elderly Male 1")));
    assert_eq!(eci.active_voice, 0);
    eci.set_voice(3);
    assert_eq!(eci.active_voice, 3);
}

#[test]
fn character_references_are_stripped() {
    // A numeric character reference disappears entirely.
    assert_eq!(strip_char_references(b"ab&#123;cd"), b"abcd".to_vec());
    // Several in a row.
    assert_eq!(strip_char_references(b"&#1;&#23456;x"), b"x".to_vec());
    // An ampersand not starting a reference is kept with what follows.
    assert_eq!(strip_char_references(b"a&b"), b"a&b".to_vec());
    // A broken reference is kept once it stops looking like one.
    assert_eq!(strip_char_references(b"a&#12x;b"), b"a&#12x;b".to_vec());
    // An unterminated reference at the end is dropped.
    assert_eq!(strip_char_references(b"ab&#12"), b"ab".to_vec());
    assert_eq!(strip_char_references(b""), Vec::<u8>::new());
}

#[test]
fn synth_text_is_gbk_encoded() {
    let eci = Ibmeci::new();
    // Plain ASCII encodes to itself in GBK and nothing is stripped.
    assert_eq!(eci.prepare_synth_text("abc"), b"abc".to_vec());
    // A Chinese character gets its two GBK bytes, not its UTF-8 bytes.
    assert_eq!(eci.prepare_synth_text("\u{4E2D}"), vec![0xD6, 0xD0]);
    // A character without a GBK mapping becomes a numeric reference, which
    // the preparation strips.
    assert_eq!(eci.prepare_synth_text("abc\u{200E}"), b"abc".to_vec());
}
