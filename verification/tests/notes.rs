use aa_standalone::midi_utils::{NoteSym, HIGHEST_NOTE, LOWEST_NOTE};

fn to_freq(number: u8) -> f32 {
    2.0f32.powf((number as i32 - 69) as f32 / 12.0) * 440.0
}

fn float_index(number: u8, voices: u32) -> u32 {
    (12.0 * (to_freq(number) / 130.81).log2()).round().abs() as u32 % voices
}

#[test]
fn numbers_and_notes_correspond() {
    for n in LOWEST_NOTE..=HIGHEST_NOTE {
        let note = NoteSym::from_u8(n);
        assert_ne!(note, NoteSym::NoNote);
        assert_eq!(note.number(), n);
        assert_eq!(NoteSym::try_from_u8(n), Some(note));
    }
    assert_eq!(NoteSym::from_u8(21), NoteSym::A0);
    assert_eq!(NoteSym::from_u8(60), NoteSym::C4);
    assert_eq!(NoteSym::from_u8(61), NoteSym::CS4);
    assert_eq!(NoteSym::from_u8(69), NoteSym::A4);
    assert_eq!(NoteSym::from_u8(108), NoteSym::C8);
    assert_eq!(NoteSym::NoNote.number(), 109);
}

#[test]
fn numbers_without_a_name_are_refused() {
    for n in 0u8..LOWEST_NOTE {
        assert_eq!(NoteSym::try_from_u8(n), None);
    }
    for n in (HIGHEST_NOTE + 1)..=255 {
        assert_eq!(NoteSym::try_from_u8(n), None);
    }
}

#[test]
fn voice_index_is_the_distance_from_c3() {
    assert_eq!(NoteSym::C3.to_index(16), 0);
    assert_eq!(NoteSym::CS3.to_index(16), 1);
    assert_eq!(NoteSym::B2.to_index(16), 1);
    assert_eq!(NoteSym::A4.to_index(16), 5);
    assert_eq!(NoteSym::A4.to_index(100), 21);
    assert_eq!(NoteSym::A0.to_index(100), 27);
    assert_eq!(NoteSym::C8.to_index(100), 60);
    assert_eq!(NoteSym::C8.to_index(1), 0);
    assert_eq!(NoteSym::NoNote.to_index(100), 61);
}

#[test]
fn voice_index_agrees_with_the_frequency_formula() {
    for n in LOWEST_NOTE..=HIGHEST_NOTE {
        for voices in [1u32, 2, 3, 7, 8, 16, 64, 1000] {
            assert_eq!(NoteSym::from_u8(n).to_index(voices), float_index(n, voices), "note {} voices {}", n, voices);
        }
    }
    assert_eq!(NoteSym::NoNote.to_index(1000), float_index(109, 1000));
}

#[test]
fn names_are_as_printed() {
    assert_eq!(NoteSym::A0.name(), "A0");
    assert_eq!(NoteSym::AS0.name(), "AS0");
    assert_eq!(NoteSym::C4.name(), "C4");
    assert_eq!(NoteSym::FS4.name(), "FS4");
    assert_eq!(NoteSym::C8.name(), "C8");
    assert_eq!(NoteSym::AS1.name(), "A1S");
    assert_eq!(NoteSym::NoNote.name(), "None");
    for n in LOWEST_NOTE..=HIGHEST_NOTE {
        let note = NoteSym::from_u8(n);
        if note != NoteSym::AS1 {
            assert_eq!(note.name(), format!("{:?}", note));
        }
    }
}
