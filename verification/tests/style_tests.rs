use harmonia::{Mode, Note, Style, TimeSignature};

#[test]
fn style_ids_round_trip() {
    for id in 0u8..128 {
        let style = Style::from_id(id).expect("every program number below 128 has a style");
        assert_eq!(style.to_id(), id);
    }
}

#[test]
fn out_of_range_ids_have_no_style() {
    assert!(Style::from_id(128).is_none());
    assert!(Style::from_id(200).is_none());
    assert!(Style::from_id(255).is_none());
}

#[test]
fn style_names_match_the_catalogue() {
    assert_eq!(Style::AcousticGrand.name(), "Acoustic Grand");
    assert_eq!(Style::from_id(0).unwrap().name(), "Acoustic Grand");
    assert_eq!(Style::from_id(40).unwrap().name(), "Violin");
    assert_eq!(Style::from_id(52).unwrap().name(), "Choir Aahs");
    assert_eq!(Style::from_id(81).unwrap().name(), "Lead 2 (sawtooth)");
    assert_eq!(Style::from_id(127).unwrap().name(), "Gunshot");
}

#[test]
fn note_names_cover_the_octave() {
    let notes = [
        (Note::C, "C"),
        (Note::CSharp, "C#"),
        (Note::D, "D"),
        (Note::DSharp, "D#"),
        (Note::E, "E"),
        (Note::F, "F"),
        (Note::FSharp, "F#"),
        (Note::G, "G"),
        (Note::GSharp, "G#"),
        (Note::A, "A"),
        (Note::ASharp, "A#"),
        (Note::B, "B"),
    ];
    for (note, name) in notes {
        assert_eq!(note.name(), name);
    }
}

#[test]
fn mode_names() {
    assert_eq!(Mode::Major.name(), "Major");
    assert_eq!(Mode::Minor.name(), "Minor");
}

#[test]
fn time_signature_indices_round_trip() {
    let signatures = [
        TimeSignature::FourFour,
        TimeSignature::ThreeFour,
        TimeSignature::SixEight,
    ];
    for signature in signatures {
        assert_eq!(TimeSignature::from_index(signature.to_index()), signature);
    }
    assert_eq!(TimeSignature::from_index(7), TimeSignature::FourFour);
}
