use harmonia::{
    build_generate_body, encode_generate_request, GenerateRequest, GenerationError, Note, Style,
};

#[test]
fn request_body_is_the_exact_document() {
    let request = GenerateRequest {
        bpm_milli: 120_000,
        duration: 128,
        scale: Note::CSharp,
        style: Style::AcousticGrand,
        time_signature_num: 4,
        time_signature_den: 4,
    };
    assert_eq!(
        encode_generate_request(&request),
        "{\"bpm\":120.000,\"duration\":128,\"scale\":\"C#\",\"style\":\"Acoustic Grand\",\
         \"timeSignatureNum\":4,\"timeSignatureDen\":4}"
    );
}

#[test]
fn fractional_tempo_keeps_three_digits() {
    let request = GenerateRequest {
        bpm_milli: 132_500,
        duration: 128,
        scale: Note::A,
        style: Style::Violin,
        time_signature_num: 3,
        time_signature_den: 4,
    };
    assert_eq!(
        encode_generate_request(&request),
        "{\"bpm\":132.500,\"duration\":128,\"scale\":\"A\",\"style\":\"Violin\",\
         \"timeSignatureNum\":3,\"timeSignatureDen\":4}"
    );
}

#[test]
fn negative_time_signature_values_carry_their_sign() {
    let request = GenerateRequest {
        bpm_milli: 60_001,
        duration: 128,
        scale: Note::B,
        style: Style::Gunshot,
        time_signature_num: -3,
        time_signature_den: -1,
    };
    assert_eq!(
        encode_generate_request(&request),
        "{\"bpm\":60.001,\"duration\":128,\"scale\":\"B\",\"style\":\"Gunshot\",\
         \"timeSignatureNum\":-3,\"timeSignatureDen\":-1}"
    );
}

#[test]
fn build_body_fails_fast_without_a_style() {
    let body = build_generate_body(120_000, None, Note::CSharp, 4, 4);
    assert_eq!(body, Err(GenerationError::NoStyleSelected));
}

#[test]
fn build_body_frames_the_selected_style() {
    let body = build_generate_body(120_000, Some(Style::Koto), Note::E, 6, 8).unwrap();
    assert_eq!(
        body,
        "{\"bpm\":120.000,\"duration\":128,\"scale\":\"E\",\"style\":\"Koto\",\
         \"timeSignatureNum\":6,\"timeSignatureDen\":8}"
    );
}
