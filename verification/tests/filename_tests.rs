use harmonia::{build_midi_filename, generate_unique_filename, SUFFIX_LEN};
use std::collections::HashSet;

#[test]
fn filename_format_is_exact() {
    assert_eq!(build_midi_filename(1700000000, "a1B2c3D4"), "1700000000_a1B2c3D4.mid");
    assert_eq!(build_midi_filename(0, "00000000"), "0_00000000.mid");
    assert_eq!(build_midi_filename(u64::MAX, "zzzzzzzz"), "18446744073709551615_zzzzzzzz.mid");
}

#[test]
fn generated_names_have_the_documented_shape() {
    let name = generate_unique_filename();
    assert!(name.ends_with(".mid"));
    let stem = &name[..name.len() - 4];
    let (seconds, suffix) = stem.split_once('_').expect("an underscore separates the parts");
    assert!(!seconds.is_empty());
    assert!(seconds.bytes().all(|b| b.is_ascii_digit()));
    assert_eq!(suffix.len(), SUFFIX_LEN);
    assert!(suffix.bytes().all(|b| b.is_ascii_alphanumeric()));
}

#[test]
fn a_thousand_sequential_names_never_collide() {
    let mut seen = HashSet::new();
    for _ in 0..1000 {
        let name = generate_unique_filename();
        assert!(seen.insert(name), "two download names collided");
    }
}
