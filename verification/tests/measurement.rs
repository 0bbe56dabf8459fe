use rats_tls::canonical::{Measurement, CANONICAL_LEN, MEASUREMENT_LEN};

fn counting() -> [u8; 32] {
    let mut bytes = [0u8; 32];
    for (i, b) in bytes.iter_mut().enumerate() {
        *b = i as u8;
    }
    bytes
}

#[test]
fn zero_measurement_in_canonical_form() {
    let m = Measurement::new([0u8; 32]);
    assert_eq!(m.to_canonical(), "AAAAAAAAAAAAAAAAAAAAAAAAAAAAAAAAAAAAAAAAAAA=");
}

#[test]
fn counting_measurement_in_canonical_form() {
    let m = Measurement::new(counting());
    assert_eq!(m.to_canonical(), "AAECAwQFBgcICQoLDA0ODxAREhMUFRYXGBkaGxwdHh8=");
}

#[test]
fn all_ones_measurement_uses_the_last_symbol_of_the_alphabet() {
    let m = Measurement::new([0xffu8; 32]);
    assert_eq!(m.to_canonical(), "//////////////////////////////////////////8=");
}

#[test]
fn canonical_form_has_its_fixed_length() {
    assert_eq!(MEASUREMENT_LEN, 32);
    assert_eq!(CANONICAL_LEN, 44);
    assert_eq!(Measurement::new(counting()).to_canonical().len(), CANONICAL_LEN);
}

#[test]
fn canonical_form_is_not_the_raw_bytes() {
    let bytes = [b'A'; 32];
    let text = Measurement::new(bytes).to_canonical();
    assert_ne!(text.as_bytes(), &bytes[..]);
    assert_eq!(text, "QUFBQUFBQUFBQUFBQUFBQUFBQUFBQUFBQUFBQUFBQUE=");
}

#[test]
fn round_trip_gives_the_measurement_back() {
    for bytes in [[0u8; 32], [0xffu8; 32], counting(), [0xa5u8; 32]] {
        let m = Measurement::new(bytes);
        let back = Measurement::from_canonical(&m.to_canonical());
        assert_eq!(back, Some(m));
        assert_eq!(back.unwrap().as_bytes(), &bytes);
    }
}

#[test]
fn reading_a_known_text_gives_its_bytes() {
    let m = Measurement::from_canonical("AAECAwQFBgcICQoLDA0ODxAREhMUFRYXGBkaGxwdHh8=").unwrap();
    assert_eq!(m.as_bytes(), &counting());
}

#[test]
fn same_measurement_same_text() {
    let a = Measurement::new(counting());
    let b = Measurement::new(counting());
    assert_eq!(a.to_canonical(), b.to_canonical());
}

#[test]
fn different_measurements_different_texts() {
    let a = Measurement::new([0u8; 32]);
    let mut other = [0u8; 32];
    other[31] = 1;
    let b = Measurement::new(other);
    assert_ne!(a.to_canonical(), b.to_canonical());
}

#[test]
fn text_of_another_length_is_refused() {
    assert_eq!(Measurement::from_canonical(""), None);
    assert_eq!(Measurement::from_canonical("AAAA"), None);
    // 31 bytes and 33 bytes in base64.
    assert_eq!(Measurement::from_canonical("AAAAAAAAAAAAAAAAAAAAAAAAAAAAAAAAAAAAAAAAAA=="), None);
    assert_eq!(
        Measurement::from_canonical("AAAAAAAAAAAAAAAAAAAAAAAAAAAAAAAAAAAAAAAAAAAA"),
        None
    );
}

#[test]
fn text_without_padding_is_refused() {
    assert_eq!(Measurement::from_canonical("AAAAAAAAAAAAAAAAAAAAAAAAAAAAAAAAAAAAAAAAAAA"), None);
}

#[test]
fn text_with_a_foreign_character_is_refused() {
    assert_eq!(Measurement::from_canonical("AAAAAAAAAAAAAAAAAAAAA*AAAAAAAAAAAAAAAAAAAAA="), None);
    assert_eq!(Measurement::from_canonical("AAAAAAAAAAAAAAAAAAAAA AAAAAAAAAAAAAAAAAAAAA="), None);
    // The alphabet for URLs is not the standard one.
    assert_eq!(Measurement::from_canonical("____________________________________________"), None);
}

#[test]
fn text_with_stray_bits_in_its_last_symbol_is_refused() {
    // `B` in the last place would carry bits that belong to no byte.
    assert_eq!(Measurement::from_canonical("AAAAAAAAAAAAAAAAAAAAAAAAAAAAAAAAAAAAAAAAAAB="), None);
}

#[test]
fn from_slice_takes_exactly_thirty_two_bytes() {
    assert_eq!(Measurement::from_slice(&counting()).unwrap().as_bytes(), &counting());
    assert_eq!(Measurement::from_slice(&[0u8; 31]), None);
    assert_eq!(Measurement::from_slice(&[0u8; 33]), None);
    assert_eq!(Measurement::from_slice(&[]), None);
}
