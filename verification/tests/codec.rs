use filedrop::ident::FileDescriptor;
use filedrop::ident::FileDescriptorParamError;

#[test]
fn parse_of_render_gives_back_the_identifier() {
    let fd = FileDescriptor::mint();
    let text = fd.render();
    let back = FileDescriptor::parse(&text).unwrap();
    assert_eq!(back, fd);
}

#[test]
fn render_of_parse_gives_back_canonical_text() {
    let text = "a1b2c3d4-e5f6-0718-2934-a5b6c7d8e9f0";
    let fd = FileDescriptor::parse(text).unwrap();
    assert_eq!(fd.render(), text);
}

#[test]
fn uppercase_hex_is_accepted_and_rendered_lowercase() {
    let upper = "A1B2C3D4-E5F6-0718-2934-A5B6C7D8E9F0";
    let lower = "a1b2c3d4-e5f6-0718-2934-a5b6c7d8e9f0";
    let fd = FileDescriptor::parse(upper).unwrap();
    assert_eq!(fd.render(), lower);
    assert_eq!(fd, FileDescriptor::parse(lower).unwrap());
}

#[test]
fn render_agrees_with_the_uuid_crate() {
    let fd = FileDescriptor::mint();
    let parsed = uuid::Uuid::parse_str(&fd.render()).unwrap();
    assert_eq!(parsed.as_bytes().to_vec(), fd.to_bytes());
    assert_eq!(parsed.to_string(), fd.render());
}

#[test]
fn minting_many_identifiers_yields_distinct_values() {
    let mut seen: Vec<String> = Vec::new();
    for _ in 0..200 {
        seen.push(FileDescriptor::mint().render());
    }
    for i in 0..seen.len() {
        for j in (i + 1)..seen.len() {
            assert_ne!(seen[i], seen[j]);
        }
    }
}

#[test]
fn minted_identifiers_carry_version_and_variant_bits() {
    for _ in 0..32 {
        let bytes = FileDescriptor::mint().to_bytes();
        assert_eq!(bytes.len(), 16);
        assert_eq!(bytes[6] >> 4, 4);
        assert_eq!(bytes[8] >> 6, 2);
        let text = FileDescriptor::from_bytes(bytes).render();
        assert_eq!(text.as_bytes()[14], b'4');
    }
}

#[test]
fn from_bytes_round_trips_through_text() {
    let bytes: Vec<u8> = (0..16).map(|i| (i * 17) as u8).collect();
    let fd = FileDescriptor::from_bytes(bytes.clone());
    assert_eq!(fd.to_bytes(), bytes);
    assert_eq!(FileDescriptor::parse(&fd.render()).unwrap().to_bytes(), bytes);
}

#[test]
fn structurally_wrong_text_fails_with_the_uuid_error() {
    assert_eq!(
        FileDescriptor::parse("not-a-uuid"),
        Err(FileDescriptorParamError::Uuid)
    );
    // right characters, wrong grouping
    assert_eq!(
        FileDescriptor::parse("a1b2c3d4e5f607182934a5b6c7d8e9f0"),
        Err(FileDescriptorParamError::Uuid)
    );
    // hyphen out of place
    assert_eq!(
        FileDescriptor::parse("a1b2c3d4e-5f6-0718-2934-a5b6c7d8e9f0"),
        Err(FileDescriptorParamError::Uuid)
    );
    // one character short
    assert_eq!(
        FileDescriptor::parse("a1b2c3d4-e5f6-0718-2934-a5b6c7d8e9f"),
        Err(FileDescriptorParamError::Uuid)
    );
}

#[test]
fn forbidden_characters_fail_the_prefilter() {
    assert_eq!(
        FileDescriptor::parse("a1b2c3d4-e5f6-0718-2934-a5b6c7d8e9f/"),
        Err(FileDescriptorParamError::InvalidChars)
    );
    assert_eq!(
        FileDescriptor::parse("a1b2c3d4-e5f6-0718-2934-a5b6c7d8e9f%"),
        Err(FileDescriptorParamError::InvalidChars)
    );
    assert_eq!(
        FileDescriptor::parse("%2e%2e%2f"),
        Err(FileDescriptorParamError::InvalidChars)
    );
}

#[test]
fn param_error_descriptions() {
    assert_eq!(FileDescriptorParamError::Uuid.describe(), "Invalid UUID");
    assert_eq!(
        FileDescriptorParamError::InvalidChars.describe(),
        "Invalid characters in UUID"
    );
}
