use repeatrs::domain::job::ImageName;

/// The White_Space code points that the library states `char::is_whitespace` by.
fn listed_whitespace(c: char) -> bool {
    let u = c as u32;
    (0x09..=0x0D).contains(&u)
        || u == 0x20
        || u == 0x85
        || u == 0xA0
        || u == 0x1680
        || (0x2000..=0x200A).contains(&u)
        || u == 0x2028
        || u == 0x2029
        || u == 0x202F
        || u == 0x205F
        || u == 0x3000
}

#[test]
fn the_listed_whitespace_is_what_std_calls_whitespace() {
    for u in 0..=0x10FFFFu32 {
        if let Some(c) = char::from_u32(u) {
            assert_eq!(c.is_whitespace(), listed_whitespace(c), "U+{:04X}", u);
        }
    }
}

#[test]
fn an_image_name_of_unicode_blanks_is_refused() {
    assert!(ImageName::try_from("\u{3000}\u{85}".to_string()).is_err());
    assert!(ImageName::try_from("\u{200B}repo/img".to_string()).is_ok());
}
