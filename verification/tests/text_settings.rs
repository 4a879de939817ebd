use processing_render::error::{InvalidArgument, ProcessingError};
use processing_render::render::text_settings::{parse_tag, remove_tagged, set_tagged};

#[test]
fn tags_are_exactly_four_bytes() {
    assert_eq!(parse_tag("wght"), Ok(*b"wght"));
    assert_eq!(
        parse_tag("wgh"),
        Err(ProcessingError::InvalidArgument(InvalidArgument::FontTagLength(3)))
    );
    assert_eq!(
        parse_tag("liga1"),
        Err(ProcessingError::InvalidArgument(InvalidArgument::FontTagLength(5)))
    );
}

#[test]
fn setting_a_tag_again_replaces_its_value_in_place() {
    let mut features: Vec<([u8; 4], u16)> = Vec::new();
    set_tagged(&mut features, *b"liga", 1);
    set_tagged(&mut features, *b"kern", 0);
    set_tagged(&mut features, *b"liga", 0);
    assert_eq!(features, vec![(*b"liga", 0), (*b"kern", 0)]);
}

#[test]
fn removing_a_tag_keeps_the_others_in_order() {
    let mut features: Vec<([u8; 4], u16)> = vec![(*b"liga", 1), (*b"kern", 1), (*b"smcp", 1)];
    remove_tagged(&mut features, *b"kern");
    assert_eq!(features, vec![(*b"liga", 1), (*b"smcp", 1)]);
    remove_tagged(&mut features, *b"zzzz");
    assert_eq!(features.len(), 2);
}

#[test]
fn variation_values_are_kept_as_given() {
    let mut variations: Vec<([u8; 4], f32)> = Vec::new();
    set_tagged(&mut variations, *b"wght", 400.0);
    set_tagged(&mut variations, *b"wght", 700.0);
    assert_eq!(variations, vec![(*b"wght", 700.0)]);
}
