use heic_exif::decode::{parse_exif_data, strip_prefix, PREFIX_LEN};
use heic_exif::error::ExifError;
use heic_exif::mapping::collect_fields;
use heic_exif::tag::{DecodedField, TagContext};

/// A big-endian TIFF structure whose only field is the image width.
fn tiff_with_width(width: u16) -> Vec<u8> {
    let mut bytes: Vec<u8> = vec![0x4d, 0x4d, 0x00, 0x2a, 0x00, 0x00, 0x00, 0x08];
    bytes.extend_from_slice(&[0x00, 0x01]);
    bytes.extend_from_slice(&[0x01, 0x00, 0x00, 0x03, 0x00, 0x00, 0x00, 0x01]);
    bytes.extend_from_slice(&width.to_be_bytes());
    bytes.extend_from_slice(&[0x00, 0x00]);
    bytes.extend_from_slice(&[0x00, 0x00, 0x00, 0x00]);
    bytes
}

/// A TIFF structure with a width, an EXIF version, a latitude reference and
/// a field whose tag is not known.
fn tiff_with_three_contexts() -> Vec<u8> {
    let mut bytes: Vec<u8> = vec![0x4d, 0x4d, 0x00, 0x2a, 0x00, 0x00, 0x00, 0x08];
    // The first directory, at offset 8, with four entries.
    bytes.extend_from_slice(&[0x00, 0x04]);
    bytes.extend_from_slice(&[0x01, 0x00, 0x00, 0x03, 0, 0, 0, 1, 0x00, 0x64, 0, 0]);
    bytes.extend_from_slice(&[0x87, 0x69, 0x00, 0x04, 0, 0, 0, 1, 0, 0, 0, 62]);
    bytes.extend_from_slice(&[0x88, 0x25, 0x00, 0x04, 0, 0, 0, 1, 0, 0, 0, 80]);
    bytes.extend_from_slice(&[0xee, 0xee, 0x00, 0x03, 0, 0, 0, 1, 0x00, 0x07, 0, 0]);
    bytes.extend_from_slice(&[0, 0, 0, 0]);
    assert_eq!(bytes.len(), 62);
    // The EXIF directory, at offset 62.
    bytes.extend_from_slice(&[0x00, 0x01]);
    bytes.extend_from_slice(&[0x90, 0x00, 0x00, 0x07, 0, 0, 0, 4, 0x30, 0x32, 0x33, 0x31]);
    bytes.extend_from_slice(&[0, 0, 0, 0]);
    assert_eq!(bytes.len(), 80);
    // The GPS directory, at offset 80.
    bytes.extend_from_slice(&[0x00, 0x01]);
    bytes.extend_from_slice(&[0x00, 0x01, 0x00, 0x02, 0, 0, 0, 2, 0x4e, 0x00, 0, 0]);
    bytes.extend_from_slice(&[0, 0, 0, 0]);
    bytes
}

fn with_prefix(payload: &[u8]) -> Vec<u8> {
    let mut data: Vec<u8> = vec![0x00, 0x00, 0x00, 0x06];
    data.extend_from_slice(payload);
    data
}

fn field(context: TagContext, number: u16, description: Option<&str>, value: &str) -> DecodedField {
    DecodedField {
        context: Some(context),
        number,
        description: description.map(String::from),
        value: String::from(value),
    }
}

#[test]
fn prefix_has_four_bytes() {
    assert_eq!(PREFIX_LEN, 4);
}

#[test]
fn strip_prefix_drops_exactly_four_bytes() {
    assert_eq!(strip_prefix(vec![1, 2, 3, 4, 5, 6, 7]), Some(vec![5, 6, 7]));
    assert_eq!(strip_prefix(vec![9, 9, 9, 9, 0x4d]), Some(vec![0x4d]));
}

#[test]
fn strip_prefix_of_four_bytes_leaves_nothing() {
    assert_eq!(strip_prefix(vec![1, 2, 3, 4]), Some(Vec::new()));
}

#[test]
fn strip_prefix_rejects_short_items() {
    assert_eq!(strip_prefix(Vec::new()), None);
    assert_eq!(strip_prefix(vec![1]), None);
    assert_eq!(strip_prefix(vec![1, 2, 3]), None);
}

#[test]
fn strip_prefix_gives_back_what_was_put_behind_it() {
    let payload = tiff_with_width(100);
    assert_eq!(strip_prefix(with_prefix(&payload)), Some(payload));
}

#[test]
fn parse_reads_the_width_field() {
    let data = parse_exif_data(with_prefix(&tiff_with_width(100))).unwrap();
    assert_eq!(data.len(), 1);
    assert!(!data.is_empty());
    let width = data.get(TagContext::Tiff, 0x100).unwrap();
    assert_eq!(width.context, Some(TagContext::Tiff));
    assert_eq!(width.number, 0x100);
    assert_eq!(width.description.as_deref(), Some("Image width"));
    assert_eq!(width.value, "100");
    assert!(data.get(TagContext::Exif, 0x100).is_none());
    assert!(data.get(TagContext::Tiff, 0x101).is_none());
}

#[test]
fn parse_reads_fields_of_each_context() {
    let data = parse_exif_data(with_prefix(&tiff_with_three_contexts())).unwrap();
    assert_eq!(data.len(), 4);
    let version = data.get(TagContext::Exif, 0x9000).unwrap();
    assert_eq!(version.description.as_deref(), Some("Exif version"));
    assert_eq!(version.value, "2.31");
    let latitude = data.get(TagContext::Gps, 0x1).unwrap();
    assert_eq!(latitude.description.as_deref(), Some("North or south latitude"));
    assert_eq!(latitude.value, "N");
    let unknown = data.get(TagContext::Tiff, 0xeeee).unwrap();
    assert_eq!(unknown.description, None);
    assert_eq!(unknown.value, "7");
    assert!(data.get(TagContext::Interop, 0x1).is_none());
}

#[test]
fn parse_needs_the_prefix() {
    // Without the prefix the first four bytes of the TIFF header are dropped.
    assert_eq!(
        parse_exif_data(tiff_with_width(100)).err(),
        Some(ExifError::InvalidExifDataError)
    );
}

#[test]
fn parse_rejects_items_shorter_than_the_prefix() {
    assert_eq!(parse_exif_data(Vec::new()).err(), Some(ExifError::InvalidExifDataError));
    assert_eq!(parse_exif_data(vec![0, 0]).err(), Some(ExifError::InvalidExifDataError));
    assert_eq!(parse_exif_data(vec![0, 0, 0]).err(), Some(ExifError::InvalidExifDataError));
}

#[test]
fn parse_rejects_an_empty_payload() {
    assert_eq!(parse_exif_data(vec![0, 0, 0, 0]).err(), Some(ExifError::InvalidExifDataError));
}

#[test]
fn parse_rejects_bytes_that_are_no_exif_data() {
    let data = with_prefix(b"this is not a TIFF structure");
    assert_eq!(parse_exif_data(data).err(), Some(ExifError::InvalidExifDataError));
}

#[test]
fn parse_rejects_a_truncated_directory() {
    let mut payload = tiff_with_width(100);
    payload.truncate(15);
    assert_eq!(
        parse_exif_data(with_prefix(&payload)).err(),
        Some(ExifError::InvalidExifDataError)
    );
}

#[test]
fn collect_keeps_one_field_per_tag() {
    let data = collect_fields(vec![
        field(TagContext::Tiff, 0x100, Some("Image width"), "100"),
        field(TagContext::Tiff, 0x101, Some("Image height"), "80"),
        field(TagContext::Exif, 0x100, None, "1"),
    ]);
    assert_eq!(data.len(), 3);
    assert_eq!(data.get(TagContext::Tiff, 0x100).unwrap().value, "100");
    assert_eq!(data.get(TagContext::Tiff, 0x101).unwrap().value, "80");
    assert_eq!(data.get(TagContext::Exif, 0x100).unwrap().value, "1");
    assert!(data.get(TagContext::Gps, 0x100).is_none());
}

#[test]
fn collect_keeps_the_last_field_of_a_tag() {
    let data = collect_fields(vec![
        field(TagContext::Tiff, 0x100, Some("Image width"), "100"),
        field(TagContext::Tiff, 0x101, Some("Image height"), "80"),
        field(TagContext::Tiff, 0x100, Some("Image width"), "50"),
    ]);
    assert_eq!(data.len(), 2);
    assert_eq!(data.get(TagContext::Tiff, 0x100).unwrap().value, "50");
    assert_eq!(data.get(TagContext::Tiff, 0x101).unwrap().value, "80");
}

#[test]
fn collect_of_nothing_is_empty() {
    let data = collect_fields(Vec::new());
    assert_eq!(data.len(), 0);
    assert!(data.is_empty());
    assert!(data.fields().is_empty());
}

#[test]
fn fields_lists_each_tag_once() {
    let data = collect_fields(vec![
        field(TagContext::Tiff, 0x100, Some("Image width"), "100"),
        field(TagContext::Gps, 0x1, Some("North or south latitude"), "N"),
        field(TagContext::Tiff, 0x100, Some("Image width"), "50"),
    ]);
    let mut listing: Vec<(u32, String)> =
        data.fields().iter().map(|f| (f.code(), f.value.clone())).collect();
    listing.sort();
    assert_eq!(listing, vec![(0x100, String::from("50")), (0x2_0001, String::from("N"))]);
}

#[test]
fn code_packs_context_and_number() {
    assert_eq!(field(TagContext::Tiff, 0x100, None, "").code(), 0x0_0100);
    assert_eq!(field(TagContext::Exif, 0x9000, None, "").code(), 0x1_9000);
    assert_eq!(field(TagContext::Gps, 0x1, None, "").code(), 0x2_0001);
    assert_eq!(field(TagContext::Interop, 0xffff, None, "").code(), 0x3_ffff);
    let unknown = DecodedField {
        context: None,
        number: 0x2,
        description: None,
        value: String::new(),
    };
    assert_eq!(unknown.code(), 0x4_0002);
}

#[test]
fn duplicate_copies_every_part() {
    let first = field(TagContext::Exif, 0x9000, Some("Exif version"), "2.31");
    let copy = first.duplicate();
    assert_eq!(copy.context, Some(TagContext::Exif));
    assert_eq!(copy.number, 0x9000);
    assert_eq!(copy.description.as_deref(), Some("Exif version"));
    assert_eq!(copy.value, "2.31");
}
