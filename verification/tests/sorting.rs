use heic_exif::buckets::{classify, BucketEntry, Buckets};
use heic_exif::error::ExifError;
use heic_exif::extract::sort_into_buckets;
use heic_exif::mapping::collect_fields;
use heic_exif::tag::{DecodedField, TagContext};

fn described(context: TagContext, number: u16, description: &str, value: &str) -> DecodedField {
    DecodedField {
        context: Some(context),
        number,
        description: Some(String::from(description)),
        value: String::from(value),
    }
}

fn undescribed(context: TagContext, number: u16, value: &str) -> DecodedField {
    DecodedField { context: Some(context), number, description: None, value: String::from(value) }
}

fn triples(entries: &[BucketEntry]) -> Vec<(u16, String, String)> {
    entries.iter().map(|e| (e.number, e.description.clone(), e.value.clone())).collect()
}

fn triple(number: u16, description: &str, value: &str) -> (u16, String, String) {
    (number, String::from(description), String::from(value))
}

fn count_of(buckets: &Buckets, context: TagContext, number: u16) -> usize {
    let all = [&buckets.tiff, &buckets.exif, &buckets.gps, &buckets.interop];
    all.iter()
        .map(|bucket| bucket.iter().filter(|e| e.context == context && e.number == number).count())
        .sum()
}

fn sample_fields() -> Vec<DecodedField> {
    vec![
        described(TagContext::Tiff, 0x100, "Image width", "100"),
        described(TagContext::Exif, 0x9000, "Exif version", "2.31"),
        undescribed(TagContext::Tiff, 0xeeee, "7"),
        described(TagContext::Gps, 0x1, "North or south latitude", "N"),
        described(TagContext::Tiff, 0x101, "Image height", "80"),
        described(TagContext::Interop, 0x1, "Interoperability identification", "\"R98\""),
        undescribed(TagContext::Gps, 0xeeee, "0"),
    ]
}

#[test]
fn classify_sorts_by_context() {
    let buckets = classify(sample_fields()).unwrap();
    assert_eq!(
        triples(&buckets.tiff),
        vec![triple(0x100, "Image width", "100"), triple(0x101, "Image height", "80")]
    );
    assert_eq!(triples(&buckets.exif), vec![triple(0x9000, "Exif version", "2.31")]);
    assert_eq!(triples(&buckets.gps), vec![triple(0x1, "North or south latitude", "N")]);
    assert_eq!(
        triples(&buckets.interop),
        vec![triple(0x1, "Interoperability identification", "\"R98\"")]
    );
}

#[test]
fn classify_marks_each_entry_with_its_bucket() {
    let buckets = classify(sample_fields()).unwrap();
    assert!(buckets.tiff.iter().all(|e| e.context == TagContext::Tiff));
    assert!(buckets.exif.iter().all(|e| e.context == TagContext::Exif));
    assert!(buckets.gps.iter().all(|e| e.context == TagContext::Gps));
    assert!(buckets.interop.iter().all(|e| e.context == TagContext::Interop));
}

#[test]
fn classify_puts_each_described_tag_in_one_bucket() {
    let fields = sample_fields();
    let buckets = classify(fields.clone()).unwrap();
    let mut described_tags = 0;
    for f in &fields {
        let expected = if f.description.is_some() { 1 } else { 0 };
        described_tags += expected;
        assert_eq!(count_of(&buckets, f.context.unwrap(), f.number), expected);
    }
    let total =
        buckets.tiff.len() + buckets.exif.len() + buckets.gps.len() + buckets.interop.len();
    assert_eq!(total, described_tags);
    assert_eq!(total, 5);
}

#[test]
fn classify_drops_fields_without_description() {
    let buckets = classify(vec![
        undescribed(TagContext::Tiff, 0xeeee, "7"),
        undescribed(TagContext::Exif, 0xeeee, "8"),
        undescribed(TagContext::Gps, 0xeeee, "9"),
        undescribed(TagContext::Interop, 0xeeee, "10"),
    ])
    .unwrap();
    assert!(buckets.tiff.is_empty());
    assert!(buckets.exif.is_empty());
    assert!(buckets.gps.is_empty());
    assert!(buckets.interop.is_empty());
}

#[test]
fn classify_of_nothing_gives_empty_buckets() {
    let buckets = classify(Vec::new()).unwrap();
    assert!(buckets.tiff.is_empty());
    assert!(buckets.exif.is_empty());
    assert!(buckets.gps.is_empty());
    assert!(buckets.interop.is_empty());
}

#[test]
fn classify_keeps_an_empty_description() {
    let buckets = classify(vec![described(TagContext::Exif, 0x1, "", "x")]).unwrap();
    assert_eq!(triples(&buckets.exif), vec![triple(0x1, "", "x")]);
}

#[test]
fn classify_fails_on_a_described_tag_of_unknown_context() {
    let outcome = classify(vec![
        described(TagContext::Tiff, 0x100, "Image width", "100"),
        DecodedField {
            context: None,
            number: 0x1,
            description: Some(String::from("Something new")),
            value: String::from("1"),
        },
        described(TagContext::Tiff, 0x101, "Image height", "80"),
    ]);
    assert_eq!(outcome.err(), Some(ExifError::UnknownContextError));
}

#[test]
fn classify_skips_an_undescribed_tag_of_unknown_context() {
    let buckets = classify(vec![
        DecodedField { context: None, number: 0x1, description: None, value: String::from("1") },
        described(TagContext::Tiff, 0x100, "Image width", "100"),
    ])
    .unwrap();
    assert_eq!(triples(&buckets.tiff), vec![triple(0x100, "Image width", "100")]);
    assert!(buckets.exif.is_empty());
    assert!(buckets.gps.is_empty());
    assert!(buckets.interop.is_empty());
}

#[test]
fn sort_into_buckets_holds_each_described_tag_once() {
    let mut fields = sample_fields();
    fields.push(described(TagContext::Tiff, 0x100, "Image width", "50"));
    let data = collect_fields(fields);
    let buckets = sort_into_buckets(&data).unwrap();
    let mut tiff = triples(&buckets.tiff);
    tiff.sort();
    assert_eq!(
        tiff,
        vec![triple(0x100, "Image width", "50"), triple(0x101, "Image height", "80")]
    );
    assert_eq!(triples(&buckets.exif), vec![triple(0x9000, "Exif version", "2.31")]);
    assert_eq!(triples(&buckets.gps), vec![triple(0x1, "North or south latitude", "N")]);
    assert_eq!(
        triples(&buckets.interop),
        vec![triple(0x1, "Interoperability identification", "\"R98\"")]
    );
    assert_eq!(count_of(&buckets, TagContext::Tiff, 0xeeee), 0);
    assert_eq!(count_of(&buckets, TagContext::Gps, 0xeeee), 0);
}

#[test]
fn sort_into_buckets_fails_on_unknown_context() {
    let data = collect_fields(vec![
        described(TagContext::Tiff, 0x100, "Image width", "100"),
        DecodedField {
            context: None,
            number: 0x7,
            description: Some(String::from("Something new")),
            value: String::from("1"),
        },
    ]);
    assert_eq!(sort_into_buckets(&data).err(), Some(ExifError::UnknownContextError));
}
