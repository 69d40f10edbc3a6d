//! From the metadata items of an image to the lines of the report.

use crate::buckets::{
    bucket_has_no_duplicates, bucket_holds_its_fields, bucket_of, classification, classify,
    has_unclassifiable, undescribed_field_is_in_no_bucket, Buckets, BucketsModel, EntryModel,
};
use crate::container::{
    find_exif_item, has_exif_item, item_models, last_exif_item, last_exif_item_is_last, ItemModel,
    MetadataItem,
};
use crate::decode::{parse_exif_data, parse_outcome};
use crate::error::ExifError;
use crate::mapping::{lists, ExifData};
use crate::report::{render, report_text, texts};
use crate::tag::{field_models, FieldModel, TagContext};
use vstd::prelude::*;
use vstd::slice::slice_to_vec;

verus! {

/// The mathematical value of the outcome of an extraction.
pub open spec fn outcome_model(outcome: Result<Buckets, ExifError>) -> Result<
    BucketsModel,
    ExifError,
> {
    match outcome {
        Ok(buckets) => Ok(buckets@),
        Err(error) => Err(error),
    }
}

/// Whether `outcome` is what sorting the fields of `map` gives, the fields
/// taken in some order.
pub open spec fn sorts(
    map: Map<u32, FieldModel>,
    outcome: Result<BucketsModel, ExifError>,
) -> bool {
    exists|listing: Seq<FieldModel>| lists(listing, map) && outcome == classification(listing)
}

/// Whether some tag of the mapping is described but of no known context.
pub open spec fn holds_unclassifiable(map: Map<u32, FieldModel>) -> bool {
    exists|k: u32| #[trigger] map.contains_key(k) && map[k].unclassifiable()
}

/// Sorting the fields of a mapping fails exactly where the mapping holds a
/// described tag of no known context, in whatever order the fields are
/// taken, and then with the error of an unknown context.
pub proof fn sorting_fails_on_unknown_context_only(
    map: Map<u32, FieldModel>,
    outcome: Result<BucketsModel, ExifError>,
)
    requires
        sorts(map, outcome),
    ensures
        outcome is Err <==> holds_unclassifiable(map),
        outcome is Err ==> outcome == Err::<BucketsModel, ExifError>(
            ExifError::UnknownContextError,
        ),
{
    let listing = choose|listing: Seq<FieldModel>|
        lists(listing, map) && outcome == classification(listing);
    if has_unclassifiable(listing) {
        let i = choose|i: int| 0 <= i < listing.len() && (#[trigger] listing[i]).unclassifiable();
        assert(map.contains_key(listing[i].code()));
    }
    if holds_unclassifiable(map) {
        let k = choose|k: u32| #[trigger] map.contains_key(k) && map[k].unclassifiable();
        assert(listing.contains(map[k]));
        let i = choose|i: int| 0 <= i < listing.len() && listing[i] == map[k];
        assert(listing[i].unclassifiable());
    }
}

/// Whether `outcome` is what the extraction gives on `items`:
/// the absence of EXIF data where no item carries the EXIF type code; else
/// what parsing the last such item and sorting its fields gives.
pub open spec fn extracts(
    items: Seq<ItemModel>,
    outcome: Result<BucketsModel, ExifError>,
) -> bool {
    match last_exif_item(items) {
        None => outcome == Err::<BucketsModel, ExifError>(ExifError::NoExifMetadataFound),
        Some(i) => match parse_outcome(items[i].raw_data) {
            Err(error) => outcome == Err::<BucketsModel, ExifError>(error),
            Ok(map) => sorts(map, outcome),
        },
    }
}

/// The lines that report an outcome: the four buckets, or the message of
/// the error.
pub open spec fn outcome_text(outcome: Result<BucketsModel, ExifError>) -> Seq<Seq<char>> {
    match outcome {
        Ok(buckets) => report_text(buckets),
        Err(error) => seq![error.message_text()],
    }
}

/// Sorts the fields of a mapping into the four buckets. The order of the
/// entries within a bucket is not fixed.
pub fn sort_into_buckets(data: &ExifData) -> (outcome: Result<Buckets, ExifError>)
    ensures
        sorts(data@, outcome_model(outcome)),
        outcome is Ok <==> !holds_unclassifiable(data@),
{
    let listing = data.fields();
    let ghost models = field_models(listing@);
    let outcome = classify(listing);
    proof {
        assert(outcome_model(outcome) == classification(models));
        sorting_fails_on_unknown_context_only(data@, outcome_model(outcome));
    }
    outcome
}

/// Extracts the EXIF metadata of an image from the metadata items of its
/// primary image: picks the EXIF item, parses it and sorts its fields.
pub fn extract_exif(items: &Vec<MetadataItem>) -> (outcome: Result<Buckets, ExifError>)
    ensures
        extracts(item_models(items@), outcome_model(outcome)),
{
    match find_exif_item(items) {
        None => Err(ExifError::NoExifMetadataFound),
        Some(i) => {
            let raw: Vec<u8> = slice_to_vec(items[i].raw_data.as_slice());
            assert(raw@ == item_models(items@)[i as int].raw_data);
            match parse_exif_data(raw) {
                Err(error) => Err(error),
                Ok(data) => sort_into_buckets(&data),
            }
        },
    }
}

/// The lines that report the outcome of an extraction.
pub fn outcome_lines(outcome: &Result<Buckets, ExifError>) -> (lines: Vec<String>)
    ensures
        texts(lines@) == outcome_text(outcome_model(*outcome)),
{
    match outcome {
        Ok(buckets) => render(buckets),
        Err(error) => {
            let mut lines: Vec<String> = Vec::new();
            lines.push(error.message());
            assert(texts(lines@) =~= seq![error.message_text()]);
            lines
        },
    }
}

/// Where no metadata item carries the EXIF type code, the extraction
/// reports the absence of EXIF data, and the report is that one message,
/// with no line of any tag.
pub proof fn no_exif_item_gives_no_tag_lines(
    items: Seq<ItemModel>,
    outcome: Result<BucketsModel, ExifError>,
)
    requires
        !has_exif_item(items),
        extracts(items, outcome),
    ensures
        outcome == Err::<BucketsModel, ExifError>(ExifError::NoExifMetadataFound),
        outcome_text(outcome) == seq!["No EXIF data found."@],
{
    last_exif_item_is_last(items);
}

/// Where the extraction gives buckets, they are what sorting the fields of
/// the last EXIF item gives, which the decoder accepted.
pub proof fn extraction_sorts_the_last_exif_item(items: Seq<ItemModel>, buckets: BucketsModel)
    requires
        extracts(items, Ok(buckets)),
    ensures
        last_exif_item(items) matches Some(i) && parse_outcome(items[i].raw_data) matches Ok(map)
            && sorts(map, Ok(buckets)),
{
}

/// The buckets split the described tags of a mapping among them.
///
/// Every tag of the mapping that has a description has a known context and
/// is found in exactly one bucket, that of its context, and there once.
/// Every entry of a bucket is the field of a described tag of the mapping.
pub proof fn buckets_split_the_described_tags(
    map: Map<u32, FieldModel>,
    buckets: BucketsModel,
)
    requires
        sorts(map, Ok(buckets)),
    ensures
        forall|k: u32, context: TagContext|
            map.contains_key(k) && map[k].described() ==> (#[trigger] buckets.bucket(
                context,
            ).contains(#[trigger] map[k].entry()) <==> map[k].context == Some(context)),
        forall|k: u32| #[trigger]
            map.contains_key(k) && map[k].described() ==> map[k].context is Some,
        forall|context: TagContext, entry: EntryModel| #[trigger]
            buckets.bucket(context).contains(entry) ==> entry.context == context
                && map.contains_key(entry.code()) && map[entry.code()].described()
                && map[entry.code()].entry() == entry,
        forall|context: TagContext| #[trigger] buckets.bucket(context).no_duplicates(),
{
    let listing = choose|listing: Seq<FieldModel>|
        lists(listing, map) && Ok::<BucketsModel, ExifError>(buckets) == classification(listing);
    assert forall|context: TagContext| #[trigger] buckets.bucket(context) == bucket_of(
        listing,
        context,
    ) by {}
    assert forall|k: u32| #[trigger]
        map.contains_key(k) && map[k].described() implies map[k].context is Some by {
        assert(listing.contains(map[k]));
    }
    assert forall|k: u32, context: TagContext|
        map.contains_key(k) && map[k].described() implies (#[trigger] buckets.bucket(
        context,
    ).contains(#[trigger] map[k].entry()) <==> map[k].context == Some(context)) by {
        assert(listing.contains(map[k]));
        let i = choose|i: int| 0 <= i < listing.len() && listing[i] == map[k];
        bucket_holds_its_fields(listing, context, map[k].entry());
        assert(listing[i].belongs_to(context) <==> map[k].context == Some(context));
    }
    assert forall|context: TagContext, entry: EntryModel| #[trigger]
        buckets.bucket(context).contains(entry) implies entry.context == context
        && map.contains_key(entry.code()) && map[entry.code()].described()
        && map[entry.code()].entry() == entry by {
        bucket_holds_its_fields(listing, context, entry);
        let i = choose|i: int|
            0 <= i < listing.len() && (#[trigger] listing[i]).belongs_to(context)
                && listing[i].entry() == entry;
        assert(listing[i].code() == entry.code());
    }
    assert forall|context: TagContext| #[trigger] buckets.bucket(context).no_duplicates() by {
        bucket_has_no_duplicates(listing, context);
    }
}

/// A tag of the mapping that has no description is in no bucket: no entry
/// of any bucket has its tag.
pub proof fn undescribed_tags_are_left_out(
    map: Map<u32, FieldModel>,
    buckets: BucketsModel,
    k: u32,
)
    requires
        sorts(map, Ok(buckets)),
        map.contains_key(k),
        !map[k].described(),
    ensures
        forall|context: TagContext, entry: EntryModel| #[trigger]
            buckets.bucket(context).contains(entry) ==> entry.code() != k,
{
    let listing = choose|listing: Seq<FieldModel>|
        lists(listing, map) && Ok::<BucketsModel, ExifError>(buckets) == classification(listing);
    assert(listing.contains(map[k]));
    let i = choose|i: int| 0 <= i < listing.len() && listing[i] == map[k];
    assert forall|context: TagContext, entry: EntryModel| #[trigger]
        buckets.bucket(context).contains(entry) implies entry.code() != k by {
        assert(buckets.bucket(context) == bucket_of(listing, context));
        undescribed_field_is_in_no_bucket(listing, i, context, entry);
    }
}

} // verus!
