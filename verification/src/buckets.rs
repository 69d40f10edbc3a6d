//! Sorting described fields into the four context buckets.

use crate::error::ExifError;
use crate::tag::{
    field_models, tag_code, tag_code_is_injective, tags_differ, DecodedField, FieldModel,
    TagContext,
};
use vstd::prelude::*;

verus! {

/// A described field in its bucket: the tag, its description and the
/// displayed value.
#[derive(Clone, Debug, PartialEq, Eq)]
pub struct BucketEntry {
    pub context: TagContext,
    pub number: u16,
    pub description: String,
    pub value: String,
}

/// The mathematical value of a [`BucketEntry`].
pub struct EntryModel {
    pub context: TagContext,
    pub number: u16,
    pub description: Seq<char>,
    pub value: Seq<char>,
}

impl View for BucketEntry {
    type V = EntryModel;

    open spec fn view(&self) -> EntryModel {
        EntryModel {
            context: self.context,
            number: self.number,
            description: self.description@,
            value: self.value@,
        }
    }
}

/// The models of a sequence of entries, in the same order.
pub open spec fn entry_models(entries: Seq<BucketEntry>) -> Seq<EntryModel> {
    Seq::new(entries.len(), |i: int| entries[i]@)
}

/// The four buckets, each in the order in which its fields were given.
#[derive(Clone, Debug, PartialEq, Eq)]
pub struct Buckets {
    pub tiff: Vec<BucketEntry>,
    pub exif: Vec<BucketEntry>,
    pub gps: Vec<BucketEntry>,
    pub interop: Vec<BucketEntry>,
}

/// The mathematical value of [`Buckets`].
pub struct BucketsModel {
    pub tiff: Seq<EntryModel>,
    pub exif: Seq<EntryModel>,
    pub gps: Seq<EntryModel>,
    pub interop: Seq<EntryModel>,
}

impl BucketsModel {
    /// The entries of the bucket of `context`.
    pub open spec fn bucket(self, context: TagContext) -> Seq<EntryModel> {
        match context {
            TagContext::Tiff => self.tiff,
            TagContext::Exif => self.exif,
            TagContext::Gps => self.gps,
            TagContext::Interop => self.interop,
        }
    }
}

impl View for Buckets {
    type V = BucketsModel;

    open spec fn view(&self) -> BucketsModel {
        BucketsModel {
            tiff: entry_models(self.tiff@),
            exif: entry_models(self.exif@),
            gps: entry_models(self.gps@),
            interop: entry_models(self.interop@),
        }
    }
}

impl FieldModel {
    /// Whether the tag has a description. A tag without one is unknown and
    /// is left out of every bucket.
    pub open spec fn described(self) -> bool {
        self.description is Some
    }

    /// Whether the field goes into the bucket of `context`.
    pub open spec fn belongs_to(self, context: TagContext) -> bool {
        self.described() && self.context == Some(context)
    }

    /// Whether the field is described but of no known context, so that it
    /// cannot be put into any bucket.
    pub open spec fn unclassifiable(self) -> bool {
        self.described() && self.context is None
    }

    /// The bucket entry of a field that belongs to a bucket.
    pub open spec fn entry(self) -> EntryModel {
        EntryModel {
            context: self.context->0,
            number: self.number,
            description: self.description->0,
            value: self.value,
        }
    }
}

/// The entry that a field contributes to the bucket of `context`, if any.
pub open spec fn entry_for(context: TagContext) -> spec_fn(FieldModel) -> Option<EntryModel> {
    |f: FieldModel|
        if f.belongs_to(context) {
            Some(f.entry())
        } else {
            None
        }
}

/// The bucket of `context`: the entries of the fields that belong to it, in
/// the order of the fields.
pub open spec fn bucket_of(fields: Seq<FieldModel>, context: TagContext) -> Seq<EntryModel> {
    fields.filter_map(entry_for(context))
}

/// The four buckets of a sequence of fields.
pub open spec fn buckets_of(fields: Seq<FieldModel>) -> BucketsModel {
    BucketsModel {
        tiff: bucket_of(fields, TagContext::Tiff),
        exif: bucket_of(fields, TagContext::Exif),
        gps: bucket_of(fields, TagContext::Gps),
        interop: bucket_of(fields, TagContext::Interop),
    }
}

/// Whether some field is described but of no known context.
pub open spec fn has_unclassifiable(fields: Seq<FieldModel>) -> bool {
    exists|i: int| 0 <= i < fields.len() && (#[trigger] fields[i]).unclassifiable()
}

/// What sorting a sequence of fields gives: the four buckets, or an error
/// where a described field has no known context.
pub open spec fn classification(fields: Seq<FieldModel>) -> Result<BucketsModel, ExifError> {
    if has_unclassifiable(fields) {
        Err(ExifError::UnknownContextError)
    } else {
        Ok(buckets_of(fields))
    }
}

/// One more field adds its entry to the bucket it belongs to, and leaves the
/// others alone.
proof fn bucket_of_push(fields: Seq<FieldModel>, field: FieldModel, context: TagContext)
    ensures
        bucket_of(fields.push(field), context) == if field.belongs_to(context) {
            bucket_of(fields, context).push(field.entry())
        } else {
            bucket_of(fields, context)
        },
{
    assert(fields.push(field).drop_last() =~= fields);
    assert(bucket_of(fields, context) + seq![field.entry()] =~= bucket_of(fields, context).push(
        field.entry(),
    ));
}

/// The models of entries follow the entries as one more is added.
proof fn entry_models_push(entries: Seq<BucketEntry>, entry: BucketEntry)
    ensures
        entry_models(entries.push(entry)) == entry_models(entries).push(entry@),
{
    assert(entry_models(entries.push(entry)) =~= entry_models(entries).push(entry@));
}

/// Sorts fields into the four buckets. Fields without a description are
/// dropped. A described field of no known context cannot be sorted, and the
/// whole call fails on it.
pub fn classify(fields: Vec<DecodedField>) -> (outcome: Result<Buckets, ExifError>)
    ensures
        match outcome {
            Ok(buckets) => classification(field_models(fields@)) == Ok::<BucketsModel, ExifError>(
                buckets@,
            ),
            Err(error) => classification(field_models(fields@)) == Err::<BucketsModel, ExifError>(
                error,
            ),
        },
{
    let mut tiff: Vec<BucketEntry> = Vec::new();
    let mut exif: Vec<BucketEntry> = Vec::new();
    let mut gps: Vec<BucketEntry> = Vec::new();
    let mut interop: Vec<BucketEntry> = Vec::new();
    let ghost given = fields@;
    let ghost all = field_models(fields@);
    assert(all.take(0) =~= Seq::<FieldModel>::empty());
    for field in it: fields.into_iter()
        invariant
            it.seq() == given,
            all == field_models(given),
            !has_unclassifiable(all.take(it.index())),
            entry_models(tiff@) == bucket_of(all.take(it.index()), TagContext::Tiff),
            entry_models(exif@) == bucket_of(all.take(it.index()), TagContext::Exif),
            entry_models(gps@) == bucket_of(all.take(it.index()), TagContext::Gps),
            entry_models(interop@) == bucket_of(all.take(it.index()), TagContext::Interop),
    {
        let ghost seen = all.take(it.index());
        let ghost model = field@;
        let ghost before = (tiff@, exif@, gps@, interop@);
        proof {
            assert(all.take(it.index() + 1) =~= seen.push(model));
            bucket_of_push(seen, model, TagContext::Tiff);
            bucket_of_push(seen, model, TagContext::Exif);
            bucket_of_push(seen, model, TagContext::Gps);
            bucket_of_push(seen, model, TagContext::Interop);
            assert forall|i: int| 0 <= i < seen.len() implies !(#[trigger] seen.push(
                model,
            )[i]).unclassifiable() by {
                assert(seen.push(model)[i] == seen[i]);
            }
        }
        let DecodedField { context, number, description, value } = field;
        if let Some(text) = description {
            let known: TagContext = match context {
                Some(known) => known,
                None => {
                    return Err(ExifError::UnknownContextError);
                },
            };
            let entry = BucketEntry { context: known, number, description: text, value };
            proof {
                entry_models_push(before.0, entry);
                entry_models_push(before.1, entry);
                entry_models_push(before.2, entry);
                entry_models_push(before.3, entry);
            }
            match known {
                TagContext::Tiff => tiff.push(entry),
                TagContext::Exif => exif.push(entry),
                TagContext::Gps => gps.push(entry),
                TagContext::Interop => interop.push(entry),
            }
        }
    }
    assert(all.take(all.len() as int) =~= all);
    Ok(Buckets { tiff, exif, gps, interop })
}

impl EntryModel {
    /// The key of this entry's tag.
    pub open spec fn code(self) -> u32 {
        tag_code(Some(self.context), self.number)
    }
}

/// A bucket holds the entries of the fields that belong to it, and nothing
/// else.
pub proof fn bucket_holds_its_fields(
    fields: Seq<FieldModel>,
    context: TagContext,
    entry: EntryModel,
)
    ensures
        bucket_of(fields, context).contains(entry) <==> exists|i: int|
            0 <= i < fields.len() && (#[trigger] fields[i]).belongs_to(context) && fields[i].entry()
                == entry,
    decreases fields.len(),
{
    if fields.len() > 0 {
        let front = fields.drop_last();
        let last = fields.last();
        assert(front.push(last) =~= fields);
        bucket_of_push(front, last, context);
        bucket_holds_its_fields(front, context, entry);
        let bucket = bucket_of(fields, context);
        let before = bucket_of(front, context);
        if bucket.contains(entry) {
            let k = choose|k: int| 0 <= k < bucket.len() && bucket[k] == entry;
            if k < before.len() {
                assert(before[k] == entry);
                assert(before.contains(entry));
                let i = choose|i: int|
                    0 <= i < front.len() && (#[trigger] front[i]).belongs_to(context)
                        && front[i].entry() == entry;
                assert(fields[i] == front[i]);
            } else {
                assert(fields[fields.len() - 1].belongs_to(context));
            }
        }
        if exists|i: int|
            0 <= i < fields.len() && (#[trigger] fields[i]).belongs_to(context) && fields[i].entry()
                == entry {
            let i = choose|i: int|
                0 <= i < fields.len() && (#[trigger] fields[i]).belongs_to(context)
                    && fields[i].entry() == entry;
            if i < front.len() {
                assert(front[i] == fields[i]);
                assert(before.contains(entry));
                let k = choose|k: int| 0 <= k < before.len() && before[k] == entry;
                assert(bucket[k] == entry);
            } else {
                assert(bucket[bucket.len() - 1] == entry);
            }
        }
    }
}

/// Where no two fields have the same tag, no bucket holds an entry twice.
pub proof fn bucket_has_no_duplicates(fields: Seq<FieldModel>, context: TagContext)
    requires
        tags_differ(fields),
    ensures
        bucket_of(fields, context).no_duplicates(),
    decreases fields.len(),
{
    if fields.len() > 0 {
        let front = fields.drop_last();
        let last = fields.last();
        assert(front.push(last) =~= fields);
        assert(tags_differ(front)) by {
            assert forall|i: int, j: int| 0 <= i < j < front.len() implies !(
            #[trigger] front[i]).same_tag(#[trigger] front[j]) by {
                assert(front[i] == fields[i] && front[j] == fields[j]);
            }
        }
        bucket_of_push(front, last, context);
        bucket_has_no_duplicates(front, context);
        if last.belongs_to(context) {
            bucket_holds_its_fields(front, context, last.entry());
            if bucket_of(front, context).contains(last.entry()) {
                let i = choose|i: int|
                    0 <= i < front.len() && (#[trigger] front[i]).belongs_to(context)
                        && front[i].entry() == last.entry();
                assert(fields[i].same_tag(fields[fields.len() - 1]));
            }
        }
    }
}

/// A described field of a known context is found in the bucket of its own
/// context and in no other.
pub proof fn described_field_is_in_one_bucket(fields: Seq<FieldModel>, i: int, context: TagContext)
    requires
        0 <= i < fields.len(),
        fields[i].described(),
        fields[i].context is Some,
    ensures
        bucket_of(fields, context).contains(fields[i].entry()) <==> fields[i].context == Some(
            context,
        ),
{
    bucket_holds_its_fields(fields, context, fields[i].entry());
}

/// A field without a description has no entry in any bucket: where no two
/// fields have the same tag, no entry of a bucket has its tag.
pub proof fn undescribed_field_is_in_no_bucket(
    fields: Seq<FieldModel>,
    i: int,
    context: TagContext,
    entry: EntryModel,
)
    requires
        tags_differ(fields),
        0 <= i < fields.len(),
        !fields[i].described(),
        bucket_of(fields, context).contains(entry),
    ensures
        entry.code() != fields[i].code(),
{
    bucket_holds_its_fields(fields, context, entry);
    let k = choose|k: int|
        0 <= k < fields.len() && (#[trigger] fields[k]).belongs_to(context) && fields[k].entry()
            == entry;
    tag_code_is_injective(Some(entry.context), entry.number, fields[i].context, fields[i].number);
    if entry.code() == fields[i].code() {
        assert(fields[k].same_tag(fields[i]));
        if k < i {
            assert(!fields[k].same_tag(fields[i]));
        } else if i < k {
            assert(!fields[i].same_tag(fields[k]));
        }
    }
}

} // verus!
