//! The result mapping: decoded fields, one per tag.

use crate::tag::{
    field_models, tag_code, tag_code_is_injective, tag_key, tags_differ, DecodedField, FieldModel,
    TagContext,
};
use std::collections::HashMap;
use vstd::prelude::*;
use vstd::std_specs::iter::IteratorSpec;

verus! {

broadcast use vstd::std_specs::hash::group_hash_axioms;

/// The mapping that a sequence of fields gives: each tag that occurs is
/// mapped to the last field that has it. Tags are stored under their keys.
pub open spec fn tag_map(fields: Seq<FieldModel>) -> Map<u32, FieldModel>
    decreases fields.len(),
{
    if fields.len() == 0 {
        Map::empty()
    } else {
        tag_map(fields.drop_last()).insert(fields.last().code(), fields.last())
    }
}

/// Whether each field of the mapping is stored under the key of its own
/// tag.
pub open spec fn keyed_by_tag(map: Map<u32, FieldModel>) -> bool {
    forall|k: u32| #[trigger] map.contains_key(k) ==> map[k].code() == k
}

/// Whether `listing` holds the fields of `map`: each field of the mapping,
/// and nothing else, with no tag twice.
pub open spec fn lists(listing: Seq<FieldModel>, map: Map<u32, FieldModel>) -> bool {
    &&& keyed_by_tag(map)
    &&& tags_differ(listing)
    &&& forall|i: int|
        0 <= i < listing.len() ==> map.contains_key((#[trigger] listing[i]).code())
            && map[listing[i].code()] == listing[i]
    &&& forall|k: u32| #[trigger] map.contains_key(k) ==> listing.contains(map[k])
}

/// A tag is in the mapping of a sequence of fields exactly when some field
/// has it, and each field is stored under the key of its tag.
pub proof fn tag_map_holds_the_tags(fields: Seq<FieldModel>)
    ensures
        keyed_by_tag(tag_map(fields)),
        tag_map(fields).dom().finite(),
        forall|k: u32| #[trigger]
            tag_map(fields).contains_key(k) <==> exists|i: int|
                0 <= i < fields.len() && (#[trigger] fields[i]).code() == k,
    decreases fields.len(),
{
    if fields.len() > 0 {
        let front = fields.drop_last();
        tag_map_holds_the_tags(front);
        assert forall|k: u32| #[trigger] tag_map(fields).contains_key(k) implies exists|i: int|
            0 <= i < fields.len() && (#[trigger] fields[i]).code() == k by {
            if k == fields.last().code() {
                assert(fields[fields.len() - 1].code() == k);
            } else {
                assert(tag_map(front).contains_key(k));
                let i = choose|i: int| 0 <= i < front.len() && (#[trigger] front[i]).code() == k;
                assert(fields[i].code() == k);
            }
        }
        let map = tag_map(fields);
        assert forall|k: u32|
            (exists|i: int| 0 <= i < fields.len() && (#[trigger] fields[i]).code() == k)
            implies #[trigger] map.contains_key(k) by {
            let i = choose|i: int| 0 <= i < fields.len() && (#[trigger] fields[i]).code() == k;
            if i < front.len() {
                assert(front[i].code() == k);
            }
        }
    }
}

/// Where a tag occurs more than once, the last of its fields is the one
/// that the mapping holds.
pub proof fn tag_map_keeps_the_last_field(fields: Seq<FieldModel>, i: int)
    requires
        0 <= i < fields.len(),
        forall|j: int| i < j < fields.len() ==> !(#[trigger] fields[j]).same_tag(fields[i]),
    ensures
        tag_map(fields).contains_key(fields[i].code()),
        tag_map(fields)[fields[i].code()] == fields[i],
    decreases fields.len(),
{
    if i < fields.len() - 1 {
        let front = fields.drop_last();
        let last = fields.last();
        assert(front[i] == fields[i]);
        assert forall|j: int| i < j < front.len() implies !(#[trigger] front[j]).same_tag(
            front[i],
        ) by {
            assert(front[j] == fields[j]);
        }
        tag_map_keeps_the_last_field(front, i);
        assert(!fields[fields.len() - 1].same_tag(fields[i]));
        tag_code_is_injective(
            last.context,
            last.number,
            fields[i].context,
            fields[i].number,
        );
    }
}

/// The decoded fields of one EXIF item, one per tag.
pub struct ExifData {
    fields: HashMap<u32, DecodedField>,
}

impl View for ExifData {
    type V = Map<u32, FieldModel>;

    closed spec fn view(&self) -> Map<u32, FieldModel> {
        self.fields@.map_values(|f: DecodedField| f@)
    }
}

impl ExifData {
    #[verifier::type_invariant]
    spec fn well_keyed(self) -> bool {
        forall|k: u32| #[trigger] self.fields@.contains_key(k) ==> self.fields@[k]@.code() == k
    }

    /// The number of tags that have a field.
    pub fn len(&self) -> (n: usize)
        ensures
            n == self@.len(),
    {
        proof {
            assert(self@.dom() =~= self.fields@.dom());
        }
        self.fields.len()
    }

    /// Whether no tag has a field.
    pub fn is_empty(&self) -> (empty: bool)
        ensures
            empty == (self@.len() == 0),
    {
        self.len() == 0
    }

    /// The field of the tag with this context and number, if the mapping
    /// has one.
    pub fn get(&self, context: TagContext, number: u16) -> (found: Option<&DecodedField>)
        ensures
            match found {
                Some(field) => self@.contains_key(tag_code(Some(context), number))
                    && self@[tag_code(Some(context), number)] == field@,
                None => !self@.contains_key(tag_code(Some(context), number)),
            },
    {
        let key: u32 = tag_key(Some(context), number);
        self.fields.get(&key)
    }

    /// The fields of the mapping, one per tag, in no particular order.
    pub fn fields(&self) -> (listing: Vec<DecodedField>)
        ensures
            lists(field_models(listing@), self@),
    {
        let mut listing: Vec<DecodedField> = Vec::new();
        proof {
            use_type_invariant(self);
        }
        for entry in it: self.fields.iter()
            invariant
                it.seq() == self.fields.iter().remaining(),
                it.seq().no_duplicates(),
                listing.len() == it.index(),
                forall|i: int| 0 <= i < listing.len() ==> listing[i] == *it.seq()[i].1,
        {
            listing.push(entry.1.duplicate());
        }
        proof {
            let all = self.fields.iter().remaining();
            let models = field_models(listing@);
            assert forall|i: int, j: int| 0 <= i < j < models.len() implies !(
            #[trigger] models[i]).same_tag(#[trigger] models[j]) by {
                assert(self.fields@.contains_key(*all[i].0));
                assert(self.fields@.contains_key(*all[j].0));
                tag_code_is_injective(
                    models[i].context,
                    models[i].number,
                    models[j].context,
                    models[j].number,
                );
            }
            assert forall|i: int| 0 <= i < models.len() implies self@.contains_key(
                (#[trigger] models[i]).code(),
            ) && self@[models[i].code()] == models[i] by {
                assert(self.fields@.contains_key(*all[i].0));
            }
            assert forall|k: u32| #[trigger] self@.contains_key(k) implies models.contains(
                self@[k],
            ) by {
                assert(self.fields@.contains_key(k));
                let pair = (&k, &self.fields@[k]);
                assert(all.contains(pair));
                let i = choose|i: int| 0 <= i < all.len() && all[i] == pair;
                assert(models[i] == self@[k]);
            }
        }
        listing
    }
}

/// Appending one field to a sequence stores it under its tag.
proof fn tag_map_push(fields: Seq<FieldModel>, field: FieldModel)
    ensures
        tag_map(fields.push(field)) == tag_map(fields).insert(field.code(), field),
{
    assert(fields.push(field).drop_last() =~= fields);
}

/// Gathers decoded fields into the mapping from tags to fields. Where a tag
/// occurs more than once, the last of its fields stays.
pub fn collect_fields(fields: Vec<DecodedField>) -> (data: ExifData)
    ensures
        data@ == tag_map(field_models(fields@)),
{
    let mut map: HashMap<u32, DecodedField> = HashMap::new();
    let ghost all = fields@;
    assert(map@.map_values(|f: DecodedField| f@) =~= tag_map(field_models(all.take(0))));
    for field in it: fields.into_iter()
        invariant
            it.seq() == all,
            map@.map_values(|f: DecodedField| f@) == tag_map(
                field_models(all.take(it.index() as int)),
            ),
            forall|k: u32| #[trigger] map@.contains_key(k) ==> map@[k]@.code() == k,
    {
        let ghost before = map@;
        let ghost seen = field_models(all.take(it.index() as int));
        let code: u32 = field.code();
        map.insert(code, field);
        proof {
            tag_map_push(seen, field@);
            assert(field_models(all.take(it.index() + 1)) =~= seen.push(field@));
            assert(map@.map_values(|f: DecodedField| f@) =~= before.map_values(
                |f: DecodedField| f@,
            ).insert(code, field@));
        }
    }
    assert(all.take(all.len() as int) =~= all);
    ExifData { fields: map }
}

} // verus!
