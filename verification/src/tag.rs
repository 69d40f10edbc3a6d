//! Tags, their contexts, and the fields that the decoder reads.

use vstd::prelude::*;

verus! {

/// How a tag number is interpreted: the part of the EXIF data in which the
/// field was found.
#[derive(Clone, Copy, Debug, PartialEq, Eq, Structural)]
pub enum TagContext {
    /// Attributes of the base TIFF structure.
    Tiff,
    /// EXIF-specific attributes.
    Exif,
    /// GPS attributes.
    Gps,
    /// Interoperability attributes.
    Interop,
}

/// One decoded field, as plain values.
///
/// `context` is `None` where the decoder reports a context that is none of
/// the four known ones. `description` is the human-readable description of
/// the tag, if it has one, and `value` the field's value in the
/// tag-specific form in which it is displayed.
#[derive(Clone, Debug, PartialEq, Eq)]
pub struct DecodedField {
    pub context: Option<TagContext>,
    pub number: u16,
    pub description: Option<String>,
    pub value: String,
}

/// The mathematical value of a [`DecodedField`].
pub struct FieldModel {
    pub context: Option<TagContext>,
    pub number: u16,
    pub description: Option<Seq<char>>,
    pub value: Seq<char>,
}

impl View for DecodedField {
    type V = FieldModel;

    open spec fn view(&self) -> FieldModel {
        FieldModel {
            context: self.context,
            number: self.number,
            description: match self.description {
                Some(text) => Some(text@),
                None => None,
            },
            value: self.value@,
        }
    }
}

/// The models of a sequence of fields, in the same order.
pub open spec fn field_models(fields: Seq<DecodedField>) -> Seq<FieldModel> {
    Seq::new(fields.len(), |i: int| fields[i]@)
}

/// A number for each context, and one more for an unknown context.
pub open spec fn context_index(context: Option<TagContext>) -> int {
    match context {
        Some(TagContext::Tiff) => 0,
        Some(TagContext::Exif) => 1,
        Some(TagContext::Gps) => 2,
        Some(TagContext::Interop) => 3,
        None => 4,
    }
}

/// The key under which a tag is stored: its context and number packed into
/// one integer, different tags giving different keys.
pub open spec fn tag_code(context: Option<TagContext>, number: u16) -> u32 {
    (context_index(context) * 65536 + number) as u32
}

impl FieldModel {
    /// The key of this field's tag.
    pub open spec fn code(self) -> u32 {
        tag_code(self.context, self.number)
    }

    /// Whether this field has the same tag as `other`.
    pub open spec fn same_tag(self, other: FieldModel) -> bool {
        self.context == other.context && self.number == other.number
    }
}

/// Whether no two fields of the sequence have the same tag.
pub open spec fn tags_differ(fields: Seq<FieldModel>) -> bool {
    forall|i: int, j: int|
        0 <= i < j < fields.len() ==> !(#[trigger] fields[i]).same_tag(#[trigger] fields[j])
}

/// Two tags have the same key exactly when they are the same tag.
pub proof fn tag_code_is_injective(
    context_a: Option<TagContext>,
    number_a: u16,
    context_b: Option<TagContext>,
    number_b: u16,
)
    ensures
        tag_code(context_a, number_a) == tag_code(context_b, number_b) <==> (context_a
            == context_b && number_a == number_b),
{
}

/// The key under which the tag with this context and number is stored.
pub fn tag_key(context: Option<TagContext>, number: u16) -> (key: u32)
    ensures
        key == tag_code(context, number),
{
    let index: u32 = match context {
        Some(TagContext::Tiff) => 0,
        Some(TagContext::Exif) => 1,
        Some(TagContext::Gps) => 2,
        Some(TagContext::Interop) => 3,
        None => 4,
    };
    index * 65536 + number as u32
}

impl DecodedField {
    /// The key of this field's tag.
    pub fn code(&self) -> (code: u32)
        ensures
            code == self@.code(),
    {
        tag_key(self.context, self.number)
    }

    /// A copy of this field.
    pub fn duplicate(&self) -> (copy: DecodedField)
        ensures
            copy == *self,
    {
        let description: Option<String> = match &self.description {
            Some(text) => Some(text.clone()),
            None => None,
        };
        DecodedField {
            context: self.context,
            number: self.number,
            description,
            value: self.value.clone(),
        }
    }
}

} // verus!
