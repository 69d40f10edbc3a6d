//! Decoding the bytes of an EXIF item into a mapping from tags to fields.

use crate::error::ExifError;
use crate::mapping::{collect_fields, tag_map, ExifData};
use crate::tag::{field_models, DecodedField, FieldModel, TagContext};
use vstd::prelude::*;

verus! {

/// The number of bytes that come before the EXIF data in the raw bytes of an
/// EXIF metadata item.
pub const PREFIX_LEN: usize = 4;

/// The error type of the EXIF decoder.
#[verifier::external_type_specification]
#[verifier::external_body]
pub struct ExDecoderError(exif::Error);

/// What the EXIF decoder makes of `payload`: `None` where it rejects the
/// bytes, else the fields it reads, in the order in which it yields them.
pub uninterp spec fn exif_decoding(payload: Seq<u8>) -> Option<Seq<FieldModel>>;

/// Runs `exif::Reader::read_raw` on `payload` and lists the fields of the
/// result (`exif::Exif::fields`), each with its tag's context and number,
/// the tag's description (`exif::Tag::description`) and the value as
/// `exif::Value::display_as` shows it for that tag.
///
/// Trusted: the contract only names the outcome, which depends on the bytes
/// alone. Nothing is claimed of which bytes are accepted or of what the
/// fields hold.
#[verifier::external_body]
fn decode_payload(payload: Vec<u8>) -> (decoded: Result<Vec<DecodedField>, exif::Error>)
    ensures
        match decoded {
            Ok(fields) => exif_decoding(payload@) == Some(field_models(fields@)),
            Err(_) => exif_decoding(payload@) is None,
        },
{
    let parsed = exif::Reader::new().read_raw(payload)?;
    Ok(parsed.fields().map(|f| DecodedField {
        context: match f.tag.0 {
            exif::Context::Tiff => Some(TagContext::Tiff),
            exif::Context::Exif => Some(TagContext::Exif),
            exif::Context::Gps => Some(TagContext::Gps),
            exif::Context::Interop => Some(TagContext::Interop),
            _ => None,
        },
        number: f.tag.1,
        description: f.tag.description().map(String::from),
        value: f.value.display_as(f.tag).to_string(),
    }).collect())
}

/// The bytes of an EXIF item that are handed to the decoder: all but the
/// first four, or `None` where the item is shorter than that.
pub open spec fn exif_payload(data: Seq<u8>) -> Option<Seq<u8>> {
    if data.len() >= PREFIX_LEN {
        Some(data.skip(PREFIX_LEN as int))
    } else {
        None
    }
}

/// What parsing the raw bytes of an EXIF item gives: the mapping of the
/// decoded fields, or an error where the item is too short or the decoder
/// rejects what follows the prefix.
pub open spec fn parse_outcome(data: Seq<u8>) -> Result<Map<u32, FieldModel>, ExifError> {
    match exif_payload(data) {
        None => Err(ExifError::InvalidExifDataError),
        Some(payload) => match exif_decoding(payload) {
            None => Err(ExifError::InvalidExifDataError),
            Some(fields) => Ok(tag_map(fields)),
        },
    }
}

/// Removes the prefix from the raw bytes of an EXIF item.
pub fn strip_prefix(data: Vec<u8>) -> (payload: Option<Vec<u8>>)
    ensures
        match payload {
            Some(bytes) => exif_payload(data@) == Some(bytes@),
            None => exif_payload(data@) is None,
        },
{
    if data.len() < PREFIX_LEN {
        return None;
    }
    let mut head: Vec<u8> = data;
    let tail: Vec<u8> = head.split_off(PREFIX_LEN);
    Some(tail)
}

/// Parses the raw bytes of an EXIF metadata item, given with their
/// four-byte prefix, into the mapping from tags to decoded fields.
///
/// The prefix is dropped and the rest is decoded. An item shorter than the
/// prefix fails like one that the decoder rejects.
pub fn parse_exif_data(data: Vec<u8>) -> (parsed: Result<ExifData, ExifError>)
    ensures
        match parsed {
            Ok(fields) => parse_outcome(data@) == Ok::<Map<u32, FieldModel>, ExifError>(fields@),
            Err(error) => parse_outcome(data@) == Err::<Map<u32, FieldModel>, ExifError>(error),
        },
{
    let payload: Vec<u8> = match strip_prefix(data) {
        Some(bytes) => bytes,
        None => {
            return Err(ExifError::InvalidExifDataError);
        },
    };
    match decode_payload(payload) {
        Ok(fields) => Ok(collect_fields(fields)),
        Err(_) => Err(ExifError::InvalidExifDataError),
    }
}

/// Dropping the prefix gives back exactly the bytes that were put behind
/// it: an item made of any four bytes followed by `payload` is parsed as
/// the decoder decodes `payload`.
pub proof fn prefix_is_dropped_exactly(prefix: Seq<u8>, payload: Seq<u8>)
    requires
        prefix.len() == PREFIX_LEN,
    ensures
        exif_payload(prefix + payload) == Some(payload),
        parse_outcome(prefix + payload) == match exif_decoding(payload) {
            Some(fields) => Ok::<Map<u32, FieldModel>, ExifError>(tag_map(fields)),
            None => Err(ExifError::InvalidExifDataError),
        },
{
    assert((prefix + payload).skip(PREFIX_LEN as int) =~= payload);
}

/// An item shorter than the prefix is rejected, whatever it holds.
pub proof fn short_item_is_rejected(data: Seq<u8>)
    requires
        data.len() < PREFIX_LEN,
    ensures
        parse_outcome(data) == Err::<Map<u32, FieldModel>, ExifError>(
            ExifError::InvalidExifDataError,
        ),
{
}

} // verus!
