//! The text of the report: one block of lines for each bucket.

use crate::buckets::{entry_models, BucketEntry, Buckets, BucketsModel, EntryModel};
use crate::tag::TagContext;
use vstd::prelude::*;

verus! {

/// The texts of a sequence of lines, in the same order.
pub open spec fn texts(lines: Seq<String>) -> Seq<Seq<char>> {
    Seq::new(lines.len(), |i: int| lines[i]@)
}

/// The line that stands above the entries of a bucket that is not empty.
pub open spec fn header_text(context: TagContext) -> Seq<char> {
    match context {
        TagContext::Exif => "Exif Data:"@,
        TagContext::Tiff => "Tiff Data:"@,
        TagContext::Gps => "GPS Data:"@,
        TagContext::Interop => "Interop Data:"@,
    }
}

/// The line that stands for an empty bucket.
pub open spec fn empty_text(context: TagContext) -> Seq<char> {
    match context {
        TagContext::Exif => "No Exif Data Found."@,
        TagContext::Tiff => "No Tiff Data Found."@,
        TagContext::Gps => "No Gps Data Found."@,
        TagContext::Interop => "No Interop Data Found."@,
    }
}

/// The line of one entry: its description, a colon and a space, its value.
pub open spec fn entry_text(entry: EntryModel) -> Seq<char> {
    entry.description + ": "@ + entry.value
}

/// The lines of one bucket: the notice of an empty bucket, or the header
/// followed by one line for each entry, in the order of the entries.
pub open spec fn bucket_text(context: TagContext, entries: Seq<EntryModel>) -> Seq<Seq<char>> {
    if entries.len() == 0 {
        seq![empty_text(context)]
    } else {
        seq![header_text(context)] + entries.map_values(|e: EntryModel| entry_text(e))
    }
}

/// The lines of the whole report: the buckets of the EXIF, TIFF, GPS and
/// interoperability contexts, in this order.
pub open spec fn report_text(buckets: BucketsModel) -> Seq<Seq<char>> {
    bucket_text(TagContext::Exif, buckets.exif) + bucket_text(TagContext::Tiff, buckets.tiff)
        + bucket_text(TagContext::Gps, buckets.gps) + bucket_text(
        TagContext::Interop,
        buckets.interop,
    )
}

/// The header of the bucket of `context`.
pub fn header(context: TagContext) -> (line: String)
    ensures
        line@ == header_text(context),
{
    match context {
        TagContext::Exif => String::from_str("Exif Data:"),
        TagContext::Tiff => String::from_str("Tiff Data:"),
        TagContext::Gps => String::from_str("GPS Data:"),
        TagContext::Interop => String::from_str("Interop Data:"),
    }
}

/// The notice that the bucket of `context` is empty.
pub fn empty_notice(context: TagContext) -> (line: String)
    ensures
        line@ == empty_text(context),
{
    match context {
        TagContext::Exif => String::from_str("No Exif Data Found."),
        TagContext::Tiff => String::from_str("No Tiff Data Found."),
        TagContext::Gps => String::from_str("No Gps Data Found."),
        TagContext::Interop => String::from_str("No Interop Data Found."),
    }
}

/// The line of one entry.
pub fn entry_line(entry: &BucketEntry) -> (line: String)
    ensures
        line@ == entry_text(entry@),
{
    let mut line: String = entry.description.clone();
    line.append(": ");
    line.append(entry.value.as_str());
    line
}

/// The lines of one bucket.
pub fn render_bucket(context: TagContext, entries: &Vec<BucketEntry>) -> (lines: Vec<String>)
    ensures
        texts(lines@) == bucket_text(context, entry_models(entries@)),
{
    let mut lines: Vec<String> = Vec::new();
    if entries.len() == 0 {
        lines.push(empty_notice(context));
        assert(texts(lines@) =~= seq![empty_text(context)]);
        return lines;
    }
    lines.push(header(context));
    let mut i: usize = 0;
    while i < entries.len()
        invariant
            i <= entries.len(),
            lines.len() == i + 1,
            lines[0]@ == header_text(context),
            forall|j: int| 0 <= j < i ==> (#[trigger] lines[j + 1])@ == entry_text(entries[j]@),
        decreases entries.len() - i,
    {
        lines.push(entry_line(&entries[i]));
        i += 1;
    }
    proof {
        let expected = bucket_text(context, entry_models(entries@));
        assert(expected.len() == lines.len());
        assert forall|k: int| 0 <= k < lines.len() implies texts(lines@)[k] == expected[k] by {
            if k > 0 {
                assert(lines[(k - 1) + 1]@ == entry_text(entries[k - 1]@));
            }
        }
        assert(texts(lines@) =~= expected);
    }
    lines
}

/// The lines of the whole report.
pub fn render(buckets: &Buckets) -> (lines: Vec<String>)
    ensures
        texts(lines@) == report_text(buckets@),
{
    let mut lines: Vec<String> = render_bucket(TagContext::Exif, &buckets.exif);
    let mut tiff: Vec<String> = render_bucket(TagContext::Tiff, &buckets.tiff);
    let mut gps: Vec<String> = render_bucket(TagContext::Gps, &buckets.gps);
    let mut interop: Vec<String> = render_bucket(TagContext::Interop, &buckets.interop);
    let ghost first = lines@;
    let ghost second = tiff@;
    let ghost third = gps@;
    let ghost fourth = interop@;
    lines.append(&mut tiff);
    lines.append(&mut gps);
    lines.append(&mut interop);
    assert(texts(lines@) =~= texts(first) + texts(second) + texts(third) + texts(fourth));
    lines
}

} // verus!
