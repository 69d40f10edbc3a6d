//! The basic properties of the primary image, and the lines that report
//! them.

use crate::report::texts;
use vstd::prelude::*;

verus! {

/// What the container tells about its primary image without decoding it.
#[derive(Clone, Copy, Debug, PartialEq, Eq, Structural)]
pub struct ImageProperties {
    /// The width in pixels.
    pub width: u32,
    /// The height in pixels.
    pub height: u32,
    /// Whether the image has an alpha channel.
    pub has_alpha: bool,
    /// The number of bits of a luma sample.
    pub luma_bits: u8,
    /// The number of bits of a chroma sample.
    pub chroma_bits: u8,
}

/// The character of a decimal digit.
pub open spec fn digit_text(digit: nat) -> Seq<char> {
    seq![seq!['0', '1', '2', '3', '4', '5', '6', '7', '8', '9'][digit as int]]
}

/// A number in decimal notation, without leading zeros.
pub open spec fn decimal_text(n: nat) -> Seq<char>
    decreases n,
{
    if n < 10 {
        digit_text(n)
    } else {
        decimal_text(n / 10) + digit_text(n % 10)
    }
}

/// A truth value as a word.
pub open spec fn truth_text(value: bool) -> Seq<char> {
    if value {
        "yes"@
    } else {
        "no"@
    }
}

/// The lines that report the properties of an image: width, height,
/// presence of an alpha channel, and the bits of a luma and of a chroma
/// sample.
pub open spec fn properties_text(properties: ImageProperties) -> Seq<Seq<char>> {
    seq![
        "Width: "@ + decimal_text(properties.width as nat),
        "Height: "@ + decimal_text(properties.height as nat),
        "Alpha channel: "@ + truth_text(properties.has_alpha),
        "Luma bits per pixel: "@ + decimal_text(properties.luma_bits as nat),
        "Chroma bits per pixel: "@ + decimal_text(properties.chroma_bits as nat),
    ]
}

/// The dimensions of the image: its width and its height, in pixels.
pub fn get_dimensions(properties: &ImageProperties) -> (dimensions: (u32, u32))
    ensures
        dimensions == (properties.width, properties.height),
{
    (properties.width, properties.height)
}

/// The text of one decimal digit.
fn digit(value: u32) -> (text: &'static str)
    requires
        value < 10,
    ensures
        text@ == digit_text(value as nat),
{
    proof {
        reveal_strlit("0");
        reveal_strlit("1");
        reveal_strlit("2");
        reveal_strlit("3");
        reveal_strlit("4");
        reveal_strlit("5");
        reveal_strlit("6");
        reveal_strlit("7");
        reveal_strlit("8");
        reveal_strlit("9");
    }
    let text: &'static str = match value {
        0 => "0",
        1 => "1",
        2 => "2",
        3 => "3",
        4 => "4",
        5 => "5",
        6 => "6",
        7 => "7",
        8 => "8",
        _ => "9",
    };
    assert(text@ =~= digit_text(value as nat));
    text
}

/// Writes a number in decimal notation.
pub fn decimal(n: u32) -> (text: String)
    ensures
        text@ == decimal_text(n as nat),
    decreases n,
{
    if n < 10 {
        String::from_str(digit(n))
    } else {
        let mut text: String = decimal(n / 10);
        text.append(digit(n % 10));
        text
    }
}

/// Puts a label in front of a text.
fn labelled(label: &str, text: &str) -> (line: String)
    ensures
        line@ == label@ + text@,
{
    let mut line: String = String::from_str(label);
    line.append(text);
    line
}

/// The lines that report the properties of an image.
pub fn property_lines(properties: &ImageProperties) -> (lines: Vec<String>)
    ensures
        texts(lines@) == properties_text(*properties),
{
    let mut lines: Vec<String> = Vec::new();
    lines.push(labelled("Width: ", decimal(properties.width).as_str()));
    lines.push(labelled("Height: ", decimal(properties.height).as_str()));
    lines.push(labelled("Alpha channel: ", if properties.has_alpha { "yes" } else { "no" }));
    lines.push(labelled("Luma bits per pixel: ", decimal(properties.luma_bits as u32).as_str()));
    lines.push(
        labelled("Chroma bits per pixel: ", decimal(properties.chroma_bits as u32).as_str()),
    );
    assert(texts(lines@) =~= properties_text(*properties));
    lines
}

} // verus!
