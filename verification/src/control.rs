//! The text commands with which a peer sets the status LED.
//!
//! A command is one of the words `red`, `green`, `blue` and `off`, sent as
//! UTF-8 text with any white space around it. The text is decoded and
//! trimmed by the standard library; what those two calls return is stated
//! at the end of this file and not proved.

use crate::led::RgbColor;
use vstd::prelude::*;
use vstd::string::StringSliceAdditionalSpecFns;
use vstd::utf8::{decode_utf8, encode_utf8, encode_utf8_decode_utf8, valid_utf8};

verus! {

/// The colour a word stands for.
pub open spec fn named_color(word: Seq<char>) -> Option<RgbColor> {
    if word == "red"@ {
        Some(RgbColor { red: 255, green: 0, blue: 0 })
    } else if word == "green"@ {
        Some(RgbColor { red: 0, green: 255, blue: 0 })
    } else if word == "blue"@ {
        Some(RgbColor { red: 0, green: 0, blue: 255 })
    } else if word == "off"@ {
        Some(RgbColor { red: 0, green: 0, blue: 0 })
    } else {
        None
    }
}

/// Whether the character is white space: one of the code points with the
/// Unicode property White_Space.
pub open spec fn white_space(c: char) -> bool {
    let code = c as u32;
    ||| 0x0009 <= code <= 0x000D
    ||| code == 0x0020
    ||| code == 0x0085
    ||| code == 0x00A0
    ||| code == 0x1680
    ||| 0x2000 <= code <= 0x200A
    ||| code == 0x2028
    ||| code == 0x2029
    ||| code == 0x202F
    ||| code == 0x205F
    ||| code == 0x3000
}

/// The text without the white space it begins with.
pub open spec fn trimmed_start(text: Seq<char>) -> Seq<char>
    decreases text.len(),
{
    if text.len() > 0 && white_space(text.first()) {
        trimmed_start(text.drop_first())
    } else {
        text
    }
}

/// The text without the white space it ends with.
pub open spec fn trimmed_end(text: Seq<char>) -> Seq<char>
    decreases text.len(),
{
    if text.len() > 0 && white_space(text.last()) {
        trimmed_end(text.drop_last())
    } else {
        text
    }
}

/// The text without the white space it begins and ends with.
pub open spec fn trimmed(text: Seq<char>) -> Seq<char> {
    trimmed_end(trimmed_start(text))
}

/// The colour the bytes of a message ask for: the one its text names once
/// the white space around it is taken away. Bytes that are no UTF-8 text
/// ask for none.
pub open spec fn commanded_color(data: Seq<u8>) -> Option<RgbColor> {
    if valid_utf8(data) {
        named_color(trimmed(decode_utf8(data)))
    } else {
        None
    }
}

/// Whether the character is white space.
pub fn is_white_space(c: char) -> (white: bool)
    ensures
        white == white_space(c),
{
    let code: u32 = c as u32;
    (0x0009 <= code && code <= 0x000D) || code == 0x0020 || code == 0x0085 || code == 0x00A0
        || code == 0x1680 || (0x2000 <= code && code <= 0x200A) || code == 0x2028 || code
        == 0x2029 || code == 0x202F || code == 0x205F || code == 0x3000
}

/// Whether two byte strings are the same.
pub fn bytes_equal(a: &[u8], b: &[u8]) -> (equal: bool)
    ensures
        equal == (a@ == b@),
{
    if a.len() != b.len() {
        return false;
    }
    let mut i: usize = 0;
    while i < a.len()
        invariant
            i <= a.len(),
            a.len() == b.len(),
            forall|j: int| 0 <= j < i ==> a@[j] == b@[j],
        decreases a.len() - i,
    {
        if a[i] != b[i] {
            return false;
        }
        i += 1;
    }
    assert(a@ =~= b@);
    true
}

/// Whether `word` is the text `name`.
fn is_word(word: &str, name: &str) -> (same: bool)
    ensures
        same == (word@ == name@),
{
    let same = bytes_equal(word.as_bytes(), name.as_bytes());
    proof {
        encode_utf8_decode_utf8(word@);
        encode_utf8_decode_utf8(name@);
    }
    same
}

/// The colour the word names, if it is the name of one.
pub fn color_named(word: &str) -> (color: Option<RgbColor>)
    ensures
        color == named_color(word@),
{
    if is_word(word, "red") {
        Some(RgbColor::red())
    } else if is_word(word, "green") {
        Some(RgbColor::green())
    } else if is_word(word, "blue") {
        Some(RgbColor::blue())
    } else if is_word(word, "off") {
        Some(RgbColor::black())
    } else {
        None
    }
}

/// The colour the bytes a peer has written ask for.
pub fn command_color(data: &[u8]) -> (color: Option<RgbColor>)
    ensures
        color == commanded_color(data@),
{
    match core::str::from_utf8(data) {
        Ok(text) => {
            proof {
                encode_utf8_decode_utf8(text@);
            }
            color_named(text.trim())
        },
        Err(_) => None,
    }
}

/// `core::str::Utf8Error`, which says where bytes stop being UTF-8.
#[verifier::external_type_specification]
#[verifier::external_body]
pub struct ExUtf8Error(core::str::Utf8Error);

/// `core::str::from_utf8` succeeds exactly on bytes that are valid UTF-8,
/// and then hands out a text of those very bytes.
pub assume_specification[ core::str::from_utf8 ](v: &[u8]) -> (r: Result<
    &str,
    core::str::Utf8Error,
>)
    ensures
        r is Ok <==> valid_utf8(v@),
        r is Ok ==> r->Ok_0.spec_bytes() == v@,
;

/// `str::trim` hands out the text without its leading and trailing white
/// space, where white space is what the Unicode property White_Space
/// covers.
pub assume_specification[ str::trim ](text: &str) -> (r: &str)
    ensures
        r@ == trimmed(text@),
;

} // verus!
