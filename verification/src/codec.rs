//! Textual encodings of raw signature bytes.
//!
//! A signature is written into an annotation either as braille patterns, one
//! character per byte, or as standard base64.

use rustc_serialize::base64::{FromBase64, ToBase64, STANDARD};
use vstd::prelude::*;

verus! {

/// First code point of the braille pattern block.
pub const BRAILLE_BASE: u32 = 0x2800;

/// Last code point of the braille pattern block.
pub const BRAILLE_LAST: u32 = 0x28FF;

/// The textual scheme in which annotations carry their signature.
#[derive(Clone, Copy, Debug, PartialEq, Eq, Structural)]
pub enum Scheme {
    /// One braille pattern per byte.
    Braille,
    /// Standard base64 with padding.
    Base64,
}

/// `std::char::from_u32`: `None` for a surrogate or a value above
/// `0x10FFFF`, otherwise the character with that code point.
pub assume_specification[ char::from_u32 ](i: u32) -> (r: Option<char>)
    ensures
        r == (if i <= 0xD7FF || (0xE000 <= i && i <= 0x10FFFF) {
            Some(i as char)
        } else {
            None::<char>
        }),
;

/// `String::push`: appends one character at the end.
pub assume_specification[ String::push ](s: &mut String, c: char)
    ensures
        final(s)@ == old(s)@.push(c),
;

/// The base64 text that `rustc_serialize::base64::ToBase64::to_base64` gives
/// for `bytes` under the `STANDARD` configuration.
pub uninterp spec fn base64_text(bytes: Seq<u8>) -> Seq<char>;

/// The bytes that `rustc_serialize::base64::FromBase64::from_base64` gives for
/// `text`, or `None` where it returns an error.
pub uninterp spec fn base64_bytes(text: Seq<char>) -> Option<Seq<u8>>;

/// The characters that the base64 decoder lets pass: both alphabets, the
/// padding sign and the two line-break characters.
pub open spec fn is_base64_symbol(c: char) -> bool {
    ||| ('A' <= c && c <= 'Z')
    ||| ('a' <= c && c <= 'z')
    ||| ('0' <= c && c <= '9')
    ||| c == '+'
    ||| c == '/'
    ||| c == '-'
    ||| c == '_'
    ||| c == '='
    ||| c == '\r'
    ||| c == '\n'
}

/// Calls `to_base64` of `rustc_serialize` with its `STANDARD` configuration.
/// The text is the named encoding, and decoding it gives the bytes back.
#[verifier::external_body]
fn base64_encode(bytes: &[u8]) -> (text: String)
    ensures
        text@ == base64_text(bytes@),
        base64_bytes(text@) == Some(bytes@),
{
    bytes.to_base64(STANDARD)
}

/// Calls `from_base64` of `rustc_serialize`. The decoder looks at every
/// character, and one that is no base64 symbol makes it fail.
#[verifier::external_body]
fn base64_decode(text: &str) -> (r: Option<Vec<u8>>)
    ensures
        match r {
            Some(v) => base64_bytes(text@) == Some(v@),
            None => base64_bytes(text@) is None,
        },
        (exists|i: int| 0 <= i < text@.len() && !is_base64_symbol(#[trigger] text@[i]))
            ==> r is None,
{
    text.from_base64().ok()
}

/// The braille pattern that stands for the byte `b`.
pub open spec fn braille_char(b: u8) -> char {
    (b + BRAILLE_BASE) as char
}

/// Whether `c` lies in the braille pattern block.
pub open spec fn is_braille(c: char) -> bool {
    BRAILLE_BASE <= c as u32 && c as u32 <= BRAILLE_LAST
}

/// The byte that the braille pattern `c` stands for.
pub open spec fn braille_byte(c: char) -> u8 {
    (c as u32 - BRAILLE_BASE) as u8
}

/// The braille text of a byte sequence: one pattern per byte, in order.
pub open spec fn braille_text(bytes: Seq<u8>) -> Seq<char> {
    Seq::new(bytes.len(), |i: int| braille_char(bytes[i]))
}

/// The bytes of a braille text, or `None` where some character is no
/// braille pattern.
pub open spec fn braille_bytes(text: Seq<char>) -> Option<Seq<u8>> {
    if forall|i: int| 0 <= i < text.len() ==> is_braille(#[trigger] text[i]) {
        Some(Seq::new(text.len(), |i: int| braille_byte(text[i])))
    } else {
        None
    }
}

/// The text that stands for `bytes` under `scheme`.
pub open spec fn encoded_text(scheme: Scheme, bytes: Seq<u8>) -> Seq<char> {
    match scheme {
        Scheme::Braille => braille_text(bytes),
        Scheme::Base64 => base64_text(bytes),
    }
}

/// The bytes that `text` stands for under `scheme`, or `None` where it is
/// not valid under that scheme.
pub open spec fn decoded_bytes(scheme: Scheme, text: Seq<char>) -> Option<Seq<u8>> {
    match scheme {
        Scheme::Braille => braille_bytes(text),
        Scheme::Base64 => base64_bytes(text),
    }
}

/// Whether `c` may occur in a text of `scheme`.
pub open spec fn is_symbol(scheme: Scheme, c: char) -> bool {
    match scheme {
        Scheme::Braille => is_braille(c),
        Scheme::Base64 => is_base64_symbol(c),
    }
}

/// Decoding the braille text of any bytes gives those bytes back.
pub proof fn lemma_braille_round_trip(bytes: Seq<u8>)
    ensures
        braille_bytes(braille_text(bytes)) == Some(bytes),
{
    let text = braille_text(bytes);
    assert forall|i: int| 0 <= i < text.len() implies is_braille(#[trigger] text[i]) by {
        lemma_braille_char(bytes[i]);
    }
    assert forall|i: int| 0 <= i < text.len() implies braille_byte(#[trigger] text[i])
        == bytes[i] by {
        lemma_braille_char(bytes[i]);
    }
    assert(Seq::new(text.len(), |i: int| braille_byte(text[i])) =~= bytes);
}

/// A text with a character outside the braille pattern block does not decode.
pub proof fn lemma_braille_rejects(text: Seq<char>, i: int)
    requires
        0 <= i < text.len(),
        !is_braille(text[i]),
    ensures
        braille_bytes(text) is None,
{
}

/// The pattern of a byte lies in the braille block and stands for that byte.
proof fn lemma_braille_char(b: u8)
    ensures
        is_braille(braille_char(b)),
        braille_byte(braille_char(b)) == b,
        braille_char(b) as u32 == b + BRAILLE_BASE,
{
}

pub fn to_braille(xs: &[u8]) -> (s: String)
    ensures
        s@ == braille_text(xs@),
        braille_bytes(s@) == Some(xs@),
{
    let mut s = String::new();
    let mut i: usize = 0;
    while i < xs.len()
        invariant
            i <= xs.len(),
            s@ == braille_text(xs@.take(i as int)),
        decreases xs.len() - i,
    {
        let x: u8 = xs[i];
        // Every code point of the braille block is a character.
        let c = char::from_u32(x as u32 + BRAILLE_BASE).unwrap();
        s.push(c);
        i = i + 1;
        assert(s@ =~= braille_text(xs@.take(i as int)));
    }
    proof {
        assert(xs@.take(i as int) =~= xs@);
        lemma_braille_round_trip(xs@);
    }
    s
}

pub fn from_braille(xs: &str) -> (r: Option<Vec<u8>>)
    ensures
        match r {
            Some(v) => braille_bytes(xs@) == Some(v@),
            None => braille_bytes(xs@) is None,
        },
{
    let mut bogus = false;
    let mut vec: Vec<u8> = Vec::new();
    let chars = xs.chars();
    for c in it: chars
        invariant
            it.seq() == xs@,
            vec@.len() == it.index(),
            bogus <==> exists|j: int| 0 <= j < it.index() && !is_braille(#[trigger] xs@[j]),
            forall|j: int|
                0 <= j < it.index() && is_braille(xs@[j]) ==> #[trigger] vec@[j] == braille_byte(
                    xs@[j],
                ),
    {
        let n: u32 = c as u32;
        if BRAILLE_BASE <= n && n <= BRAILLE_LAST {
            vec.push((n - BRAILLE_BASE) as u8);
        } else {
            bogus = true;
            vec.push(0);
        }
    }
    if bogus {
        None
    } else {
        assert(vec@ =~= Seq::new(xs@.len(), |i: int| braille_byte(xs@[i])));
        Some(vec)
    }
}

impl Scheme {
    /// Write `bytes` as text. Decoding the text gives the bytes back.
    pub fn encode(self, bytes: &[u8]) -> (text: String)
        ensures
            text@ == encoded_text(self, bytes@),
            decoded_bytes(self, text@) == Some(bytes@),
    {
        match self {
            Scheme::Braille => to_braille(bytes),
            Scheme::Base64 => base64_encode(bytes),
        }
    }

    /// Read the bytes that `text` stands for. A text that holds a character
    /// which is no symbol of the scheme never decodes.
    pub fn decode(self, text: &str) -> (r: Option<Vec<u8>>)
        ensures
            match r {
                Some(v) => decoded_bytes(self, text@) == Some(v@),
                None => decoded_bytes(self, text@) is None,
            },
            (exists|i: int| 0 <= i < text@.len() && !is_symbol(self, #[trigger] text@[i]))
                ==> r is None,
    {
        match self {
            Scheme::Braille => from_braille(text),
            Scheme::Base64 => base64_decode(text),
        }
    }
}

} // verus!
