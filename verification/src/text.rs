//! Turning what the server committed into text.

use vstd::prelude::*;
use vstd::utf8::{decode_utf8, valid_utf8};

verus! {

/// The text encoding that client and server agreed on.
#[derive(Clone, Copy, Debug, PartialEq, Eq, Structural)]
pub enum Encoding {
    /// The server sends UTF-8.
    Utf8,
    /// The server sends compound text, which a codec has to turn into UTF-8.
    CompoundText,
    /// Anything else: such text cannot be read.
    Other,
}

impl Encoding {
    /// Text in this encoding has to go through the codec before it is read.
    pub open spec fn transcoded(self) -> bool {
        self == Encoding::CompoundText
    }

    /// Whether text in this encoding has to go through the codec.
    pub fn needs_transcoding(&self) -> (b: bool)
        ensures
            b == self.transcoded(),
    {
        match self {
            Encoding::CompoundText => true,
            _ => false,
        }
    }
}

/// What `String::from_utf8_lossy` makes of bytes that are not UTF-8.
pub uninterp spec fn lossy_text(bytes: Seq<u8>) -> Seq<char>;

/// The text that bytes are read as: the characters they encode where they are
/// UTF-8, and otherwise what lossy decoding makes of them.
pub open spec fn text_of(bytes: Seq<u8>) -> Seq<char> {
    if valid_utf8(bytes) {
        decode_utf8(bytes)
    } else {
        lossy_text(bytes)
    }
}

/// The UTF-8 bytes of a commit: the text itself where the server sends UTF-8,
/// the codec's result where it sends compound text, and nothing where the codec
/// failed or the encoding is unknown.
pub open spec fn commit_bytes(
    encoding: Encoding,
    input: Seq<u8>,
    transcoded: Option<Seq<u8>>,
) -> Seq<u8> {
    match encoding {
        Encoding::Utf8 => input,
        Encoding::CompoundText => match transcoded {
            Some(utf8) => utf8,
            None => Seq::empty(),
        },
        Encoding::Other => Seq::empty(),
    }
}

/// The view of an optional byte slice.
pub open spec fn bytes_of(bytes: Option<&[u8]>) -> Option<Seq<u8>> {
    match bytes {
        Some(b) => Some(b@),
        None => None,
    }
}

/// `String::from_utf8_lossy`, made an owned string. The contract claims that
/// valid UTF-8 comes back as the very characters it encodes, which is what the
/// standard library documents; for other bytes it only gives the result its
/// name.
#[verifier::external_body]
pub(crate) fn utf8_lossy(bytes: &[u8]) -> (text: String)
    ensures
        valid_utf8(bytes@) ==> text@ == decode_utf8(bytes@),
        !valid_utf8(bytes@) ==> text@ == lossy_text(bytes@),
{
    String::from_utf8_lossy(bytes).into_owned()
}

/// The text of a logged or committed byte string.
pub fn decode_text(bytes: &[u8]) -> (text: String)
    ensures
        text@ == text_of(bytes@),
{
    utf8_lossy(bytes)
}

/// The text of a commit. `input` is the committed text as the server sent it,
/// without its terminator; `transcoded` is what the codec made of it and is
/// read only for compound text, where `None` says that the codec failed.
pub fn commit_text(encoding: Encoding, input: &[u8], transcoded: Option<&[u8]>) -> (text: String)
    ensures
        text@ == text_of(commit_bytes(encoding, input@, bytes_of(transcoded))),
{
    match encoding {
        Encoding::Utf8 => decode_text(input),
        Encoding::CompoundText => match transcoded {
            Some(utf8) => decode_text(utf8),
            None => empty_text(),
        },
        Encoding::Other => empty_text(),
    }
}

/// The text of no bytes.
fn empty_text() -> (text: String)
    ensures
        text@ == text_of(Seq::empty()),
{
    proof {
        lemma_text_of_empty();
    }
    String::new()
}

/// No bytes are read as no text.
pub proof fn lemma_text_of_empty()
    ensures
        text_of(Seq::<u8>::empty()) == Seq::<char>::empty(),
{
    let none = Seq::<u8>::empty();
    assert(valid_utf8(none));
    assert(decode_utf8(none) =~= Seq::<char>::empty());
}

} // verus!
