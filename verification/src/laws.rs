use crate::ansi_string::AnsiString;
use crate::errors::Error;
use crate::short_string::{
    content_len, is_terminated, lemma_content_len, lemma_content_len_is, padded, zeros,
    ShortString,
};
use crate::utf16::{lemma_utf16_round_trip, lemma_utf16_units_len, utf16_lossy, utf16_units};
use crate::winapi::{NarrowReply, WideReply};
use vstd::prelude::*;

verus! {

/// Round trip of an `AnsiString`. Let the platform encode a text without
/// failure and without replacing a character, and let it decode the bytes
/// it wrote to the code units it was given. Then `to_text` gives back the
/// text that went into `from_text`.
pub proof fn lemma_ansi_string_round_trip(
    text: Seq<char>,
    encoded: &NarrowReply,
    decoded: &WideReply,
)
    requires
        encoded.outcome(AnsiString::capacity_for(utf16_units(text).len()) as int) is Ok,
        decoded.output(
            encoded.output(AnsiString::capacity_for(utf16_units(text).len()) as int).len() as int,
        ) == utf16_units(text),
    ensures
        AnsiString::spec_from_text(text, Some(encoded)) matches Some(Ok(bytes))
            && AnsiString::spec_to_text(bytes, Some(decoded)) == Some(text),
{
    lemma_utf16_round_trip(text);
    if utf16_units(text).len() == 0 {
        assert(text.len() == 0) by {
            lemma_utf16_units_len(text);
        }
        assert(text =~= Seq::<char>::empty());
    }
}

/// Round trip of a `ShortString`. Let a text have fewer than 255 UTF-16
/// code units, let the platform encode it without failure and without
/// replacing a character, in at most 255 bytes of which none is zero (and
/// in at least one, unless the text is empty), and let it decode the bytes
/// it wrote to the code units it was given. Then `to_text` gives back the
/// text that went into `from_text`.
///
/// A zero byte in the encoding would end the string where it stands: a
/// text that holds U+0000 does not come back whole.
pub proof fn lemma_short_string_round_trip(
    text: Seq<char>,
    encoded: &NarrowReply,
    decoded: &WideReply,
)
    requires
        utf16_units(text).len() < 255,
        encoded.outcome(256) is Ok,
        encoded.output(256).len() <= 255,
        forall|i: int| 0 <= i < encoded.output(256).len() ==> encoded.output(256)[i] != 0,
        utf16_units(text).len() > 0 ==> encoded.output(256).len() > 0,
        decoded.output(256) == utf16_units(text),
    ensures
        ShortString::spec_from_text(text, Some(encoded)) matches Some(Ok(buffer))
            && ShortString::spec_to_text(buffer, Some(decoded)) == Some(text),
{
    lemma_utf16_round_trip(text);
    if utf16_units(text).len() == 0 {
        assert(text.len() == 0) by {
            lemma_utf16_units_len(text);
        }
        assert(text =~= Seq::<char>::empty());
        assert(padded(Seq::empty())[0] == 0);
        lemma_content_len_is(padded(Seq::empty()), 0);
    } else {
        let content = encoded.output(256);
        let buffer = padded(content);
        assert forall|i: int| 0 <= i < content.len() implies buffer[i] != 0 by {
            assert(buffer[i] == content[i]);
        }
        if content.len() < 256 {
            assert(buffer[content.len() as int] == 0);
        }
        lemma_content_len_is(buffer, content.len() as int);
    }
}

/// The empty text needs no platform: whatever reply is passed, `from_text`
/// gives the empty string, of no bytes or of 256 zero bytes, and `to_text`
/// of that string gives the empty text.
pub proof fn lemma_empty_text(
    text: Seq<char>,
    encoded: Option<&NarrowReply>,
    decoded: Option<&WideReply>,
)
    requires
        text.len() == 0,
    ensures
        AnsiString::spec_from_text(text, encoded) == Some(Ok::<Seq<u8>, Error>(Seq::empty())),
        AnsiString::spec_to_text(Seq::empty(), decoded) == Some(Seq::<char>::empty()),
        ShortString::spec_from_text(text, encoded) == Some(Ok::<Seq<u8>, Error>(zeros(256))),
        content_len(zeros(256)) == 0,
        ShortString::spec_to_text(zeros(256), decoded) == Some(Seq::<char>::empty()),
{
    assert(padded(Seq::empty()) =~= zeros(256));
}

/// A character that the code page lacks is an error, never a substitute:
/// where the platform reports that it used its default character, and did
/// not fail, `from_text` gives `AnsiConversionError` and no string.
pub proof fn lemma_loss_is_an_error(text: Seq<char>, encoded: &NarrowReply)
    requires
        text.len() > 0,
        !encoded.failed(),
        encoded.default_char_used,
    ensures
        AnsiString::spec_from_text(text, Some(encoded)) == Some(
            Err::<Seq<u8>, Error>(Error::AnsiConversionError),
        ),
        utf16_units(text).len() < 255 ==> ShortString::spec_from_text(text, Some(encoded)) == Some(
            Err::<Seq<u8>, Error>(Error::AnsiConversionError),
        ),
{
    lemma_utf16_units_len(text);
}

/// The capacity of a short string. A text of 255 UTF-16 code units or more
/// is refused with `CapacityExceeded`, whatever the platform says and also
/// before it is asked. A shorter one, up to 254 code units, becomes a
/// string as soon as the platform encodes it without failure or loss in at
/// most 255 bytes, as it does wherever a code unit takes one byte; it is
/// refused so only where the bytes are 256. An `AnsiString` takes a text of
/// any length.
pub proof fn lemma_capacity_boundary(text: Seq<char>, encoded: Option<&NarrowReply>)
    ensures
        utf16_units(text).len() >= 255 ==> ShortString::spec_from_text(text, encoded) == Some(
            Err::<Seq<u8>, Error>(Error::CapacityExceeded),
        ),
        utf16_units(text).len() <= 254 && (encoded matches Some(r) && r.outcome(256) is Ok
            && r.count(256) <= 255) ==> ShortString::spec_from_text(text, encoded) matches Some(
            Ok(_),
        ),
        utf16_units(text).len() <= 254 && ShortString::spec_from_text(text, encoded) == Some(
            Err::<Seq<u8>, Error>(Error::CapacityExceeded),
        ) ==> (encoded matches Some(r) && r.outcome(256) is Ok && r.count(256) == 256),
        AnsiString::spec_from_text(text, encoded) != Some(
            Err::<Seq<u8>, Error>(Error::CapacityExceeded),
        ),
{
}

/// What a short string made from text holds behind the text: zero bytes,
/// and at least one. So it has its terminator, and it is read no further
/// than the platform wrote.
pub proof fn lemma_short_string_is_terminated(text: Seq<char>, encoded: &NarrowReply)
    requires
        ShortString::spec_from_text(text, Some(encoded)) is Some,
        ShortString::spec_from_text(text, Some(encoded))->0 is Ok,
    ensures
        ({
            let buffer = ShortString::spec_from_text(text, Some(encoded))->0->Ok_0;
            let count = if utf16_units(text).len() == 0 {
                0
            } else {
                encoded.count(256)
            };
            &&& buffer.len() == 256
            &&& 0 <= count <= 255
            &&& forall|i: int| count <= i < 256 ==> buffer[i] == 0
            &&& content_len(buffer) <= count
            &&& is_terminated(buffer)
        }),
{
    let buffer = ShortString::spec_from_text(text, Some(encoded))->0->Ok_0;
    let count = if utf16_units(text).len() == 0 {
        0
    } else {
        encoded.count(256)
    };
    lemma_content_len(buffer);
    if content_len(buffer) > count {
        assert(buffer[count] == 0);
    }
}

/// The two string types read their bytes differently. A short string that
/// starts with a zero byte is the empty text, whatever follows the zero and
/// whatever the platform says. An `AnsiString` of the same bytes is decoded
/// in its full length: the platform is asked, and the text is the reading
/// of what it wrote for all the bytes.
pub proof fn lemma_terminator_asymmetry(bytes: Seq<u8>, decoded: &WideReply)
    requires
        bytes.len() > 0,
        bytes[0] == 0,
    ensures
        ShortString::spec_to_text(bytes, None) == Some(Seq::<char>::empty()),
        ShortString::spec_to_text(bytes, Some(decoded)) == Some(Seq::<char>::empty()),
        AnsiString::spec_to_text(bytes, None) is None,
        AnsiString::spec_to_text(bytes, Some(decoded)) == Some(
            utf16_lossy(decoded.output(bytes.len() as int)),
        ),
{
}

/// Encoding is a function of the text and of what the platform wrote: two
/// replies that hold the same values end `from_text` in the same way.
pub proof fn lemma_encoding_is_deterministic(
    text: Seq<char>,
    first: &NarrowReply,
    second: &NarrowReply,
)
    requires
        first.bytes@ == second.bytes@,
        first.written == second.written,
        first.last_error == second.last_error,
        first.default_char_used == second.default_char_used,
    ensures
        AnsiString::spec_from_text(text, Some(first)) == AnsiString::spec_from_text(
            text,
            Some(second),
        ),
        ShortString::spec_from_text(text, Some(first)) == ShortString::spec_from_text(
            text,
            Some(second),
        ),
{
}

} // verus!
