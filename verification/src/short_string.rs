use crate::errors::Error;
use crate::utf16::{decode_utf16_lossy, encode_utf16, utf16_lossy, utf16_units};
use crate::winapi::{
    active_code_page, ansi_to_utf16, narrow_call, narrow_text, utf16_to_ansi, wide_call,
    wide_text, DecodeRequest, EncodeRequest, NarrowReply, Step, WideReply,
};
use vstd::prelude::*;
use vstd::slice::{slice_subrange, slice_to_vec};

verus! {

/// `n` zero bytes.
pub open spec fn zeros(n: nat) -> Seq<u8> {
    Seq::new(n, |i: int| 0u8)
}

/// `content` at the front of a buffer of 256 bytes that is zero elsewhere.
pub open spec fn padded(content: Seq<u8>) -> Seq<u8> {
    content + zeros((256 - content.len()) as nat)
}

/// The length of what a buffer holds when it is read as a terminated
/// string: the number of bytes before its first zero byte, and its whole
/// length where it has none.
pub open spec fn content_len(buffer: Seq<u8>) -> nat
    decreases buffer.len(),
{
    if buffer.len() == 0 || buffer[0] == 0 {
        0
    } else {
        1 + content_len(buffer.skip(1))
    }
}

/// What `content_len` is: no byte before it is zero, and the byte at it,
/// if there is one, is zero.
pub proof fn lemma_content_len(buffer: Seq<u8>)
    ensures
        content_len(buffer) <= buffer.len(),
        forall|i: int| 0 <= i < content_len(buffer) ==> buffer[i] != 0,
        content_len(buffer) < buffer.len() ==> buffer[content_len(buffer) as int] == 0,
    decreases buffer.len(),
{
    if buffer.len() == 0 || buffer[0] == 0 {
    } else {
        let rest = buffer.skip(1);
        lemma_content_len(rest);
        assert forall|i: int| 0 <= i < content_len(buffer) implies buffer[i] != 0 by {
            if i > 0 {
                assert(buffer[i] == rest[i - 1]);
            }
        }
        if content_len(buffer) < buffer.len() {
            assert(buffer[content_len(buffer) as int] == rest[content_len(rest) as int]);
        }
    }
}

/// Whether a buffer holds a zero byte, which ends the string in it.
pub open spec fn is_terminated(buffer: Seq<u8>) -> bool {
    content_len(buffer) < buffer.len()
}

/// The only number of which both hold is `content_len`.
pub proof fn lemma_content_len_is(buffer: Seq<u8>, n: int)
    requires
        0 <= n <= buffer.len(),
        forall|i: int| 0 <= i < n ==> buffer[i] != 0,
        n < buffer.len() ==> buffer[n] == 0,
    ensures
        content_len(buffer) == n,
{
    lemma_content_len(buffer);
    let m = content_len(buffer) as int;
    if m < n {
        assert(buffer[m] == 0);
    } else if n < m {
        assert(buffer[n] != 0);
    }
}

/// C-style string that enforces the requirements of a Delphi "short string" - namely a limit of 255 characters,
/// and characters being in the current Windows ANSI codepage.
///
/// The buffer has 256 bytes. It is read up to its first zero byte. One
/// made from text holds at most 255 bytes of text and is zero behind them,
/// so that it always has its terminator; one taken from the host is
/// whatever the host wrote.
#[derive(Debug)]
pub struct ShortString([u8; 256]);

impl View for ShortString {
    type V = Seq<u8>;

    /// The 256 bytes of the buffer.
    closed spec fn view(&self) -> Seq<u8> {
        self.0@
    }
}

impl ShortString {
    /// Get a reference to the internal `u8` array.
    pub fn as_arr(&self) -> (bytes: &[u8])
        ensures
            bytes@ == self@,
            bytes@.len() == 256,
    {
        &self.0
    }

    /// Takes a buffer that the host filled, as it is: nothing is converted
    /// or looked at.
    pub fn from_host_buffer(raw: &[u8; 256]) -> (string: Self)
        ensures
            string@ == raw@,
    {
        ShortString(*raw)
    }

    /// Takes the bytes of a string that the host handed over, without its
    /// terminator, to the front of a buffer that is zero elsewhere.
    pub fn from_host_bytes(bytes: &[u8]) -> (string: Self)
        requires
            bytes@.len() <= 256,
        ensures
            string@ == padded(bytes@),
    {
        let mut outdata: [u8; 256] = [0u8; 256];
        let mut i: usize = 0;
        while i < bytes.len()
            invariant
                i <= bytes@.len() <= 256,
                outdata@ == padded(bytes@.take(i as int)),
            decreases bytes@.len() - i,
        {
            outdata[i] = bytes[i];
            i += 1;
            assert(outdata@ =~= padded(bytes@.take(i as int)));
        }
        assert(bytes@.take(i as int) =~= bytes@);
        ShortString(outdata)
    }

    /// The place of the terminator: the index of the first zero byte, or
    /// `MissingTerminator` where the buffer holds none.
    pub fn terminator(&self) -> (place: Result<usize, Error>)
        ensures
            match place {
                Ok(n) => n < 256 && n == content_len(self@),
                Err(e) => e == Error::MissingTerminator && content_len(self@) == 256,
            },
    {
        let mut i: usize = 0;
        while i < 256
            invariant
                i <= 256,
                forall|j: int| 0 <= j < i ==> self.0@[j] != 0,
            decreases 256 - i,
        {
            if self.0[i] == 0 {
                proof {
                    lemma_content_len_is(self@, i as int);
                }
                return Ok(i);
            }
            i += 1;
        }
        proof {
            lemma_content_len_is(self@, 256);
        }
        Err(Error::MissingTerminator)
    }

    /// The buffer that `from_text` gives for `text`: `None` as long as the
    /// platform has to be asked; `CapacityExceeded` for a text of 255
    /// UTF-16 code units or more, whatever the platform would say; else the
    /// error of the conversion, or the bytes that the platform wrote, and
    /// zero behind them, unless they are more than 255, which is
    /// `CapacityExceeded` too.
    pub open spec fn spec_from_text(text: Seq<char>, reply: Option<&NarrowReply>) -> Option<
        Result<Seq<u8>, Error>,
    > {
        let wide_len = utf16_units(text).len();
        if wide_len >= 255 {
            Some(Err(Error::CapacityExceeded))
        } else {
            match narrow_text(wide_len, 256, reply) {
                None => None,
                Some(Ok(bytes)) => if bytes.len() > 255 {
                    Some(Err(Error::CapacityExceeded))
                } else {
                    Some(Ok(padded(bytes)))
                },
                Some(Err(e)) => Some(Err(e)),
            }
        }
    }

    /// The text that `to_text` gives for a buffer: `None` as long as the
    /// platform has to be asked, then the lenient reading of the code units
    /// that it wrote for the bytes before the terminator.
    pub open spec fn spec_to_text(buffer: Seq<u8>, reply: Option<&WideReply>) -> Option<
        Seq<char>,
    > {
        match wide_text(content_len(buffer), 256, reply) {
            None => None,
            Some(units) => Some(utf16_lossy(units)),
        }
    }

    /// Encodes `text` in the active ANSI code page, into a short string.
    ///
    /// A text of 255 UTF-16 code units or more is refused before anything
    /// else is done. Called with no reply, it hands out the request for the
    /// platform, unless the text is empty or refused. Called again with the
    /// platform's reply, it ends: with the error of the conversion, or with
    /// the bytes that the platform wrote at the front of a zeroed buffer.
    /// Bytes that fill the buffer to its end would leave it without a
    /// terminator: they are refused as the long text is.
    pub fn from_text(text: &str, reply: Option<&NarrowReply>) -> (step: Step<
        EncodeRequest,
        Result<ShortString, Error>,
    >)
        ensures
            match step {
                Step::Call(request) => {
                    &&& Self::spec_from_text(text@, reply) is None
                    &&& request.wide@ == utf16_units(text@)
                    &&& request.call == narrow_call(active_code_page(), 256)
                },
                Step::Done(Ok(string)) => {
                    &&& Self::spec_from_text(text@, reply) == Some(Ok::<Seq<u8>, Error>(string@))
                    &&& is_terminated(string@)
                },
                Step::Done(Err(e)) => Self::spec_from_text(text@, reply) == Some(
                    Err::<Seq<u8>, Error>(e),
                ),
            },
    {
        let widedata = encode_utf16(text);
        if widedata.len() >= 255 {
            return Step::Done(Err(Error::CapacityExceeded));
        }
        let mut outdata: [u8; 256] = [0u8; 256];
        assert(outdata@ =~= zeros(256));
        match utf16_to_ansi(widedata.as_slice(), &mut outdata, reply) {
            Step::Call(call) => Step::Call(EncodeRequest { call, wide: widedata }),
            Step::Done(Err(e)) => Step::Done(Err(e)),
            Step::Done(Ok(count)) => {
                if count > 255 {
                    return Step::Done(Err(Error::CapacityExceeded));
                }
                proof {
                    match reply {
                        Some(r) if widedata@.len() > 0 => {
                            assert(outdata@ =~= padded(r.output(256)));
                        },
                        _ => {
                            assert(outdata@ =~= padded(Seq::<u8>::empty()));
                        },
                    }
                    assert(outdata@[255] == 0);
                    lemma_content_len(outdata@);
                }
                Step::Done(Ok(ShortString(outdata)))
            },
        }
    }

    /// Decodes the string to text: the bytes before its first zero byte,
    /// and all 256 where it has none. It does not fail: what the platform
    /// gives back is read leniently, and where the platform wrote nothing
    /// the text is empty.
    ///
    /// Called with no reply, it hands out the request for the platform,
    /// unless the string starts with a zero byte. Called again with the
    /// platform's reply, it ends with the text.
    pub fn to_text(&self, reply: Option<&WideReply>) -> (step: Step<DecodeRequest, String>)
        ensures
            match step {
                Step::Call(request) => {
                    &&& Self::spec_to_text(self@, reply) is None
                    &&& request.narrow@ == self@.take(content_len(self@) as int)
                    &&& request.call == wide_call(active_code_page(), 256)
                },
                Step::Done(text) => Self::spec_to_text(self@, reply) == Some(text@),
            },
    {
        let length = match self.terminator() {
            Ok(place) => place,
            Err(_) => 256,
        };
        let content = slice_subrange(&self.0, 0, length);
        let mut widedata: [u16; 256] = [0u16; 256];
        match ansi_to_utf16(content, &mut widedata, reply) {
            Step::Call(call) => Step::Call(DecodeRequest { call, narrow: slice_to_vec(content) }),
            Step::Done(Err(_)) => {
                proof {
                    let r = reply->0;
                    assert(r.output(256) =~= Seq::<u16>::empty());
                }
                Step::Done(String::new())
            },
            Step::Done(Ok(count)) => {
                let units = slice_subrange(&widedata, 0, count);
                proof {
                    match reply {
                        Some(r) if length > 0 => {
                            assert(units@ =~= r.output(256));
                        },
                        _ => {
                            assert(units@ =~= Seq::<u16>::empty());
                        },
                    }
                }
                Step::Done(decode_utf16_lossy(units))
            },
        }
    }
}

impl Default for ShortString {
    /// The empty string: a buffer of zero bytes.
    fn default() -> (string: Self)
        ensures
            string@ == zeros(256),
    {
        let outdata: [u8; 256] = [0u8; 256];
        assert(outdata@ =~= zeros(256));
        ShortString(outdata)
    }
}

} // verus!
