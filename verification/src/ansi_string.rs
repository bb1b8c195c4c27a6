use crate::errors::Error;
use crate::utf16::{decode_utf16_lossy, encode_utf16, utf16_lossy, utf16_units};
use crate::winapi::{
    active_code_page, ansi_to_utf16, narrow_call, narrow_text, utf16_to_ansi, wide_call,
    wide_text, DecodeRequest, EncodeRequest, NarrowReply, Step, WideReply,
};
use vstd::prelude::*;
use vstd::slice::slice_subrange;

verus! {

/// String encoded in the current Windows ANSI code page, of any length.
/// It holds the encoded bytes and nothing else: no terminator.
#[derive(Debug, PartialEq, Eq, PartialOrd, Ord)]
pub struct AnsiString(Vec<u8>);

impl View for AnsiString {
    type V = Seq<u8>;

    /// The encoded bytes.
    closed spec fn view(&self) -> Seq<u8> {
        self.0@
    }
}

impl AnsiString {
    /// Get a reference to the internal `u8` vector.
    pub fn as_vec(&self) -> (bytes: &Vec<u8>)
        ensures
            bytes@ == self@,
    {
        &self.0
    }

    /// Get a slice, optionally constrained to `max_size`.
    pub fn as_slice(&self, max_size: Option<usize>) -> (bytes: &[u8])
        ensures
            bytes@ == self@.take(Self::slice_len(self@.len(), max_size)),
    {
        let len = self.0.len();
        let end = match max_size {
            Some(max) => if max < len {
                max
            } else {
                len
            },
            None => len,
        };
        slice_subrange(self.0.as_slice(), 0, end)
    }

    /// The length of the slice that `as_slice` gives of `len` bytes: all of
    /// them, or `max_size` bytes where there are more.
    pub open spec fn slice_len(len: nat, max_size: Option<usize>) -> int {
        match max_size {
            Some(max) if max < len => max as int,
            _ => len as int,
        }
    }

    /// The size of the buffer that the platform is given for a text of
    /// `wide_len` UTF-16 code units: one byte for each, and one more as far
    /// as a `usize` can say so.
    pub open spec fn capacity_for(wide_len: nat) -> nat {
        if wide_len < usize::MAX {
            wide_len + 1
        } else {
            wide_len
        }
    }

    /// The bytes that `from_text` gives for `text`: `None` as long as the
    /// platform has to be asked, then the bytes it wrote, or the error.
    pub open spec fn spec_from_text(text: Seq<char>, reply: Option<&NarrowReply>) -> Option<
        Result<Seq<u8>, Error>,
    > {
        let wide_len = utf16_units(text).len();
        narrow_text(wide_len, Self::capacity_for(wide_len), reply)
    }

    /// The text that `to_text` gives for `bytes`: `None` as long as the
    /// platform has to be asked, then the lenient reading of the code units
    /// that it wrote.
    pub open spec fn spec_to_text(bytes: Seq<u8>, reply: Option<&WideReply>) -> Option<Seq<char>> {
        match wide_text(bytes.len(), bytes.len(), reply) {
            None => None,
            Some(units) => Some(utf16_lossy(units)),
        }
    }

    /// Encodes `text` in the active ANSI code page.
    ///
    /// Called with no reply, it hands out the request for the platform,
    /// unless the text is empty. Called again with the platform's reply, it
    /// ends: with the bytes that the platform wrote, cut to their count, or
    /// with the error of the conversion.
    pub fn from_text(text: &str, reply: Option<&NarrowReply>) -> (step: Step<
        EncodeRequest,
        Result<AnsiString, Error>,
    >)
        ensures
            match step {
                Step::Call(request) => {
                    &&& Self::spec_from_text(text@, reply) is None
                    &&& request.wide@ == utf16_units(text@)
                    &&& request.call == narrow_call(
                        active_code_page(),
                        Self::capacity_for(utf16_units(text@).len()),
                    )
                },
                Step::Done(Ok(string)) => Self::spec_from_text(text@, reply) == Some(
                    Ok::<Seq<u8>, Error>(string@),
                ),
                Step::Done(Err(e)) => Self::spec_from_text(text@, reply) == Some(
                    Err::<Seq<u8>, Error>(e),
                ),
            },
    {
        let widedata = encode_utf16(text);
        let capacity = if widedata.len() < usize::MAX {
            widedata.len() + 1
        } else {
            widedata.len()
        };
        let mut outdata: Vec<u8> = vec![0u8; capacity];
        match utf16_to_ansi(widedata.as_slice(), outdata.as_mut_slice(), reply) {
            Step::Call(call) => Step::Call(EncodeRequest { call, wide: widedata }),
            Step::Done(Err(e)) => Step::Done(Err(e)),
            Step::Done(Ok(count)) => {
                let ghost filled = outdata@;
                outdata.truncate(count);
                proof {
                    match reply {
                        Some(r) if widedata@.len() > 0 => {
                            assert(outdata@ =~= r.output(filled.len() as int));
                        },
                        _ => {
                            assert(outdata@ =~= Seq::<u8>::empty());
                        },
                    }
                }
                Step::Done(Ok(AnsiString(outdata)))
            },
        }
    }

    /// Decodes the string, all of its bytes, to text. It does not fail:
    /// what the platform gives back is read leniently, and where the
    /// platform wrote nothing the text is empty.
    ///
    /// Called with no reply, it hands out the request for the platform,
    /// unless the string is empty. Called again with the platform's reply,
    /// it ends with the text.
    pub fn to_text(&self, reply: Option<&WideReply>) -> (step: Step<DecodeRequest, String>)
        ensures
            match step {
                Step::Call(request) => {
                    &&& Self::spec_to_text(self@, reply) is None
                    &&& request.narrow@ == self@
                    &&& request.call == wide_call(active_code_page(), self@.len())
                },
                Step::Done(text) => Self::spec_to_text(self@, reply) == Some(text@),
            },
    {
        let mut widedata: Vec<u16> = vec![0u16; self.0.len()];
        match ansi_to_utf16(self.0.as_slice(), widedata.as_mut_slice(), reply) {
            Step::Call(call) => Step::Call(DecodeRequest { call, narrow: self.0.clone() }),
            Step::Done(Err(_)) => {
                proof {
                    let r = reply->0;
                    assert(r.output(self@.len() as int) =~= Seq::<u16>::empty());
                }
                Step::Done(String::new())
            },
            Step::Done(Ok(count)) => {
                let units = slice_subrange(widedata.as_slice(), 0, count);
                proof {
                    match reply {
                        Some(r) if self@.len() > 0 => {
                            assert(units@ =~= r.output(self@.len() as int));
                        },
                        _ => {
                            assert(units@ =~= Seq::<u16>::empty());
                        },
                    }
                }
                Step::Done(decode_utf16_lossy(units))
            },
        }
    }
}

impl Default for AnsiString {
    /// The empty string.
    fn default() -> (string: Self)
        ensures
            string@.len() == 0,
    {
        AnsiString(Vec::new())
    }
}

} // verus!
