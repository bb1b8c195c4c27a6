use crate::errors::Error;
use vstd::prelude::*;
use windows_sys::Win32::Globalization::{CP_ACP, WC_NO_BEST_FIT_CHARS};

verus! {

/// The code page identifier that stands for the system's active ANSI code page.
pub open spec fn active_code_page() -> u32 {
    0
}

/// The flag that forbids the platform to replace a character by one that
/// merely looks alike.
pub open spec fn no_best_fit_chars() -> u32 {
    1024
}

/// `windows_sys::Win32::Globalization::CP_ACP`: the constant is 0.
#[verifier::external_body]
pub(crate) fn cp_acp() -> (code_page: u32)
    ensures
        code_page == 0u32,
{
    CP_ACP
}

/// `windows_sys::Win32::Globalization::WC_NO_BEST_FIT_CHARS`: the constant is 1024.
#[verifier::external_body]
pub(crate) fn wc_no_best_fit_chars() -> (flags: u32)
    ensures
        flags == 1024u32,
{
    WC_NO_BEST_FIT_CHARS
}

/// Where a conversion stands: it either needs the platform to do its part,
/// or it is over.
#[derive(Debug, PartialEq, Eq)]
pub enum Step<C, T> {
    /// The platform has to be called as `C` says; the conversion goes on
    /// with its reply.
    Call(C),
    /// The conversion is over, with this result.
    Done(T),
}

/// One call of the platform's wide-to-narrow primitive, to be made on the
/// wide string that is being converted.
#[derive(Debug, Clone, Copy, PartialEq, Eq)]
pub struct NarrowCall {
    /// The code page to encode in.
    pub code_page: u32,
    /// The conversion flags.
    pub flags: u32,
    /// The size in bytes of the buffer that the platform may fill.
    pub capacity: usize,
    /// The character to put where the code page lacks one, or `None` to
    /// leave the choice to the platform.
    pub default_char: Option<u8>,
    /// Whether the platform is to report that it put a default character
    /// somewhere.
    pub report_default_char: bool,
}

/// What the platform's wide-to-narrow primitive handed back, with the
/// status that was read right after the call.
#[derive(Debug, Clone, PartialEq, Eq)]
pub struct NarrowReply {
    /// The output buffer as the platform left it.
    pub bytes: Vec<u8>,
    /// The number of bytes that the platform says it wrote.
    pub written: usize,
    /// The platform's last-error status, read right after the call.
    pub last_error: u32,
    /// Whether the platform put its default character in the place of one
    /// that the code page lacks.
    pub default_char_used: bool,
}

/// One call of the platform's narrow-to-wide primitive, to be made on the
/// narrow string that is being converted, all of it.
#[derive(Debug, Clone, Copy, PartialEq, Eq)]
pub struct WideCall {
    /// The code page to decode from.
    pub code_page: u32,
    /// The conversion flags.
    pub flags: u32,
    /// The size in code units of the buffer that the platform may fill.
    pub capacity: usize,
}

/// What the platform's narrow-to-wide primitive handed back, with the
/// status that was read right after the call.
#[derive(Debug, Clone, PartialEq, Eq)]
pub struct WideReply {
    /// The output buffer as the platform left it.
    pub units: Vec<u16>,
    /// The number of code units that the platform says it wrote.
    pub written: usize,
    /// The platform's last-error status, read right after the call.
    pub last_error: u32,
}

/// What a string type hands out when its text has to go through the
/// platform: the call to make, and the wide string to make it on.
#[derive(Debug, PartialEq, Eq)]
pub struct EncodeRequest {
    /// The call to make.
    pub call: NarrowCall,
    /// The UTF-16 code units to encode.
    pub wide: Vec<u16>,
}

/// What a string type hands out when its bytes have to go through the
/// platform: the call to make, and the narrow string to make it on.
#[derive(Debug, PartialEq, Eq)]
pub struct DecodeRequest {
    /// The call to make.
    pub call: WideCall,
    /// The bytes to decode, all of them.
    pub narrow: Vec<u8>,
}

/// The least of three numbers.
pub open spec fn min3(a: int, b: int, c: int) -> int {
    if a <= b && a <= c {
        a
    } else if b <= c {
        b
    } else {
        c
    }
}

impl NarrowReply {
    /// The platform reported failure: nothing written, and a status.
    pub open spec fn failed(&self) -> bool {
        self.written == 0 && self.last_error != 0
    }

    /// How many bytes of the reply count as output in a buffer of
    /// `capacity` bytes: as many as the platform says it wrote, but no more
    /// than the reply holds or the buffer takes.
    pub open spec fn count(&self, capacity: int) -> int {
        min3(self.written as int, self.bytes@.len() as int, capacity)
    }

    /// The bytes of the reply that count as output.
    pub open spec fn output(&self, capacity: int) -> Seq<u8> {
        self.bytes@.take(self.count(capacity))
    }

    /// What the reply means for an encoding into a buffer of `capacity`
    /// bytes: the platform's failure first, then a loss, else the count.
    pub open spec fn outcome(&self, capacity: int) -> Result<usize, Error> {
        if self.failed() {
            Err(Error::Win32Error(self.last_error))
        } else if self.default_char_used {
            Err(Error::AnsiConversionError)
        } else {
            Ok(self.count(capacity) as usize)
        }
    }
}

impl WideReply {
    /// The platform reported failure: nothing written, and a status.
    pub open spec fn failed(&self) -> bool {
        self.written == 0 && self.last_error != 0
    }

    /// How many code units of the reply count as output in a buffer of
    /// `capacity` units: as many as the platform says it wrote, but no more
    /// than the reply holds or the buffer takes.
    pub open spec fn count(&self, capacity: int) -> int {
        min3(self.written as int, self.units@.len() as int, capacity)
    }

    /// The code units of the reply that count as output.
    pub open spec fn output(&self, capacity: int) -> Seq<u16> {
        self.units@.take(self.count(capacity))
    }

    /// What the reply means for a decoding into a buffer of `capacity`
    /// units: the platform's failure, else the count.
    pub open spec fn outcome(&self, capacity: int) -> Result<usize, Error> {
        if self.failed() {
            Err(Error::Win32Error(self.last_error))
        } else {
            Ok(self.count(capacity) as usize)
        }
    }
}

/// The call that encodes in `code_page` into a buffer of `capacity` bytes:
/// no character may be replaced by one that looks alike, none is named as
/// the default, and the platform is to say whether it used its own.
pub open spec fn narrow_call(code_page: u32, capacity: nat) -> NarrowCall {
    NarrowCall {
        code_page,
        flags: no_best_fit_chars(),
        capacity: capacity as usize,
        default_char: None,
        report_default_char: true,
    }
}

/// The call that decodes from `code_page` into a buffer of `capacity` code
/// units, with no flag set.
pub open spec fn wide_call(code_page: u32, capacity: nat) -> WideCall {
    WideCall { code_page, flags: 0, capacity: capacity as usize }
}

/// The step of an encoding of `wide_len` code units into a buffer of
/// `capacity` bytes. Nothing is asked of the platform for an empty string,
/// which it would refuse.
pub open spec fn narrow_step(
    code_page: u32,
    wide_len: nat,
    capacity: nat,
    reply: Option<&NarrowReply>,
) -> Step<NarrowCall, Result<usize, Error>> {
    if wide_len == 0 {
        Step::Done(Ok(0usize))
    } else {
        match reply {
            None => Step::Call(narrow_call(code_page, capacity)),
            Some(r) => Step::Done(r.outcome(capacity as int)),
        }
    }
}

/// The output buffer after that step: where it ended well on a reply, the
/// reply's output and behind it what the buffer held; else the buffer as it was.
pub open spec fn narrow_buffer(before: Seq<u8>, wide_len: nat, reply: Option<&NarrowReply>) -> Seq<
    u8,
> {
    match reply {
        Some(r) if wide_len > 0 && r.outcome(before.len() as int) is Ok => r.output(
            before.len() as int,
        ) + before.skip(r.count(before.len() as int)),
        _ => before,
    }
}

/// The narrow string that an encoding of `wide_len` code units into a
/// buffer of `capacity` bytes gives: `None` as long as the platform has to
/// be asked, then its output or the error.
pub open spec fn narrow_text(wide_len: nat, capacity: nat, reply: Option<&NarrowReply>) -> Option<
    Result<Seq<u8>, Error>,
> {
    if wide_len == 0 {
        Some(Ok(Seq::empty()))
    } else {
        match reply {
            None => None,
            Some(r) => Some(
                match r.outcome(capacity as int) {
                    Ok(_) => Ok(r.output(capacity as int)),
                    Err(e) => Err(e),
                },
            ),
        }
    }
}

/// The code units that a decoding of `narrow_len` bytes into a buffer of
/// `capacity` units gives: `None` as long as the platform has to be asked,
/// then its output, which is empty where it failed.
pub open spec fn wide_text(narrow_len: nat, capacity: nat, reply: Option<&WideReply>) -> Option<
    Seq<u16>,
> {
    if narrow_len == 0 {
        Some(Seq::empty())
    } else {
        match reply {
            None => None,
            Some(r) => Some(r.output(capacity as int)),
        }
    }
}

/// The step of a decoding of `narrow_len` bytes into a buffer of `capacity`
/// code units. Nothing is asked of the platform for an empty string.
pub open spec fn wide_step(
    code_page: u32,
    narrow_len: nat,
    capacity: nat,
    reply: Option<&WideReply>,
) -> Step<WideCall, Result<usize, Error>> {
    if narrow_len == 0 {
        Step::Done(Ok(0usize))
    } else {
        match reply {
            None => Step::Call(wide_call(code_page, capacity)),
            Some(r) => Step::Done(r.outcome(capacity as int)),
        }
    }
}

/// The output buffer after that step.
pub open spec fn wide_buffer(before: Seq<u16>, narrow_len: nat, reply: Option<&WideReply>) -> Seq<
    u16,
> {
    match reply {
        Some(r) if narrow_len > 0 && r.outcome(before.len() as int) is Ok => r.output(
            before.len() as int,
        ) + before.skip(r.count(before.len() as int)),
        _ => before,
    }
}

/// The least of three lengths.
fn least(a: usize, b: usize, c: usize) -> (m: usize)
    ensures
        m == min3(a as int, b as int, c as int),
{
    if a <= b && a <= c {
        a
    } else if b <= c {
        b
    } else {
        c
    }
}

/// Copies the first `n` items of `src` over the first `n` items of `out`.
fn copy_prefix<T: Copy>(out: &mut [T], src: &[T], n: usize)
    requires
        n <= old(out)@.len(),
        n <= src@.len(),
    ensures
        final(out)@ == src@.take(n as int) + old(out)@.skip(n as int),
{
    let mut i: usize = 0;
    while i < n
        invariant
            i <= n,
            n <= src@.len(),
            out@.len() == old(out)@.len(),
            n <= out@.len(),
            out@ == src@.take(i as int) + old(out)@.skip(i as int),
        decreases n - i,
    {
        out[i] = src[i];
        i += 1;
        assert(out@ =~= src@.take(i as int) + old(out)@.skip(i as int));
    }
}

/// Encodes UTF-16 code units in a code page, by way of the platform.
///
/// Called with no reply, it says whether the platform is needed: not for an
/// empty string, which is encoded at once as nothing. Called again with the
/// platform's reply to that call, it ends the conversion: with the
/// platform's status where it failed, with `AnsiConversionError` where a
/// character was replaced, and else with the number of bytes, which it has
/// copied to the front of `out_multi_byte_string`.
pub fn utf16_to_code_page(
    code_page: u32,
    wide_string: &[u16],
    out_multi_byte_string: &mut [u8],
    reply: Option<&NarrowReply>,
) -> (step: Step<NarrowCall, Result<usize, Error>>)
    ensures
        step == narrow_step(
            code_page,
            wide_string@.len(),
            old(out_multi_byte_string)@.len(),
            reply,
        ),
        final(out_multi_byte_string)@ == narrow_buffer(
            old(out_multi_byte_string)@,
            wide_string@.len(),
            reply,
        ),
{
    if wide_string.len() == 0 {
        return Step::Done(Ok(0));
    }
    let capacity = out_multi_byte_string.len();
    match reply {
        None => Step::Call(
            NarrowCall {
                code_page,
                flags: wc_no_best_fit_chars(),
                capacity,
                default_char: None,
                report_default_char: true,
            },
        ),
        Some(r) => {
            if r.written == 0 && r.last_error != 0 {
                return Step::Done(Err(Error::Win32Error(r.last_error)));
            }
            if r.default_char_used {
                return Step::Done(Err(Error::AnsiConversionError));
            }
            let count = least(r.written, r.bytes.len(), capacity);
            copy_prefix(out_multi_byte_string, r.bytes.as_slice(), count);
            Step::Done(Ok(count))
        },
    }
}

/// Encodes UTF-16 code units in the system's active ANSI code page: see
/// `utf16_to_code_page`.
pub fn utf16_to_ansi(
    wide_string: &[u16],
    out_multi_byte_string: &mut [u8],
    reply: Option<&NarrowReply>,
) -> (step: Step<NarrowCall, Result<usize, Error>>)
    ensures
        step == narrow_step(
            active_code_page(),
            wide_string@.len(),
            old(out_multi_byte_string)@.len(),
            reply,
        ),
        final(out_multi_byte_string)@ == narrow_buffer(
            old(out_multi_byte_string)@,
            wide_string@.len(),
            reply,
        ),
{
    utf16_to_code_page(cp_acp(), wide_string, out_multi_byte_string, reply)
}

/// Decodes the bytes of a code page to UTF-16 code units, by way of the
/// platform. All of `multi_byte_string` is decoded: no terminator is looked for.
///
/// Called with no reply, it says whether the platform is needed: not for an
/// empty string. Called again with the platform's reply to that call, it
/// ends the conversion: with the platform's status where it failed, and
/// else with the number of code units, which it has copied to the front of
/// `out_wide_string`. No loss is looked for in this direction.
pub fn code_page_to_utf16(
    code_page: u32,
    multi_byte_string: &[u8],
    out_wide_string: &mut [u16],
    reply: Option<&WideReply>,
) -> (step: Step<WideCall, Result<usize, Error>>)
    ensures
        step == wide_step(
            code_page,
            multi_byte_string@.len(),
            old(out_wide_string)@.len(),
            reply,
        ),
        final(out_wide_string)@ == wide_buffer(
            old(out_wide_string)@,
            multi_byte_string@.len(),
            reply,
        ),
{
    let strlen = multi_byte_string.len();
    if strlen == 0 {
        return Step::Done(Ok(0));
    }
    let capacity = out_wide_string.len();
    match reply {
        None => Step::Call(WideCall { code_page, flags: 0, capacity }),
        Some(r) => {
            if r.written == 0 && r.last_error != 0 {
                return Step::Done(Err(Error::Win32Error(r.last_error)));
            }
            let count = least(r.written, r.units.len(), capacity);
            copy_prefix(out_wide_string, r.units.as_slice(), count);
            Step::Done(Ok(count))
        },
    }
}

/// Decodes bytes of the system's active ANSI code page: see
/// `code_page_to_utf16`.
pub fn ansi_to_utf16(
    multi_byte_string: &[u8],
    out_wide_string: &mut [u16],
    reply: Option<&WideReply>,
) -> (step: Step<WideCall, Result<usize, Error>>)
    ensures
        step == wide_step(
            active_code_page(),
            multi_byte_string@.len(),
            old(out_wide_string)@.len(),
            reply,
        ),
        final(out_wide_string)@ == wide_buffer(
            old(out_wide_string)@,
            multi_byte_string@.len(),
            reply,
        ),
{
    code_page_to_utf16(cp_acp(), multi_byte_string, out_wide_string, reply)
}

} // verus!
