use vstd::prelude::*;
use vstd::utf8::is_ascii_chars;
use windows_sys::Win32::Foundation::WIN32_ERROR;

verus! {

/// The all-in-one error type to represent errors that may occur in the framework.
#[derive(Debug, PartialEq, Eq, Structural)]
pub enum Error {
    /// The string holds characters that the ANSI code page cannot represent:
    /// the platform would have had to put a substitute in their place.
    AnsiConversionError,
    /// The platform's conversion failed; the field is its status code, as it came.
    Win32Error(WIN32_ERROR),
    /// The text does not fit a short string: it has too many UTF-16 code
    /// units, or its encoding too many bytes.
    CapacityExceeded,
    /// A short string's buffer holds no zero byte.
    MissingTerminator,
}

/// The character of a decimal digit.
pub open spec fn digit_char(d: nat) -> char {
    (0x30 + d) as char
}

/// The decimal numeral of `n`, without leading zeros.
pub open spec fn decimal(n: nat) -> Seq<char>
    decreases n,
{
    if n < 10 {
        seq![digit_char(n)]
    } else {
        decimal(n / 10).push(digit_char(n % 10))
    }
}

/// A decimal numeral is ASCII, and that of a 32-bit number has at most ten digits.
pub proof fn lemma_decimal_ascii(n: nat)
    ensures
        is_ascii_chars(decimal(n)),
        1 <= decimal(n).len(),
        n < 10 ==> decimal(n).len() == 1,
        n < 0x1_0000_0000 ==> decimal(n).len() <= 10,
    decreases n,
{
    lemma_decimal_len(n, 10);
    lemma_decimal_chars(n);
    assert(pow10(10) == 10_000_000_000) by {
        reveal_with_fuel(pow10, 11);
    }
}

proof fn lemma_decimal_chars(n: nat)
    ensures
        is_ascii_chars(decimal(n)),
    decreases n,
{
    if n >= 10 {
        lemma_decimal_chars(n / 10);
    }
}

/// The numeral of a number below the `k`-th power of ten has at most `k` digits.
proof fn lemma_decimal_len(n: nat, k: nat)
    requires
        1 <= k,
    ensures
        1 <= decimal(n).len(),
        n < 10 ==> decimal(n).len() == 1,
        n < pow10(k) ==> decimal(n).len() <= k,
    decreases n,
{
    if n >= 10 {
        if k > 1 {
            lemma_decimal_len(n / 10, (k - 1) as nat);
        } else {
            lemma_decimal_len(n / 10, 1);
        }
    }
}

/// The power of ten with exponent `k`.
spec fn pow10(k: nat) -> nat
    decreases k,
{
    if k == 0 {
        1
    } else {
        10 * pow10((k - 1) as nat)
    }
}

/// Appends the decimal numeral of `n` to `text`.
fn push_decimal(text: &mut String, n: u32)
    ensures
        final(text)@ == old(text)@ + decimal(n as nat),
    decreases n,
{
    if n >= 10 {
        push_decimal(text, n / 10);
    }
    let digit: char = char::from_u32(0x30 + n % 10).unwrap();
    text.push(digit);
    assert(text@ =~= old(text)@ + decimal(n as nat));
}

impl Error {
    /// The text of the error's message.
    pub open spec fn text(self) -> Seq<char> {
        match self {
            Error::AnsiConversionError => "String contains characters that cannot be represented in the current ANSI code page"@,
            Error::Win32Error(code) => "Win32 error: "@ + decimal(code as nat),
            Error::CapacityExceeded => "String too long"@,
            Error::MissingTerminator => "String is not terminated"@,
        }
    }

    /// The error's message, for display. It is plain ASCII and at most 83
    /// characters long, so that it can itself be carried in a short string,
    /// with room to spare.
    pub fn message(&self) -> (msg: String)
        ensures
            msg@ == self.text(),
            is_ascii_chars(msg@),
            msg@.len() <= 83,
    {
        proof {
            reveal_strlit("String contains characters that cannot be represented in the current ANSI code page");
            reveal_strlit("Win32 error: ");
            reveal_strlit("String too long");
            reveal_strlit("String is not terminated");
        }
        match self {
            Error::AnsiConversionError => String::from_str(
                "String contains characters that cannot be represented in the current ANSI code page",
            ),
            Error::Win32Error(code) => {
                let mut msg = String::from_str("Win32 error: ");
                push_decimal(&mut msg, *code);
                proof {
                    lemma_decimal_ascii(*code as nat);
                }
                msg
            },
            Error::CapacityExceeded => String::from_str("String too long"),
            Error::MissingTerminator => String::from_str("String is not terminated"),
        }
    }
}

} // verus!
