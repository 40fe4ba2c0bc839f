//! The two settings of the server, and their defaults.

use vstd::prelude::*;
use vstd::string::*;

verus! {

/// The port to listen on where none is set, or where the setting is no port.
pub const DEFAULT_PORT: u16 = 80;

/// The directory that holds the tenants' roots where none is set.
pub const DEFAULT_WEB_ROOT: &'static str = "/var/www";

/// The settings, fixed when the server starts.
#[derive(Clone, Debug)]
pub struct Config {
    pub port: u16,
    pub web_root: String,
}

/// A decimal digit.
pub open spec fn is_digit(c: char) -> bool {
    '0' <= c && c <= '9'
}

/// The number that a run of decimal digits writes.
pub open spec fn decimal(digits: Seq<char>) -> nat
    decreases digits.len(),
{
    if digits.len() == 0 {
        0
    } else {
        10 * decimal(digits.drop_last()) + (digits.last() as nat - '0' as nat) as nat
    }
}

/// A text without its leading `+`, if it has one.
pub open spec fn unsigned(text: Seq<char>) -> Seq<char> {
    if text.len() > 0 && text[0] == '+' {
        text.subrange(1, text.len() as int)
    } else {
        text
    }
}

/// The port that a text writes: decimal digits and nothing else, behind at
/// most one `+`, with a value that fits in 16 bits. Anything else, the empty
/// text and surrounding blanks included, is no port.
pub open spec fn port_of(text: Seq<char>) -> Option<u16> {
    let digits = unsigned(text);
    if digits.len() > 0 && (forall|i: int| 0 <= i < digits.len() ==> is_digit(#[trigger] digits[i]))
        && decimal(digits) <= u16::MAX {
        Some(decimal(digits) as u16)
    } else {
        None
    }
}

/// The settings that the two values give, each of which may be missing.
pub open spec fn config_of(port: Option<Seq<char>>, web_root: Option<Seq<char>>) -> (u16, Seq<char>) {
    (
        match port {
            Some(text) => match port_of(text) {
                Some(value) => value,
                None => DEFAULT_PORT,
            },
            None => DEFAULT_PORT,
        },
        match web_root {
            Some(root) => root,
            None => DEFAULT_WEB_ROOT@,
        },
    )
}

/// A run of digits writes at least what any of its prefixes writes.
pub proof fn lemma_decimal_grows(digits: Seq<char>, n: int)
    requires
        0 <= n <= digits.len(),
        forall|i: int| 0 <= i < digits.len() ==> is_digit(#[trigger] digits[i]),
    ensures
        decimal(digits.take(n)) <= decimal(digits),
    decreases digits.len() - n,
{
    if n == digits.len() {
        assert(digits.take(n) =~= digits);
    } else {
        let shorter = digits.drop_last();
        if n == shorter.len() {
            assert(shorter.take(n) =~= shorter);
        } else {
            lemma_decimal_grows(shorter, n);
        }
        assert(shorter.take(n) =~= digits.take(n));
        assert(is_digit(digits.last()));
    }
}

/// Reads a port: decimal digits behind at most one `+`, no larger than 65535.
pub fn parse_port(text: &str) -> (port: Option<u16>)
    ensures
        port == port_of(text@),
{
    if !text.is_ascii() {
        proof {
            let k = choose|k: int|
                0 <= k < text@.len() && !('\0' <= #[trigger] text@[k] && text@[k] <= '\u{7f}');
            let digits = unsigned(text@);
            if text@[0] == '+' {
                assert(!is_digit(digits[k - 1]));
            } else {
                assert(!is_digit(digits[k]));
            }
        }
        return None;
    }
    proof {
        is_ascii_spec_bytes(text);
    }
    let bytes: &[u8] = text.as_bytes();
    let len: usize = bytes.len();
    let start: usize = if len > 0 && bytes[0] == 43u8 {
        1
    } else {
        0
    };
    if start == len {
        return None;
    }
    let ghost digits = unsigned(text@);
    assert(digits =~= text@.subrange(start as int, len as int));
    let mut value: u32 = 0;
    let mut i: usize = start;
    while i < len
        invariant
            text.is_ascii(),
            bytes@ == text.spec_bytes(),
            len == text@.len(),
            start <= i <= len,
            digits == unsigned(text@),
            digits == text@.subrange(start as int, len as int),
            forall|j: int| 0 <= j < i - start ==> is_digit(#[trigger] digits[j]),
            value == decimal(digits.take(i - start)),
            value <= u16::MAX,
        decreases len - i,
    {
        proof {
            is_ascii_spec_bytes(text);
        }
        let b: u8 = bytes[i];
        assert(digits[i - start] == text@[i as int]);
        if b < 48 || b > 57 {
            assert(!is_digit(digits[i - start]));
            return None;
        }
        let ghost longer = digits.take(i - start + 1);
        assert(longer.drop_last() =~= digits.take(i - start));
        assert(longer.last() == text@[i as int]);
        value = value * 10 + (b - 48) as u32;
        assert(value == decimal(longer));
        if value > 65535 {
            proof {
                if forall|j: int| 0 <= j < digits.len() ==> is_digit(#[trigger] digits[j]) {
                    lemma_decimal_grows(digits, i - start + 1);
                }
            }
            return None;
        }
        i += 1;
    }
    assert(digits.take(i - start) =~= digits);
    Some(value as u16)
}

impl Config {
    /// Builds the settings from the two values as they were found, each of
    /// which may be missing. A port that cannot be read is replaced by the
    /// default, and so is a missing one; this never fails.
    pub fn from_values(port: Option<&str>, web_root: Option<&str>) -> (config: Config)
        ensures
            (config.port, config.web_root@) == config_of(
                match port {
                    Some(text) => Some(text@),
                    None => None,
                },
                match web_root {
                    Some(root) => Some(root@),
                    None => None,
                },
            ),
    {
        let port: u16 = match port {
            Some(text) => match parse_port(text) {
                Some(value) => value,
                None => DEFAULT_PORT,
            },
            None => DEFAULT_PORT,
        };
        let web_root: String = match web_root {
            Some(root) => root.to_owned(),
            None => DEFAULT_WEB_ROOT.to_owned(),
        };
        Config { port, web_root }
    }
}

} // verus!
