//! Where the server listens: the settings of the environment, with their
//! fallbacks.

use vstd::prelude::*;
use vstd::string::StrSliceExecFns;

verus! {

/// The port to listen on when none is configured.
pub const DEFAULT_PORT: u16 = 8080;

/// The interface to listen on when none is configured.
pub const DEFAULT_INTERFACE: &'static str = "127.0.0.1";

/// Whether `c` is a decimal digit.
pub open spec fn is_digit(c: char) -> bool {
    '0' <= c <= '9'
}

/// The number that the decimal digits `digits` denote.
pub open spec fn decimal_value(digits: Seq<char>) -> nat
    decreases digits.len(),
{
    if digits.len() == 0 {
        0
    } else {
        decimal_value(digits.drop_last()) * 10 + (digits.last() as nat - '0' as nat) as nat
    }
}

/// The digits of a port number written as `text`: an optional `+` sign may
/// stand in front of them.
pub open spec fn unsigned_part(text: Seq<char>) -> Seq<char> {
    if text.len() > 0 && text[0] == '+' {
        text.drop_first()
    } else {
        text
    }
}

/// The port that `text` denotes: an optional `+` sign followed by one or
/// more decimal digits and nothing else, with a value of at most 65535.
pub open spec fn parsed_port(text: Seq<char>) -> Option<u16> {
    let digits = unsigned_part(text);
    if digits.len() > 0 && (forall|i: int| 0 <= i < digits.len() ==> is_digit(#[trigger] digits[i]))
        && decimal_value(digits) <= u16::MAX {
        Some(decimal_value(digits) as u16)
    } else {
        None
    }
}

/// A number does not get smaller when more digits follow.
pub proof fn lemma_decimal_value_grows(digits: Seq<char>, k: int)
    requires
        0 <= k <= digits.len(),
        forall|i: int| 0 <= i < digits.len() ==> is_digit(#[trigger] digits[i]),
    ensures
        decimal_value(digits.take(k)) <= decimal_value(digits),
    decreases digits.len() - k,
{
    if k == digits.len() {
        assert(digits.take(k) =~= digits);
    } else {
        let front = digits.drop_last();
        assert(is_digit(digits[digits.len() - 1]));
        if k == front.len() {
            assert(digits.take(k) =~= front);
        } else {
            lemma_decimal_value_grows(front, k);
            assert(front.take(k) =~= digits.take(k));
        }
    }
}

/// Reads a port number from `text`.
pub fn parse_port(text: &str) -> (port: Option<u16>)
    ensures
        port == parsed_port(text@),
{
    let len = text.unicode_len();
    if len == 0 {
        return None;
    }
    let start: usize = if text.get_char(0) == '+' {
        1
    } else {
        0
    };
    if start == len {
        return None;
    }
    let ghost digits = unsigned_part(text@);
    let mut value: u32 = 0;
    let mut i: usize = start;
    while i < len
        invariant
            start <= i <= len,
            len == text@.len(),
            digits == unsigned_part(text@),
            digits =~= text@.subrange(start as int, len as int),
            forall|k: int| 0 <= k < i - start ==> is_digit(#[trigger] digits[k]),
            value == decimal_value(digits.take(i - start)),
            value <= u16::MAX,
        decreases len - i,
    {
        let c = text.get_char(i);
        assert(c == digits[i - start]);
        if !(c >= '0' && c <= '9') {
            assert(!is_digit(digits[i - start]));
            return None;
        }
        let digit: u32 = c as u32 - '0' as u32;
        value = value * 10 + digit;
        proof {
            let read = digits.take(i - start + 1);
            assert(read.drop_last() =~= digits.take(i - start));
            assert(read.last() == c);
            assert(value == decimal_value(read));
        }
        if value > 65535 {
            proof {
                if forall|k: int| 0 <= k < digits.len() ==> is_digit(#[trigger] digits[k]) {
                    lemma_decimal_value_grows(digits, i - start + 1);
                }
            }
            return None;
        }
        i += 1;
    }
    proof {
        assert(digits.take(len - start) =~= digits);
    }
    Some(value as u16)
}

/// How the port to listen on was settled.
#[derive(Clone, Copy, Debug, PartialEq, Eq, Structural)]
pub enum PortChoice {
    /// The environment names this port.
    Configured(u16),
    /// The environment names something that is no port: the default is used.
    Unparsable,
    /// The environment names nothing: the default is used.
    Unset,
}

impl PortChoice {
    /// The port to listen on.
    pub open spec fn spec_port(self) -> u16 {
        match self {
            PortChoice::Configured(port) => port,
            _ => DEFAULT_PORT,
        }
    }

    /// The port to listen on.
    #[verifier::when_used_as_spec(spec_port)]
    pub fn port(self) -> (port: u16)
        ensures
            port == self.spec_port(),
    {
        match self {
            PortChoice::Configured(port) => port,
            _ => DEFAULT_PORT,
        }
    }
}

/// Settles the port to listen on from what the environment says of it.
pub fn listen_port(configured: Option<&String>) -> (choice: PortChoice)
    ensures
        choice == match configured {
            None => PortChoice::Unset,
            Some(text) => match parsed_port(text@) {
                Some(port) => PortChoice::Configured(port),
                None => PortChoice::Unparsable,
            },
        },
{
    match configured {
        None => PortChoice::Unset,
        Some(text) => match parse_port(text.as_str()) {
            Some(port) => PortChoice::Configured(port),
            None => PortChoice::Unparsable,
        },
    }
}

/// Settles the interface to listen on from what the environment says of it.
pub fn listen_interface(configured: Option<String>) -> (interface: String)
    ensures
        interface@ == match configured {
            Some(text) => text@,
            None => DEFAULT_INTERFACE@,
        },
{
    match configured {
        Some(text) => text,
        None => DEFAULT_INTERFACE.to_owned(),
    }
}

} // verus!
