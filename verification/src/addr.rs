//! The address at which the host of a URI is to be looked up.
//!
//! The address is the text `host:port`.  Host and port are read from the
//! authority by cutting it at its colons; a port that is absent or is no
//! number gives way to the port of the scheme.

use crate::text::{after_first, position_of, prefix_before, same_text};
use crate::uri::{UriParts, UriPartsView};
use vstd::prelude::*;
use vstd::string::{StrSliceExecFns, StringExecFns};

verus! {

/// The scheme whose port is 443.
pub const HTTPS: &'static str = "https";

/// The port of `https`.
pub const HTTPS_PORT: u16 = 443;

/// The port of every other scheme, and of no scheme.
pub const HTTP_PORT: u16 = 80;

/// Whether the character is a decimal digit.
pub open spec fn is_digit(c: char) -> bool {
    '0' <= c && c <= '9'
}

/// The number that a decimal digit stands for.
pub open spec fn digit_value(c: char) -> nat {
    (c as u32 - '0' as u32) as nat
}

/// The digit that stands for a number below ten.
pub open spec fn digit_char(d: nat) -> char {
    if d == 0 {
        '0'
    } else if d == 1 {
        '1'
    } else if d == 2 {
        '2'
    } else if d == 3 {
        '3'
    } else if d == 4 {
        '4'
    } else if d == 5 {
        '5'
    } else if d == 6 {
        '6'
    } else if d == 7 {
        '7'
    } else if d == 8 {
        '8'
    } else {
        '9'
    }
}

/// Whether the text is made of decimal digits only.
pub open spec fn all_digits(text: Seq<char>) -> bool {
    forall|i: int| 0 <= i < text.len() ==> is_digit(#[trigger] text[i])
}

/// The number that a text of decimal digits stands for; leading zeros count
/// for nothing.
pub open spec fn digits_value(text: Seq<char>) -> nat
    decreases text.len(),
{
    if text.len() == 0 {
        0
    } else {
        digits_value(text.drop_last()) * 10 + digit_value(text.last())
    }
}

/// The text without a plus sign in front.
pub open spec fn unsigned(text: Seq<char>) -> Seq<char> {
    if text.len() > 0 && text[0] == '+' {
        text.drop_first()
    } else {
        text
    }
}

/// The port that a text stands for: an optional plus sign, then one or more
/// decimal digits, with a value that fits sixteen bits.  Anything else is no
/// port.
pub open spec fn port_of(text: Seq<char>) -> Option<u16> {
    let digits = unsigned(text);
    if digits.len() > 0 && all_digits(digits) && digits_value(digits) <= u16::MAX {
        Some(digits_value(digits) as u16)
    } else {
        None
    }
}

/// A number in decimal, without leading zeros.
pub open spec fn decimal(n: nat) -> Seq<char>
    decreases n,
{
    if n < 10 {
        seq![digit_char(n)]
    } else {
        decimal(n / 10) + seq![digit_char(n % 10)]
    }
}

/// The port that goes with a scheme: 443 with `https`, 80 otherwise.
pub open spec fn default_port(scheme: Option<Seq<char>>) -> u16 {
    if scheme == Some(HTTPS@) {
        HTTPS_PORT
    } else {
        HTTP_PORT
    }
}

/// The host named by an authority: what stands before its first colon.
pub open spec fn host_of(authority: Seq<char>) -> Seq<char> {
    prefix_before(authority, ':')
}

/// The port named by an authority: what stands between its first colon and
/// its second, where that is a port.
pub open spec fn named_port(authority: Seq<char>) -> Option<u16> {
    match after_first(authority, ':') {
        Some(rest) => port_of(prefix_before(rest, ':')),
        None => None,
    }
}

/// The port at which a URI is reached: the one its authority names, or the
/// one that goes with its scheme.
pub open spec fn port_for(authority: Seq<char>, scheme: Option<Seq<char>>) -> u16 {
    match named_port(authority) {
        Some(port) => port,
        None => default_port(scheme),
    }
}

/// The address of a URI, `host:port`, or nothing where the URI has no
/// authority.
pub open spec fn addr_of(uri: UriPartsView) -> Option<Seq<char>> {
    match uri.authority {
        Some(authority) => Some(
            host_of(authority) + seq![':'] + decimal(port_for(authority, uri.scheme) as nat),
        ),
        None => None,
    }
}

/// A longer text of digits stands for no smaller number.
proof fn lemma_digits_value_grows(text: Seq<char>, n: int)
    requires
        0 <= n <= text.len(),
    ensures
        digits_value(text.take(n)) <= digits_value(text),
    decreases text.len() - n,
{
    if n < text.len() {
        lemma_digits_value_grows(text, n + 1);
        assert(text.take(n + 1).drop_last() =~= text.take(n));
    } else {
        assert(text.take(n) =~= text);
    }
}

/// Reads a port from a text, as `port_of` says.
pub fn parse_port(text: &str) -> (port: Option<u16>)
    ensures
        port == port_of(text@),
{
    let len = text.unicode_len();
    if len == 0 {
        return None;
    }
    let start: usize = if text.get_char(0) == '+' {
        1
    } else {
        0
    };
    if start == len {
        return None;
    }
    let ghost digits = unsigned(text@);
    assert(digits == text@.skip(start as int)) by {
        assert(text@.drop_first() =~= text@.skip(1));
        assert(text@.skip(0) =~= text@);
    }
    let mut value: u32 = 0;
    let mut i: usize = start;
    while i < len
        invariant
            len == text@.len(),
            digits == unsigned(text@),
            digits == text@.skip(start as int),
            start <= i <= len,
            all_digits(digits.take(i - start)),
            value == digits_value(digits.take(i - start)),
            value <= u16::MAX,
        decreases len - i,
    {
        let c = text.get_char(i);
        assert(c == digits[i - start]);
        if !('0' <= c && c <= '9') {
            assert(!is_digit(digits[i - start]));
            return None;
        }
        let d: u32 = c as u32 - '0' as u32;
        let next: u32 = value * 10 + d;
        proof {
            let longer = digits.take(i - start + 1);
            assert(longer.drop_last() =~= digits.take(i - start));
            assert(longer.last() == c);
            assert(digits_value(longer) == next);
            assert(all_digits(longer)) by {
                assert forall|j: int| 0 <= j < longer.len() implies is_digit(
                    #[trigger] longer[j],
                ) by {
                    if j < i - start {
                        assert(longer[j] == digits.take(i - start)[j]);
                    }
                }
            }
            if next > u16::MAX {
                lemma_digits_value_grows(digits, i - start + 1);
            }
        }
        if next > 65535 {
            return None;
        }
        value = next;
        i += 1;
    }
    assert(digits.take(len - start) =~= digits);
    Some(value as u16)
}

/// The text of one decimal digit.
fn digit_text(d: u16) -> (text: &'static str)
    requires
        d < 10,
    ensures
        text@ == seq![digit_char(d as nat)],
{
    proof {
        reveal_strlit("0");
        reveal_strlit("1");
        reveal_strlit("2");
        reveal_strlit("3");
        reveal_strlit("4");
        reveal_strlit("5");
        reveal_strlit("6");
        reveal_strlit("7");
        reveal_strlit("8");
        reveal_strlit("9");
    }
    let text = if d == 0 {
        "0"
    } else if d == 1 {
        "1"
    } else if d == 2 {
        "2"
    } else if d == 3 {
        "3"
    } else if d == 4 {
        "4"
    } else if d == 5 {
        "5"
    } else if d == 6 {
        "6"
    } else if d == 7 {
        "7"
    } else if d == 8 {
        "8"
    } else {
        "9"
    };
    assert(text@ =~= seq![digit_char(d as nat)]);
    text
}

/// Writes a port in decimal.
pub fn port_text(port: u16) -> (text: String)
    ensures
        text@ == decimal(port as nat),
    decreases port,
{
    if port < 10 {
        String::from_str(digit_text(port))
    } else {
        let mut text = port_text(port / 10);
        text.append(digit_text(port % 10));
        text
    }
}

/// Finds the port that an authority names.
fn find_named_port(authority: &str, colon: usize) -> (port: Option<u16>)
    requires
        colon == prefix_before(authority@, ':').len(),
        colon <= authority@.len(),
    ensures
        port == named_port(authority@),
{
    let len = authority.unicode_len();
    if colon < len {
        let rest = authority.substring_char(colon + 1, len);
        assert(rest@ == authority@.skip(colon + 1));
        let end = position_of(rest, ':');
        parse_port(rest.substring_char(0, end))
    } else {
        None
    }
}

/// The address at which to look up the host of a URI: `host:port`.
///
/// The host is what stands before the first colon of the authority.  The
/// port is what stands behind that colon, up to the next one, if it is a
/// port; otherwise 443 for `https` and 80 for anything else.  A URI without
/// an authority has no address.
pub fn uri_to_addr(uri: &UriParts) -> (addr: Option<String>)
    ensures
        addr.deep_view() == addr_of(uri@),
{
    let authority = match &uri.authority {
        Some(authority) => authority.as_str(),
        None => {
            return None;
        },
    };
    let colon = position_of(authority, ':');
    let host = authority.substring_char(0, colon);
    let default: u16 = match &uri.scheme {
        Some(scheme) => {
            if same_text(scheme.as_str(), HTTPS) {
                HTTPS_PORT
            } else {
                HTTP_PORT
            }
        },
        None => HTTP_PORT,
    };
    let port = match find_named_port(authority, colon) {
        Some(port) => port,
        None => default,
    };
    proof {
        reveal_strlit(":");
        assert(":"@ =~= seq![':']);
    }
    let mut addr = String::from_str(host);
    addr.append(":");
    addr.append(port_text(port).as_str());
    Some(addr)
}

} // verus!
