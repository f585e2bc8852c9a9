//! Taking an inbound line apart, and the line that greets a new connection.

use crate::text::{chars_of, decimal, find_char, to_decimal, trim, trim_bounds};
use vstd::prelude::*;
use vstd::string::{StrSliceExecFns, StringExecFns};

verus! {

/// What comes before the first line feed, or everything where there is none.
pub open spec fn first_line(message: Seq<char>) -> Seq<char> {
    match message.index_of_first('\n') {
        Some(i) => message.take(i),
        None => message,
    }
}

/// The two tokens of a line: the first line of the message is trimmed and
/// split at its first colon, and both parts are trimmed again. A first line
/// without a colon has no parts.
pub open spec fn colon_parts(message: Seq<char>) -> Option<(Seq<char>, Seq<char>)> {
    let line = trim(first_line(message));
    match line.index_of_first(':') {
        Some(i) => Some((trim(line.take(i)), trim(line.skip(i + 1)))),
        None => None,
    }
}

/// Splits a message into what stands before and after the first colon of its
/// first line, without the white space around either.
pub fn split_at_colon(message: &str) -> (r: Option<(String, String)>)
    ensures
        match r {
            Some((left, right)) => colon_parts(message@) == Some((left@, right@)),
            None => colon_parts(message@).is_none(),
        },
{
    let chars = chars_of(message);
    let eol = match find_char(&chars, 0, chars.len(), '\n') {
        Some(at) => at,
        None => chars.len(),
    };
    assert(chars@.subrange(0, chars@.len() as int) == chars@);
    let (lo, hi) = trim_bounds(&chars, 0, eol);
    let ghost line = chars@.subrange(lo as int, hi as int);
    match find_char(&chars, lo, hi, ':') {
        Some(colon) => {
            let (left_lo, left_hi) = trim_bounds(&chars, lo, colon);
            let (right_lo, right_hi) = trim_bounds(&chars, colon + 1, hi);
            assert(chars@.subrange(lo as int, colon as int) == line.take(colon - lo));
            assert(chars@.subrange(colon + 1, hi as int) == line.skip(colon - lo + 1));
            let left = message.substring_char(left_lo, left_hi).to_owned();
            let right = message.substring_char(right_lo, right_hi).to_owned();
            Some((left, right))
        },
        None => None,
    }
}

/// The line that is logged when a client has connected.
pub open spec fn greeting(ip: Seq<char>, port: u16) -> Seq<char> {
    "connected ('"@ + ip + "', '"@ + decimal(port as nat) + "')"@
}

/// Writes the line that is logged when a client has connected from the
/// address `ip`, given as text, and from `port`.
pub fn get_greeting_message(ip: &str, port: u16) -> (r: String)
    ensures
        r@ == greeting(ip@, port),
{
    let mut r = "connected ('".to_owned();
    r.append(ip);
    r.append("', '");
    r.append(to_decimal(port).as_str());
    r.append("')");
    r
}

} // verus!
