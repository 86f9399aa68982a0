//! Result-line formatting: one printable line per emitted outcome, combining
//! the entry, the status or error, the body size, and the target URL.

use vstd::prelude::*;
use vstd::string::StrSliceExecFns;
use vstd::string::StringExecFns;

use crate::numeral::spec_decimal;
use crate::numeral::u64_to_decimal;
use crate::outcome::OutcomeModel;
use crate::outcome::ProbeOutcome;

verus! {

/// Width of the left-aligned entry column.
pub const ENTRY_COLUMN_WIDTH: usize = 20;

/// `n` space characters.
pub open spec fn spec_spaces(n: nat) -> Seq<char> {
    Seq::new(n, |i: int| ' ')
}

/// `s`, left-aligned in a column of `width` characters: unchanged when already
/// that wide, otherwise padded on the right with spaces.
pub open spec fn spec_pad_right(s: Seq<char>, width: nat) -> Seq<char> {
    if s.len() >= width {
        s
    } else {
        s + spec_spaces((width - s.len()) as nat)
    }
}

/// Pad `s` on the right with spaces to at least `width` characters.
pub fn pad_right(s: String, width: usize) -> (r: String)
    ensures
        r@ == spec_pad_right(s@, width as nat),
{
    let ghost start = s@;
    let mut r = s;
    let mut n = r.as_str().unicode_len();
    proof {
        assert(start + spec_spaces(0) =~= start);
    }
    while n < width
        invariant
            n == r@.len(),
            start.len() <= n,
            r@ == start + spec_spaces((n - start.len()) as nat),
            n <= width || n == start.len(),
        decreases width - n,
    {
        let ghost k = (n - start.len()) as nat;
        r.append(" ");
        proof {
            reveal_strlit(" ");
            assert((" ")@ =~= seq![' ']);
            assert(start + spec_spaces(k) + seq![' '] =~= start + spec_spaces(k + 1));
        }
        n = n + 1;
    }
    proof {
        if start.len() >= width as nat {
            assert(r@ =~= start);
        }
    }
    r
}

/// The line for a response: the entry as `./entry` left-aligned, then the
/// status code, the body size, and the target URL.
pub open spec fn spec_response_line(
    entry: Seq<char>,
    status: u16,
    body_size: usize,
    target_url: Seq<char>,
) -> Seq<char> {
    spec_pad_right(("./")@ + entry, ENTRY_COLUMN_WIDTH as nat) + (" (Status: ")@ + spec_decimal(
        status as nat,
    ) + (") [Size: ")@ + spec_decimal(body_size as nat) + ("] [-> ")@ + target_url + ("]")@
}

/// The line for a network failure: the entry as `./entry` left-aligned, then
/// the error description.
pub open spec fn spec_failure_line(entry: Seq<char>, error_message: Seq<char>) -> Seq<char> {
    spec_pad_right(("./")@ + entry, ENTRY_COLUMN_WIDTH as nat) + (" (Error: ")@ + error_message
        + (")")@
}

/// The line for one outcome, whichever kind it is.
pub open spec fn spec_line(entry: Seq<char>, outcome: OutcomeModel) -> Seq<char> {
    match outcome {
        OutcomeModel::Response { status, body_size, target_url } => spec_response_line(
            entry,
            status,
            body_size,
            target_url,
        ),
        OutcomeModel::Failure { target_url: _, error_message } => spec_failure_line(
            entry,
            error_message,
        ),
    }
}

/// The character sequences of a sequence of strings.
pub open spec fn lines_view(lines: Seq<String>) -> Seq<Seq<char>> {
    lines.map_values(|s: String| s@)
}

/// Format the result line for one entry and its outcome.
pub fn format_line(entry: &str, outcome: &ProbeOutcome) -> (r: String)
    ensures
        r@ == spec_line(entry@, outcome@),
{
    let mut head = String::from_str("./");
    head.append(entry);
    let mut r = pad_right(head, ENTRY_COLUMN_WIDTH);
    match outcome {
        ProbeOutcome::Response { status, body_size, target_url } => {
            r.append(" (Status: ");
            r.append(u64_to_decimal(*status as u64).as_str());
            r.append(") [Size: ");
            r.append(u64_to_decimal(*body_size as u64).as_str());
            r.append("] [-> ");
            r.append(target_url.as_str());
            r.append("]");
        },
        ProbeOutcome::Failure { target_url: _, error_message } => {
            r.append(" (Error: ");
            r.append(error_message.as_str());
            r.append(")");
        },
    }
    r
}

} // verus!
