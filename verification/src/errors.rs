//! Error kinds of the hook relay.

use vstd::prelude::*;
use vstd::string::StringExecFns;

verus! {

/// Everything that can go wrong while handling hook input.
///
/// `MalformedInput` is fatal for the invocation; `Configuration` is fatal
/// before any line is processed; the remaining kinds abort the affected
/// line only.
#[derive(Debug)]
pub enum Error {
    /// An input line did not have exactly three tokens; `found` is the
    /// number of tokens that were present.
    MalformedInput { found: usize },
    /// One of the revision strings did not resolve to a commit.
    RevisionResolution { detail: String },
    /// A tree-to-tree diff failed for a commit that has a parent.
    DiffEngine { detail: String },
    /// An invalid configuration value (content type or secret token).
    Configuration { detail: String },
    /// A hook endpoint could not be reached or answered with failure.
    Delivery { detail: String },
}

/// The decimal digits of `n`, most significant first, as characters.
pub open spec fn dec_chars_of(n: nat) -> Seq<char>
    decreases n,
{
    if n < 10 {
        seq![((48 + n) as u8) as char]
    } else {
        dec_chars_of(n / 10) + seq![((48 + n % 10) as u8) as char]
    }
}

/// The decimal digit character for `n`, in `0 .. 10`, as a one-character
/// string.
fn dec_digit_str(n: usize) -> (r: &'static str)
    requires
        n < 10,
    ensures
        r@ =~= seq![((48 + n as nat) as u8) as char],
{
    proof {
        reveal_strlit("0");
        reveal_strlit("1");
        reveal_strlit("2");
        reveal_strlit("3");
        reveal_strlit("4");
        reveal_strlit("5");
        reveal_strlit("6");
        reveal_strlit("7");
        reveal_strlit("8");
        reveal_strlit("9");
    }
    match n {
        0 => "0",
        1 => "1",
        2 => "2",
        3 => "3",
        4 => "4",
        5 => "5",
        6 => "6",
        7 => "7",
        8 => "8",
        _ => "9",
    }
}

/// Renders `n` in decimal.
fn dec_string(n: usize) -> (r: String)
    ensures
        r@ == dec_chars_of(n as nat),
    decreases n,
{
    if n >= 10 {
        let mut r = dec_string(n / 10);
        r.append(dec_digit_str(n % 10));
        r
    } else {
        String::from_str(dec_digit_str(n))
    }
}

impl Error {
    /// A human-readable description, for the surrounding program to
    /// print: the kind of failure followed by its detail (for malformed
    /// input, the token count that was found).
    pub fn message(&self) -> (r: String)
        ensures
            ({
                match *self {
                    Error::MalformedInput { found } => r@ == "expected 3 space separated values, <old-rev> <new-rev> <ref>, got: "@
                        + dec_chars_of(found as nat),
                    Error::RevisionResolution { detail } => r@ == "revision resolution failed: "@
                        + detail@,
                    Error::DiffEngine { detail } => r@ == "tree diff failed: "@ + detail@,
                    Error::Configuration { detail } => r@ == "configuration error: "@ + detail@,
                    Error::Delivery { detail } => r@ == "delivery failed: "@ + detail@,
                }
            }),
    {
        match self {
            Error::MalformedInput { found } => String::from_str(
                "expected 3 space separated values, <old-rev> <new-rev> <ref>, got: ",
            ).concat(dec_string(*found).as_str()),
            Error::RevisionResolution { detail } => String::from_str("revision resolution failed: ")
                .concat(detail.as_str()),
            Error::DiffEngine { detail } => String::from_str("tree diff failed: ").concat(
                detail.as_str(),
            ),
            Error::Configuration { detail } => String::from_str("configuration error: ").concat(
                detail.as_str(),
            ),
            Error::Delivery { detail } => String::from_str("delivery failed: ").concat(
                detail.as_str(),
            ),
        }
    }
}

} // verus!
