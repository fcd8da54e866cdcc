//! Parsing and triage of hook input lines.
//!
//! A post-receive hook receives one line per updated ref, shaped
//! `<old-rev> <new-rev> <ref>`.  A line whose old or new revision is all
//! zeros announces a branch created from nothing or a deletion; it is
//! skipped, not failed.

use crate::errors::Error;
use crate::text::{all_zeros, trim_of, trim_str, ws_tokens};
use vstd::prelude::*;

verus! {

/// One validated input line: the three tokens of the trimmed line.
#[derive(Debug, Clone)]
pub struct PushLine {
    pub old: String,
    pub new: String,
    pub ref_: String,
}

/// What to do with a validated line.
#[derive(Debug, Clone, Copy, PartialEq, Eq, Structural)]
pub enum LineAction {
    /// One of the revisions is all zeros: build no payload, deliver
    /// nothing, report the skip.
    Skip,
    /// Resolve the range and deliver the push event.
    Process,
}

/// Validates the shape of one input line: after trimming, it must consist
/// of exactly three whitespace-separated tokens (maximal non-empty runs
/// of non-whitespace, so any run of blanks or tabs separates).  Any other
/// token count is malformed input, reported with the count that was
/// found.
pub fn parse_line(line: &str) -> (r: Result<PushLine, Error>)
    ensures
        ({
            let toks = ws_tokens(trim_of(line@));
            &&& (r is Ok <==> toks.len() == 3)
            &&& (r matches Ok(pl) ==> pl.old@ == toks[0] && pl.new@ == toks[1] && pl.ref_@
                == toks[2])
            &&& (r matches Err(e) ==> e matches Error::MalformedInput { found } && found
                == toks.len())
        }),
{
    let trimmed = trim_str(line);
    let parts = crate::text::ws_split_str(trimmed);
    if parts.len() != 3 {
        return Err(Error::MalformedInput { found: parts.len() });
    }
    proof {
        assert(parts.deep_view()[0] == parts@[0]@);
        assert(parts.deep_view()[1] == parts@[1]@);
        assert(parts.deep_view()[2] == parts@[2]@);
    }
    Ok(PushLine { old: parts[0].clone(), new: parts[1].clone(), ref_: parts[2].clone() })
}

/// Decides whether a validated line is processed or skipped: it is
/// skipped exactly when its old or new revision consists entirely of the
/// character `0`, the shape git uses for a branch created from nothing or
/// a deleted ref.  A skipped line builds no payload and issues no
/// request.
pub fn line_action(line: &PushLine) -> (r: LineAction)
    ensures
        r == LineAction::Skip <==> (all_zeros(line.old@) || all_zeros(line.new@)),
        r == LineAction::Process <==> !(all_zeros(line.old@) || all_zeros(line.new@)),
{
    if crate::text::is_all_zeros(line.old.as_str()) || crate::text::is_all_zeros(
        line.new.as_str(),
    ) {
        LineAction::Skip
    } else {
        LineAction::Process
    }
}

} // verus!
