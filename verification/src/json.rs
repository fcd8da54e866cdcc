//! The JSON rendering of a push event.
//!
//! The body is built directly as UTF-8 bytes, field by field in a fixed
//! order, so that the output is byte-for-byte determined by the payload —
//! the signature is computed over these exact bytes.  String content is
//! escaped as JSON requires: quote and backslash, the five named control
//! escapes, and `\u00..` for the remaining control bytes; everything
//! else, multi-byte UTF-8 included, passes through unchanged.

use crate::bytes::push_str_bytes;
use crate::payload::{Commit, Payload, Repo, User};
use vstd::prelude::*;
use vstd::string::StrSliceExecFns;
use vstd::utf8::encode_utf8;

verus! {

/// The lower-case hex digit byte for `n`, in `0 .. 16`.
pub open spec fn lower_hex_digit(n: u8) -> u8 {
    if n < 10 {
        (48 + n) as u8
    } else {
        (87 + n) as u8
    }
}

/// The JSON escape of one byte of string content.
pub open spec fn json_escape_byte(b: u8) -> Seq<u8> {
    if b == 34 {
        seq![92u8, 34u8]
    } else if b == 92 {
        seq![92u8, 92u8]
    } else if b == 8 {
        seq![92u8, 98u8]
    } else if b == 9 {
        seq![92u8, 116u8]
    } else if b == 10 {
        seq![92u8, 110u8]
    } else if b == 12 {
        seq![92u8, 102u8]
    } else if b == 13 {
        seq![92u8, 114u8]
    } else if b < 32 {
        seq![92u8, 117u8, 48u8, 48u8, lower_hex_digit(b / 16), lower_hex_digit(b % 16)]
    } else {
        seq![b]
    }
}

/// The JSON escape of a string's UTF-8 bytes.
pub open spec fn json_escape(bs: Seq<u8>) -> Seq<u8>
    decreases bs.len(),
{
    if bs.len() == 0 {
        Seq::empty()
    } else {
        json_escape(bs.drop_last()) + json_escape_byte(bs.last())
    }
}

/// A JSON string value: quoted, escaped UTF-8.
pub open spec fn json_str(s: Seq<char>) -> Seq<u8> {
    seq![34u8] + json_escape(encode_utf8(s)) + seq![34u8]
}

/// The comma-separated members of an array of JSON strings.
pub open spec fn json_str_list_inner(v: Seq<Seq<char>>) -> Seq<u8>
    decreases v.len(),
{
    if v.len() == 0 {
        Seq::empty()
    } else if v.len() == 1 {
        json_str(v[0])
    } else {
        json_str_list_inner(v.drop_last()) + seq![44u8] + json_str(v.last())
    }
}

/// An array of JSON strings.
pub open spec fn json_str_list(v: Seq<Seq<char>>) -> Seq<u8> {
    seq![91u8] + json_str_list_inner(v) + seq![93u8]
}

/// The JSON object of a commit identity.
pub open spec fn json_user(u: User) -> Seq<u8> {
    encode_utf8("{\"name\":"@) + json_str(u.name@) + encode_utf8(",\"email\":"@) + json_str(
        u.email@,
    ) + seq![125u8]
}

/// The JSON object of the repository record.
pub open spec fn json_repo(r: Repo) -> Seq<u8> {
    encode_utf8("{\"name\":"@) + json_str(r.name@) + encode_utf8(",\"description\":"@) + json_str(
        r.description@,
    ) + encode_utf8(",\"owner\":"@) + json_user(r.owner) + seq![125u8]
}

/// The JSON object of one commit.
pub open spec fn json_commit(c: Commit) -> Seq<u8> {
    encode_utf8("{\"id\":"@) + json_str(c.id@) + encode_utf8(",\"tree_id\":"@) + json_str(
        c.tree_id@,
    ) + encode_utf8(",\"message\":"@) + json_str(c.message@) + encode_utf8(",\"timestamp\":"@)
        + json_str(c.timestamp@) + encode_utf8(",\"author\":"@) + json_user(c.author)
        + encode_utf8(",\"committer\":"@) + json_user(c.committer) + encode_utf8(",\"added\":"@)
        + json_str_list(c.added.deep_view()) + encode_utf8(",\"removed\":"@) + json_str_list(
        c.removed.deep_view(),
    ) + encode_utf8(",\"modified\":"@) + json_str_list(c.modified.deep_view()) + seq![125u8]
}

/// The comma-separated members of the commits array.
pub open spec fn json_commit_list_inner(cs: Seq<Commit>) -> Seq<u8>
    decreases cs.len(),
{
    if cs.len() == 0 {
        Seq::empty()
    } else if cs.len() == 1 {
        json_commit(cs[0])
    } else {
        json_commit_list_inner(cs.drop_last()) + seq![44u8] + json_commit(cs.last())
    }
}

/// The commits array.
pub open spec fn json_commit_list(cs: Seq<Commit>) -> Seq<u8> {
    seq![91u8] + json_commit_list_inner(cs) + seq![93u8]
}

/// The whole JSON document of a push event.  The struct field `ref_` is
/// carried under the wire key `ref`.
pub open spec fn json_payload(p: Payload) -> Seq<u8> {
    encode_utf8("{\"ref\":"@) + json_str(p.ref_@) + encode_utf8(",\"before\":"@) + json_str(
        p.before@,
    ) + encode_utf8(",\"after\":"@) + json_str(p.after@) + encode_utf8(",\"commits\":"@)
        + json_commit_list(p.commits@) + encode_utf8(",\"head_commit\":"@) + json_commit(
        p.head_commit,
    ) + encode_utf8(",\"repository\":"@) + json_repo(p.repository) + encode_utf8(",\"pusher\":"@)
        + json_user(p.pusher) + seq![125u8]
}

/// Appends the JSON escape of `s`'s UTF-8 bytes.
fn push_json_escaped(out: &mut Vec<u8>, s: &str)
    ensures
        final(out)@ == old(out)@ + json_escape(encode_utf8(s@)),
{
    let bs = s.as_bytes_vec();
    let mut i: usize = 0;
    while i < bs.len()
        invariant
            i <= bs@.len(),
            bs@ == encode_utf8(s@),
            out@ == old(out)@ + json_escape(bs@.take(i as int)),
        decreases bs@.len() - i,
    {
        let b = bs[i];
        if b == 34 {
            out.push(92);
            out.push(34);
        } else if b == 92 {
            out.push(92);
            out.push(92);
        } else if b == 8 {
            out.push(92);
            out.push(98);
        } else if b == 9 {
            out.push(92);
            out.push(116);
        } else if b == 10 {
            out.push(92);
            out.push(110);
        } else if b == 12 {
            out.push(92);
            out.push(102);
        } else if b == 13 {
            out.push(92);
            out.push(114);
        } else if b < 32 {
            out.push(92);
            out.push(117);
            out.push(48);
            out.push(48);
            let hi = b / 16;
            let lo = b % 16;
            out.push(if hi < 10 { 48 + hi } else { 87 + hi });
            out.push(if lo < 10 { 48 + lo } else { 87 + lo });
        } else {
            out.push(b);
        }
        proof {
            assert(bs@.take(i + 1).drop_last() =~= bs@.take(i as int));
            assert(bs@.take(i + 1).last() == bs@[i as int]);
            assert(out@ =~= old(out)@ + (json_escape(bs@.take(i as int)) + json_escape_byte(
                bs@[i as int],
            )));
        }
        i = i + 1;
    }
    proof {
        assert(bs@.take(bs@.len() as int) =~= bs@);
    }
}

/// Appends a JSON string value.
fn push_json_str(out: &mut Vec<u8>, s: &str)
    ensures
        final(out)@ == old(out)@ + json_str(s@),
{
    out.push(34);
    push_json_escaped(out, s);
    out.push(34);
    proof {
        assert(out@ =~= old(out)@ + json_str(s@));
    }
}

/// Appends an array of JSON strings.
fn push_json_str_list(out: &mut Vec<u8>, v: &Vec<String>)
    ensures
        final(out)@ == old(out)@ + json_str_list(v.deep_view()),
{
    out.push(91);
    let mut i: usize = 0;
    while i < v.len()
        invariant
            i <= v@.len(),
            out@ == old(out)@ + seq![91u8] + json_str_list_inner(v.deep_view().take(i as int)),
        decreases v@.len() - i,
    {
        if i > 0 {
            out.push(44);
        }
        push_json_str(out, v[i].as_str());
        proof {
            assert(v.deep_view()[i as int] == v@[i as int]@);
            assert(v.deep_view().take(i + 1).drop_last() =~= v.deep_view().take(i as int));
            assert(v.deep_view().take(i + 1).last() == v.deep_view()[i as int]);
            if i == 0 {
                assert(out@ =~= old(out)@ + seq![91u8] + json_str_list_inner(
                    v.deep_view().take(1),
                ));
            } else {
                assert(out@ =~= old(out)@ + seq![91u8] + (json_str_list_inner(
                    v.deep_view().take(i as int),
                ) + seq![44u8] + json_str(v.deep_view()[i as int])));
            }
        }
        i = i + 1;
    }
    out.push(93);
    proof {
        assert(v.deep_view().take(v@.len() as int) =~= v.deep_view());
        assert(out@ =~= old(out)@ + json_str_list(v.deep_view()));
    }
}

/// Appends the JSON object of a commit identity.
fn push_json_user(out: &mut Vec<u8>, u: &User)
    ensures
        final(out)@ == old(out)@ + json_user(*u),
{
    push_str_bytes(out, "{\"name\":");
    push_json_str(out, u.name.as_str());
    push_str_bytes(out, ",\"email\":");
    push_json_str(out, u.email.as_str());
    out.push(125);
    proof {
        assert(out@ =~= old(out)@ + json_user(*u));
    }
}

/// Appends the JSON object of the repository record.
fn push_json_repo(out: &mut Vec<u8>, r: &Repo)
    ensures
        final(out)@ == old(out)@ + json_repo(*r),
{
    push_str_bytes(out, "{\"name\":");
    push_json_str(out, r.name.as_str());
    push_str_bytes(out, ",\"description\":");
    push_json_str(out, r.description.as_str());
    push_str_bytes(out, ",\"owner\":");
    push_json_user(out, &r.owner);
    out.push(125);
    proof {
        assert(out@ =~= old(out)@ + json_repo(*r));
    }
}

/// Appends the JSON object of one commit.
fn push_json_commit(out: &mut Vec<u8>, c: &Commit)
    ensures
        final(out)@ == old(out)@ + json_commit(*c),
{
    let ghost o = old(out)@;
    push_str_bytes(out, "{\"id\":");
    let ghost mut acc: Seq<u8> = encode_utf8("{\"id\":"@);
    push_json_str(out, c.id.as_str());
    proof {
        vstd::seq_lib::lemma_concat_associative(o, acc, json_str(c.id@));
        acc = acc + json_str(c.id@);
    }
    push_str_bytes(out, ",\"tree_id\":");
    proof {
        vstd::seq_lib::lemma_concat_associative(o, acc, encode_utf8(",\"tree_id\":"@));
        acc = acc + encode_utf8(",\"tree_id\":"@);
    }
    push_json_str(out, c.tree_id.as_str());
    proof {
        vstd::seq_lib::lemma_concat_associative(o, acc, json_str(c.tree_id@));
        acc = acc + json_str(c.tree_id@);
    }
    push_str_bytes(out, ",\"message\":");
    proof {
        vstd::seq_lib::lemma_concat_associative(o, acc, encode_utf8(",\"message\":"@));
        acc = acc + encode_utf8(",\"message\":"@);
    }
    push_json_str(out, c.message.as_str());
    proof {
        vstd::seq_lib::lemma_concat_associative(o, acc, json_str(c.message@));
        acc = acc + json_str(c.message@);
    }
    push_str_bytes(out, ",\"timestamp\":");
    proof {
        vstd::seq_lib::lemma_concat_associative(o, acc, encode_utf8(",\"timestamp\":"@));
        acc = acc + encode_utf8(",\"timestamp\":"@);
    }
    push_json_str(out, c.timestamp.as_str());
    proof {
        vstd::seq_lib::lemma_concat_associative(o, acc, json_str(c.timestamp@));
        acc = acc + json_str(c.timestamp@);
    }
    push_str_bytes(out, ",\"author\":");
    proof {
        vstd::seq_lib::lemma_concat_associative(o, acc, encode_utf8(",\"author\":"@));
        acc = acc + encode_utf8(",\"author\":"@);
    }
    push_json_user(out, &c.author);
    proof {
        vstd::seq_lib::lemma_concat_associative(o, acc, json_user(c.author));
        acc = acc + json_user(c.author);
    }
    push_str_bytes(out, ",\"committer\":");
    proof {
        vstd::seq_lib::lemma_concat_associative(o, acc, encode_utf8(",\"committer\":"@));
        acc = acc + encode_utf8(",\"committer\":"@);
    }
    push_json_user(out, &c.committer);
    proof {
        vstd::seq_lib::lemma_concat_associative(o, acc, json_user(c.committer));
        acc = acc + json_user(c.committer);
    }
    push_str_bytes(out, ",\"added\":");
    proof {
        vstd::seq_lib::lemma_concat_associative(o, acc, encode_utf8(",\"added\":"@));
        acc = acc + encode_utf8(",\"added\":"@);
    }
    push_json_str_list(out, &c.added);
    proof {
        vstd::seq_lib::lemma_concat_associative(o, acc, json_str_list(c.added.deep_view()));
        acc = acc + json_str_list(c.added.deep_view());
    }
    push_str_bytes(out, ",\"removed\":");
    proof {
        vstd::seq_lib::lemma_concat_associative(o, acc, encode_utf8(",\"removed\":"@));
        acc = acc + encode_utf8(",\"removed\":"@);
    }
    push_json_str_list(out, &c.removed);
    proof {
        vstd::seq_lib::lemma_concat_associative(o, acc, json_str_list(c.removed.deep_view()));
        acc = acc + json_str_list(c.removed.deep_view());
    }
    push_str_bytes(out, ",\"modified\":");
    proof {
        vstd::seq_lib::lemma_concat_associative(o, acc, encode_utf8(",\"modified\":"@));
        acc = acc + encode_utf8(",\"modified\":"@);
    }
    push_json_str_list(out, &c.modified);
    proof {
        vstd::seq_lib::lemma_concat_associative(o, acc, json_str_list(c.modified.deep_view()));
        acc = acc + json_str_list(c.modified.deep_view());
    }
    out.push(125);
    proof {
        vstd::seq_lib::lemma_concat_associative(o, acc, seq![125u8]);
        acc = acc + seq![125u8];
        assert(acc == json_commit(*c));
    }
}

/// Renders a push event as its JSON document.  The output is a pure
/// function of the payload value: rendering the same payload twice
/// yields byte-identical bodies.
#[verifier::rlimit(60)]
pub fn to_json(p: &Payload) -> (r: Vec<u8>)
    ensures
        r@ == json_payload(*p),
{
    let mut out: Vec<u8> = Vec::new();
    push_str_bytes(&mut out, "{\"ref\":");
    push_json_str(&mut out, p.ref_.as_str());
    push_str_bytes(&mut out, ",\"before\":");
    push_json_str(&mut out, p.before.as_str());
    push_str_bytes(&mut out, ",\"after\":");
    push_json_str(&mut out, p.after.as_str());
    push_str_bytes(&mut out, ",\"commits\":");
    out.push(91);
    let ghost mid = out@;
    let mut i: usize = 0;
    while i < p.commits.len()
        invariant
            i <= p.commits@.len(),
            out@ == mid + json_commit_list_inner(p.commits@.take(i as int)),
        decreases p.commits@.len() - i,
    {
        if i > 0 {
            out.push(44);
        }
        push_json_commit(&mut out, &p.commits[i]);
        proof {
            assert(p.commits@.take(i + 1).drop_last() =~= p.commits@.take(i as int));
            assert(p.commits@.take(i + 1).last() == p.commits@[i as int]);
            if i == 0 {
                assert(out@ =~= mid + json_commit_list_inner(p.commits@.take(1)));
            } else {
                assert(out@ =~= mid + (json_commit_list_inner(p.commits@.take(i as int)) + seq![
                    44u8,
                ] + json_commit(p.commits@[i as int])));
            }
        }
        i = i + 1;
    }
    out.push(93);
    proof {
        assert(p.commits@.take(p.commits@.len() as int) =~= p.commits@);
    }
    push_str_bytes(&mut out, ",\"head_commit\":");
    push_json_commit(&mut out, &p.head_commit);
    push_str_bytes(&mut out, ",\"repository\":");
    push_json_repo(&mut out, &p.repository);
    push_str_bytes(&mut out, ",\"pusher\":");
    push_json_user(&mut out, &p.pusher);
    out.push(125);
    proof {
        assert(out@ =~= json_payload(*p));
    }
    out
}

} // verus!
