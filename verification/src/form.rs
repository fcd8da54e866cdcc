//! The flattened URL-encoded rendering of a push event.
//!
//! For receivers that cannot parse JSON, the payload is rendered as
//! `key=value` pairs joined by `&`, in the same field order as the JSON
//! document.  Nested records and arrays flatten into bracket notation:
//! `commits[0][id]`, `commits[0][author][name]`, `pusher[email]`.  Keys
//! are built from fixed names, decimal indices and brackets only; values
//! are percent-encoded per byte of their UTF-8 form, leaving the
//! unreserved characters `A–Z a–z 0–9 - . _ ~` bare.  Array order follows
//! payload order, and the bytes are a pure function of the payload — the
//! signature is computed over them.

use crate::bytes::{dec_of, push_bytes, push_dec, push_str_bytes};
use crate::payload::{Commit, Payload, Repo, User};
use vstd::prelude::*;
use vstd::string::StrSliceExecFns;
use vstd::utf8::encode_utf8;

verus! {

/// Whether `b` stays bare under form encoding.
pub open spec fn form_unreserved(b: u8) -> bool {
    (48 <= b && b <= 57) || (65 <= b && b <= 90) || (97 <= b && b <= 122) || b == 45 || b == 46
        || b == 95 || b == 126
}

/// The upper-case hex digit byte for `n`, in `0 .. 16`.
pub open spec fn upper_hex_digit(n: u8) -> u8 {
    if n < 10 {
        (48 + n) as u8
    } else {
        (55 + n) as u8
    }
}

/// The form encoding of one byte: bare, or `%XX`.
pub open spec fn pct_byte(b: u8) -> Seq<u8> {
    if form_unreserved(b) {
        seq![b]
    } else {
        seq![37u8, upper_hex_digit(b / 16), upper_hex_digit(b % 16)]
    }
}

/// The form encoding of a byte string.
pub open spec fn pct(bs: Seq<u8>) -> Seq<u8>
    decreases bs.len(),
{
    if bs.len() == 0 {
        Seq::empty()
    } else {
        pct(bs.drop_last()) + pct_byte(bs.last())
    }
}

/// The form encoding of a string value's UTF-8 bytes.
pub open spec fn form_value(s: Seq<char>) -> Seq<u8> {
    pct(encode_utf8(s))
}

/// One `key=value` pair; the key is emitted as given.
pub open spec fn form_pair(key: Seq<u8>, v: Seq<char>) -> Seq<u8> {
    key + seq![61u8] + form_value(v)
}

/// One pair preceded by the `&` that joins it to what came before.
pub open spec fn amp_pair(key: Seq<u8>, v: Seq<char>) -> Seq<u8> {
    seq![38u8] + form_pair(key, v)
}

/// An array-index key: `pre[i]`.
pub open spec fn index_key(pre: Seq<u8>, i: nat) -> Seq<u8> {
    pre + seq![91u8] + dec_of(i) + seq![93u8]
}

/// The pairs of a string array under the key prefix `pre`, one indexed
/// pair per element; an empty array contributes nothing.
pub open spec fn form_str_list(pre: Seq<u8>, items: Seq<Seq<char>>) -> Seq<u8>
    decreases items.len(),
{
    if items.len() == 0 {
        Seq::empty()
    } else {
        form_str_list(pre, items.drop_last()) + amp_pair(
            index_key(pre, (items.len() - 1) as nat),
            items.last(),
        )
    }
}

/// The pairs of a commit identity under the key prefix `pre`.
pub open spec fn form_user(pre: Seq<u8>, u: User) -> Seq<u8> {
    amp_pair(pre + encode_utf8("[name]"@), u.name@) + amp_pair(
        pre + encode_utf8("[email]"@),
        u.email@,
    )
}

/// The pairs of the repository record under the key prefix `pre`.
pub open spec fn form_repo(pre: Seq<u8>, r: Repo) -> Seq<u8> {
    amp_pair(pre + encode_utf8("[name]"@), r.name@) + amp_pair(
        pre + encode_utf8("[description]"@),
        r.description@,
    ) + form_user(pre + encode_utf8("[owner]"@), r.owner)
}

/// The pairs of one commit under the key prefix `pre`.
pub open spec fn form_commit(pre: Seq<u8>, c: Commit) -> Seq<u8> {
    amp_pair(pre + encode_utf8("[id]"@), c.id@) + amp_pair(
        pre + encode_utf8("[tree_id]"@),
        c.tree_id@,
    ) + amp_pair(pre + encode_utf8("[message]"@), c.message@) + amp_pair(
        pre + encode_utf8("[timestamp]"@),
        c.timestamp@,
    ) + form_user(pre + encode_utf8("[author]"@), c.author) + form_user(
        pre + encode_utf8("[committer]"@),
        c.committer,
    ) + form_str_list(pre + encode_utf8("[added]"@), c.added.deep_view()) + form_str_list(
        pre + encode_utf8("[removed]"@),
        c.removed.deep_view(),
    ) + form_str_list(pre + encode_utf8("[modified]"@), c.modified.deep_view())
}

/// The pairs of the commits array, one indexed prefix per commit.
pub open spec fn form_commits(cs: Seq<Commit>) -> Seq<u8>
    decreases cs.len(),
{
    if cs.len() == 0 {
        Seq::empty()
    } else {
        form_commits(cs.drop_last()) + form_commit(
            index_key(encode_utf8("commits"@), (cs.len() - 1) as nat),
            cs.last(),
        )
    }
}

/// The whole flattened form of a push event.  The struct field `ref_` is
/// carried under the wire key `ref`.
pub open spec fn form_payload(p: Payload) -> Seq<u8> {
    form_pair(encode_utf8("ref"@), p.ref_@) + amp_pair(encode_utf8("before"@), p.before@)
        + amp_pair(encode_utf8("after"@), p.after@) + form_commits(p.commits@) + form_commit(
        encode_utf8("head_commit"@),
        p.head_commit,
    ) + form_repo(encode_utf8("repository"@), p.repository) + form_user(
        encode_utf8("pusher"@),
        p.pusher,
    )
}

/// Appends the form encoding of `s`'s UTF-8 bytes.
fn push_pct_str(out: &mut Vec<u8>, s: &str)
    ensures
        final(out)@ == old(out)@ + form_value(s@),
{
    let bs = s.as_bytes_vec();
    let mut i: usize = 0;
    while i < bs.len()
        invariant
            i <= bs@.len(),
            bs@ == encode_utf8(s@),
            out@ == old(out)@ + pct(bs@.take(i as int)),
        decreases bs@.len() - i,
    {
        let b = bs[i];
        if (48 <= b && b <= 57) || (65 <= b && b <= 90) || (97 <= b && b <= 122) || b == 45 || b
            == 46 || b == 95 || b == 126 {
            out.push(b);
        } else {
            out.push(37);
            let hi = b / 16;
            let lo = b % 16;
            out.push(if hi < 10 { 48 + hi } else { 55 + hi });
            out.push(if lo < 10 { 48 + lo } else { 55 + lo });
        }
        proof {
            assert(bs@.take(i + 1).drop_last() =~= bs@.take(i as int));
            assert(bs@.take(i + 1).last() == bs@[i as int]);
            assert(out@ =~= old(out)@ + (pct(bs@.take(i as int)) + pct_byte(bs@[i as int])));
        }
        i = i + 1;
    }
    proof {
        assert(bs@.take(bs@.len() as int) =~= bs@);
    }
}

/// The bytes of `a` followed by the UTF-8 bytes of `b`.
fn concat_bytes(a: &Vec<u8>, b: &str) -> (r: Vec<u8>)
    ensures
        r@ == a@ + encode_utf8(b@),
{
    let mut r: Vec<u8> = Vec::new();
    push_bytes(&mut r, a);
    push_str_bytes(&mut r, b);
    proof {
        assert(Seq::<u8>::empty() + a@ + encode_utf8(b@) =~= a@ + encode_utf8(b@));
    }
    r
}

/// Appends `&pre<field>=<value>`.
fn push_amp_pair_pre(out: &mut Vec<u8>, pre: &Vec<u8>, field: &str, value: &str)
    ensures
        final(out)@ == old(out)@ + amp_pair(pre@ + encode_utf8(field@), value@),
{
    out.push(38);
    push_bytes(out, pre);
    push_str_bytes(out, field);
    out.push(61);
    push_pct_str(out, value);
    proof {
        assert(out@ =~= old(out)@ + amp_pair(pre@ + encode_utf8(field@), value@));
    }
}

/// Appends `&<key>=<value>` for a fixed top-level key.
fn push_amp_pair(out: &mut Vec<u8>, key: &str, value: &str)
    ensures
        final(out)@ == old(out)@ + amp_pair(encode_utf8(key@), value@),
{
    out.push(38);
    push_str_bytes(out, key);
    out.push(61);
    push_pct_str(out, value);
    proof {
        assert(out@ =~= old(out)@ + amp_pair(encode_utf8(key@), value@));
    }
}

/// Appends the pairs of a commit identity under the prefix `pre`.
fn push_form_user(out: &mut Vec<u8>, pre: &Vec<u8>, u: &User)
    ensures
        final(out)@ == old(out)@ + form_user(pre@, *u),
{
    push_amp_pair_pre(out, pre, "[name]", u.name.as_str());
    push_amp_pair_pre(out, pre, "[email]", u.email.as_str());
    proof {
        assert(out@ =~= old(out)@ + form_user(pre@, *u));
    }
}

/// Appends the pairs of the repository record under the prefix `pre`.
fn push_form_repo(out: &mut Vec<u8>, pre: &Vec<u8>, r: &Repo)
    ensures
        final(out)@ == old(out)@ + form_repo(pre@, *r),
{
    push_amp_pair_pre(out, pre, "[name]", r.name.as_str());
    push_amp_pair_pre(out, pre, "[description]", r.description.as_str());
    let owner_pre = concat_bytes(pre, "[owner]");
    push_form_user(out, &owner_pre, &r.owner);
    proof {
        assert(out@ =~= old(out)@ + form_repo(pre@, *r));
    }
}

/// Appends the indexed pairs of a string array under `pre` + `field`.
fn push_form_str_list(out: &mut Vec<u8>, pre: &Vec<u8>, field: &str, items: &Vec<String>)
    ensures
        final(out)@ == old(out)@ + form_str_list(pre@ + encode_utf8(field@), items.deep_view()),
{
    let listpre = concat_bytes(pre, field);
    let mut i: usize = 0;
    while i < items.len()
        invariant
            i <= items@.len(),
            listpre@ == pre@ + encode_utf8(field@),
            out@ == old(out)@ + form_str_list(listpre@, items.deep_view().take(i as int)),
        decreases items@.len() - i,
    {
        out.push(38);
        push_bytes(out, &listpre);
        out.push(91);
        push_dec(out, i);
        out.push(93);
        out.push(61);
        push_pct_str(out, items[i].as_str());
        proof {
            assert(items.deep_view()[i as int] == items@[i as int]@);
            assert(items.deep_view().take(i + 1).drop_last() =~= items.deep_view().take(
                i as int,
            ));
            assert(items.deep_view().take(i + 1).last() == items.deep_view()[i as int]);
            assert(out@ =~= old(out)@ + (form_str_list(listpre@, items.deep_view().take(i as int))
                + amp_pair(index_key(listpre@, i as nat), items.deep_view()[i as int])));
        }
        i = i + 1;
    }
    proof {
        assert(items.deep_view().take(items@.len() as int) =~= items.deep_view());
    }
}

/// Appends the pairs of one commit under the prefix `pre`.
#[verifier::rlimit(60)]
fn push_form_commit(out: &mut Vec<u8>, pre: &Vec<u8>, c: &Commit)
    ensures
        final(out)@ == old(out)@ + form_commit(pre@, *c),
{
    push_amp_pair_pre(out, pre, "[id]", c.id.as_str());
    push_amp_pair_pre(out, pre, "[tree_id]", c.tree_id.as_str());
    push_amp_pair_pre(out, pre, "[message]", c.message.as_str());
    push_amp_pair_pre(out, pre, "[timestamp]", c.timestamp.as_str());
    let author_pre = concat_bytes(pre, "[author]");
    push_form_user(out, &author_pre, &c.author);
    let committer_pre = concat_bytes(pre, "[committer]");
    push_form_user(out, &committer_pre, &c.committer);
    push_form_str_list(out, pre, "[added]", &c.added);
    push_form_str_list(out, pre, "[removed]", &c.removed);
    push_form_str_list(out, pre, "[modified]", &c.modified);
    proof {
        assert(out@ =~= old(out)@ + form_commit(pre@, *c));
    }
}

/// Renders a push event in its flattened URL-encoded form.  The output
/// is a pure function of the payload value: rendering the same payload
/// twice yields byte-identical bodies.
#[verifier::rlimit(60)]
pub fn to_urlencoded(p: &Payload) -> (r: Vec<u8>)
    ensures
        r@ == form_payload(*p),
{
    let mut out: Vec<u8> = Vec::new();
    push_str_bytes(&mut out, "ref");
    out.push(61);
    push_pct_str(&mut out, p.ref_.as_str());
    push_amp_pair(&mut out, "before", p.before.as_str());
    push_amp_pair(&mut out, "after", p.after.as_str());
    let ghost mid = out@;
    proof {
        assert(out@ =~= mid + form_commits(p.commits@.take(0)));
    }
    let mut i: usize = 0;
    while i < p.commits.len()
        invariant
            i <= p.commits@.len(),
            out@ == mid + form_commits(p.commits@.take(i as int)),
        decreases p.commits@.len() - i,
    {
        let mut pre: Vec<u8> = Vec::new();
        push_str_bytes(&mut pre, "commits");
        pre.push(91);
        push_dec(&mut pre, i);
        pre.push(93);
        proof {
            assert(pre@ =~= index_key(encode_utf8("commits"@), i as nat));
        }
        push_form_commit(&mut out, &pre, &p.commits[i]);
        proof {
            assert(p.commits@.take(i + 1).drop_last() =~= p.commits@.take(i as int));
            assert(p.commits@.take(i + 1).last() == p.commits@[i as int]);
            assert(out@ =~= mid + (form_commits(p.commits@.take(i as int)) + form_commit(
                index_key(encode_utf8("commits"@), i as nat),
                p.commits@[i as int],
            )));
        }
        i = i + 1;
    }
    proof {
        assert(p.commits@.take(p.commits@.len() as int) =~= p.commits@);
    }
    let mut head_pre: Vec<u8> = Vec::new();
    push_str_bytes(&mut head_pre, "head_commit");
    proof {
        assert(head_pre@ =~= encode_utf8("head_commit"@));
    }
    push_form_commit(&mut out, &head_pre, &p.head_commit);
    let mut repo_pre: Vec<u8> = Vec::new();
    push_str_bytes(&mut repo_pre, "repository");
    proof {
        assert(repo_pre@ =~= encode_utf8("repository"@));
    }
    push_form_repo(&mut out, &repo_pre, &p.repository);
    let mut pusher_pre: Vec<u8> = Vec::new();
    push_str_bytes(&mut pusher_pre, "pusher");
    proof {
        assert(pusher_pre@ =~= encode_utf8("pusher"@));
    }
    push_form_user(&mut out, &pusher_pre, &p.pusher);
    proof {
        assert(out@ =~= form_payload(*p));
    }
    out
}

} // verus!
