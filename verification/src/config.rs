//! Delivery configuration, assembled from repository configuration values.
//!
//! The surrounding program reads the raw key/value strings from the
//! repository; everything decided about them — defaults, the repo-name
//! fallback, hook-URL splitting, secret-token decoding and content-type
//! validation — happens here.

use crate::errors::Error;
use crate::hexcode::{all_hex_digits, hex_decode, hex_decoded};
use crate::text::{split_at_seps, split_str, trim_of, trim_str};
use vstd::prelude::*;
use vstd::string::StrSliceExecFns;
use vstd::string::StringExecFns;

verus! {

/// The body encoding chosen by the `content-type` configuration value.
#[derive(Clone, Copy, PartialEq, Eq, Structural, Debug)]
pub enum ConfigContentType {
    UrlEncoded,
    Json,
}

/// The view of an optional configuration string, defaulting to empty.
pub open spec fn opt_str_of(o: Option<String>) -> Seq<char> {
    match o {
        Option::Some(s) => s@,
        Option::None => Seq::empty(),
    }
}

impl ConfigContentType {
    /// Parses a `content-type` configuration value; only `urlencoded` and
    /// `json` are valid, anything else is a configuration error.
    pub fn from_str(s: &str) -> (r: Result<ConfigContentType, Error>)
        ensures
            r is Ok <==> (s@ == "urlencoded"@ || s@ == "json"@),
            s@ == "urlencoded"@ ==> r matches Ok(ConfigContentType::UrlEncoded),
            s@ == "json"@ ==> r matches Ok(ConfigContentType::Json),
            r matches Err(e) ==> (e matches Error::Configuration { detail } && detail@
                == "invalid content-type: "@ + s@),
    {
        proof {
            reveal_strlit("urlencoded");
            reveal_strlit("json");
            assert("urlencoded"@.len() == 10);
            assert("json"@.len() == 4);
        }
        if crate::text::str_eq(s, "urlencoded") {
            Ok(ConfigContentType::UrlEncoded)
        } else if crate::text::str_eq(s, "json") {
            Ok(ConfigContentType::Json)
        } else {
            let mut detail = String::from_str("invalid content-type: ");
            detail.append(s);
            Err(Error::Configuration { detail })
        }
    }
}

/// Repository configuration values used by the relay.
#[derive(Debug)]
pub struct Config {
    pub repo_name: String,
    pub repo_description: String,
    pub repo_owner_name: String,
    pub repo_owner_email: String,
    pub hook_urls: Vec<String>,
    pub secret_token: Option<Vec<u8>>,
    pub content_type: ConfigContentType,
}

/// The configured hook URLs: every comma-separated piece, trimmed, with
/// empty pieces dropped, in configured order.
pub open spec fn hook_urls_of(parts: Seq<Seq<char>>) -> Seq<Seq<char>>
    decreases parts.len(),
{
    if parts.len() == 0 {
        Seq::empty()
    } else {
        hook_urls_of(parts.drop_last()) + (if trim_of(parts.last()).len() > 0 {
            seq![trim_of(parts.last())]
        } else {
            Seq::empty()
        })
    }
}

/// The last `/`-separated segment of a URL.
pub open spec fn last_segment_of(u: Seq<char>) -> Seq<char> {
    split_at_seps(u, '/').last()
}

/// `s` with a trailing `.git` removed, if present.
pub open spec fn strip_git_suffix(s: Seq<char>) -> Seq<char> {
    if s.len() >= 4 && s.subrange(s.len() - 4, s.len() as int) == seq!['.', 'g', 'i', 't'] {
        s.take(s.len() - 4)
    } else {
        s
    }
}

/// The repository name: the explicit configuration value when present,
/// else inferred from the `origin` remote URL, else empty.
pub open spec fn effective_repo_name(repo_name: Option<String>, origin_url: Option<String>) -> Seq<
    char,
> {
    match repo_name {
        Option::Some(n) => n@,
        Option::None => match origin_url {
            Option::Some(u) => strip_git_suffix(last_segment_of(u@)),
            Option::None => Seq::empty(),
        },
    }
}

/// Whether a configured secret token is acceptable: absent, blank, or
/// even-length hex.
pub open spec fn secret_token_ok(secret_token: Option<String>) -> bool {
    match secret_token {
        Option::None => true,
        Option::Some(x) => trim_of(x@).len() == 0 || (trim_of(x@).len() % 2 == 0
            && all_hex_digits(trim_of(x@))),
    }
}

/// Whether a configured content type is acceptable.
pub open spec fn content_type_ok(content_type: Option<String>) -> bool {
    match content_type {
        Option::None => true,
        Option::Some(s) => s@ == "urlencoded"@ || s@ == "json"@,
    }
}

/// Whether `v` is the decoded form of the configured secret token `s`:
/// `None` when `s` is absent or blank, else the hex-decoded bytes of the
/// trimmed value.
pub open spec fn token_decodes_to(s: Option<String>, v: Option<Vec<u8>>) -> bool {
    match s {
        Option::None => v is None,
        Option::Some(x) => if trim_of(x@).len() == 0 {
            v is None
        } else {
            v matches Some(b) && b@ == hex_decoded(trim_of(x@))
        },
    }
}

/// Whether `c` is the content type selected by the configured value `s`
/// (the default is `UrlEncoded`).
pub open spec fn content_type_selects(s: Option<String>, c: ConfigContentType) -> bool {
    match s {
        Option::None => c == ConfigContentType::UrlEncoded,
        Option::Some(x) => (x@ == "urlencoded"@ ==> c == ConfigContentType::UrlEncoded) && (x@
            == "json"@ ==> c == ConfigContentType::Json),
    }
}

/// Splits a comma-separated hook URL list, trimming each URL and dropping
/// empty entries.
pub fn split_hook_urls(s: &str) -> (r: Vec<String>)
    ensures
        r.deep_view() == hook_urls_of(split_at_seps(s@, ',')),
{
    let parts = split_str(s, ',');
    let mut out: Vec<String> = Vec::new();
    proof {
        assert(out.deep_view() =~= hook_urls_of(parts.deep_view().take(0)));
    }
    let mut i: usize = 0;
    while i < parts.len()
        invariant
            i <= parts@.len(),
            parts.deep_view() == split_at_seps(s@, ','),
            out.deep_view() == hook_urls_of(parts.deep_view().take(i as int)),
        decreases parts@.len() - i,
    {
        proof {
            assert(parts.deep_view()[i as int] == parts@[i as int]@);
            assert(parts.deep_view().take(i + 1).drop_last() =~= parts.deep_view().take(i as int));
            assert(parts.deep_view().take(i + 1).last() == parts.deep_view()[i as int]);
        }
        let t = trim_str(parts[i].as_str());
        if !t.is_empty() {
            let ghost old_deep = out.deep_view();
            out.push(String::from_str(t));
            proof {
                assert(out.deep_view() =~= old_deep + seq![t@]);
            }
        }
        i = i + 1;
    }
    proof {
        assert(parts.deep_view().take(parts@.len() as int) =~= parts.deep_view());
    }
    out
}

/// A `split_at_seps` result always has at least one piece.
proof fn lemma_split_nonempty(s: Seq<char>, sep: char)
    ensures
        split_at_seps(s, sep).len() >= 1,
    decreases s.len(),
{
    let k = crate::text::sep_index(s, sep);
    if k < s.len() {
        lemma_split_nonempty(s.skip(k as int + 1), sep);
    }
}

/// Infers a repository name from a remote URL: its last path segment with
/// a trailing `.git` removed.
pub fn infer_repo_name(url: &str) -> (r: String)
    ensures
        r@ == strip_git_suffix(last_segment_of(url@)),
{
    let parts = split_str(url, '/');
    proof {
        lemma_split_nonempty(url@, '/');
        assert(parts.deep_view()[parts@.len() - 1] == parts@[parts@.len() - 1]@);
    }
    let last = parts[parts.len() - 1].as_str();
    let n = last.unicode_len();
    if n >= 4 && last.get_char(n - 4) == '.' && last.get_char(n - 3) == 'g' && last.get_char(
        n - 2,
    ) == 'i' && last.get_char(n - 1) == 't' {
        proof {
            assert(last@.subrange(n - 4, n as int) =~= seq!['.', 'g', 'i', 't']);
        }
        String::from_str(last.substring_char(0, n - 4))
    } else {
        proof {
            if last@.len() >= 4 {
                let tail = last@.subrange(n - 4, n as int);
                assert(tail == seq!['.', 'g', 'i', 't'] ==> tail[0] == '.' && tail[1] == 'g'
                    && tail[2] == 'i' && tail[3] == 't');
            }
        }
        String::from_str(last)
    }
}

/// Parses the optional secret token: absent or blank means no signing;
/// otherwise the trimmed value must be even-length hex.
pub fn parse_secret_token(s: &Option<String>) -> (r: Result<Option<Vec<u8>>, Error>)
    ensures
        r is Ok <==> secret_token_ok(*s),
        r matches Ok(v) ==> token_decodes_to(*s, v),
        r matches Err(e) ==> e matches Error::Configuration { .. },
{
    match s {
        None => Ok(None),
        Some(x) => {
            let t = trim_str(x.as_str());
            if t.is_empty() {
                Ok(None)
            } else {
                match hex_decode(t) {
                    Ok(v) => Ok(Some(v)),
                    Err(e) => Err(e),
                }
            }
        },
    }
}

impl Config {
    /// Assembles the delivery configuration from the raw repository
    /// configuration values, applying defaults, the repo-name fallback to
    /// the `origin` remote URL, hook-URL splitting, secret-token decoding
    /// and content-type validation.  Fails exactly when the token is not
    /// blank-or-hex or the content type is neither `urlencoded` nor
    /// `json`.
    pub fn from_values(
        repo_name: Option<String>,
        repo_description: Option<String>,
        repo_owner_name: Option<String>,
        repo_owner_email: Option<String>,
        origin_url: Option<String>,
        hook_urls: Option<String>,
        secret_token: Option<String>,
        content_type: Option<String>,
    ) -> (r: Result<Config, Error>)
        ensures
            r is Ok <==> (secret_token_ok(secret_token) && content_type_ok(content_type)),
            r matches Ok(c) ==> {
                &&& c.repo_name@ == effective_repo_name(repo_name, origin_url)
                &&& c.repo_description@ == opt_str_of(repo_description)
                &&& c.repo_owner_name@ == opt_str_of(repo_owner_name)
                &&& c.repo_owner_email@ == opt_str_of(repo_owner_email)
                &&& c.hook_urls.deep_view() == hook_urls_of(
                    split_at_seps(opt_str_of(hook_urls), ','),
                )
                &&& token_decodes_to(secret_token, c.secret_token)
                &&& content_type_selects(content_type, c.content_type)
            },
            r matches Err(e) ==> e matches Error::Configuration { .. },
    {
        let name = match repo_name {
            Some(n) => n,
            None => match &origin_url {
                Some(u) => infer_repo_name(u.as_str()),
                None => String::new(),
            },
        };
        let description = match repo_description {
            Some(d) => d,
            None => String::new(),
        };
        let owner_name = match repo_owner_name {
            Some(d) => d,
            None => String::new(),
        };
        let owner_email = match repo_owner_email {
            Some(d) => d,
            None => String::new(),
        };
        let urls = match &hook_urls {
            Some(h) => split_hook_urls(h.as_str()),
            None => {
                let r = split_hook_urls("");
                proof {
                    reveal_strlit("");
                    assert(""@ =~= opt_str_of(hook_urls));
                }
                r
            },
        };
        let token = match parse_secret_token(&secret_token) {
            Ok(t) => t,
            Err(e) => {
                return Err(e);
            },
        };
        let ct = match &content_type {
            Some(s) => match ConfigContentType::from_str(s.as_str()) {
                Ok(c) => c,
                Err(e) => {
                    return Err(e);
                },
            },
            None => ConfigContentType::UrlEncoded,
        };
        Ok(
            Config {
                repo_name: name,
                repo_description: description,
                repo_owner_name: owner_name,
                repo_owner_email: owner_email,
                hook_urls: urls,
                secret_token: token,
                content_type: ct,
            },
        )
    }
}

} // verus!
