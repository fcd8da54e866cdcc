use notify_hook::config::{Config, ConfigContentType};
use notify_hook::form::to_urlencoded;
use notify_hook::json::to_json;
use notify_hook::payload::{
    classify_deltas, Commit, CommitSource, Delta, DeltaStatus, Payload, SigSource, User,
};
use notify_hook::timefmt::format_commit_time;
use std::collections::BTreeMap;

fn s(v: &str) -> String {
    v.to_string()
}

fn sig(name: &str, email: &str) -> SigSource {
    SigSource { name: Some(s(name)), email: Some(s(email)) }
}

fn small_commit() -> Commit {
    Commit::from(CommitSource {
        id: s("a"),
        tree_id: s("t"),
        message: Some(s("m")),
        timestamp: s("ts"),
        author: sig("n", "e"),
        committer: sig("n", "e"),
        parent_deltas: Some(vec![Delta { status: DeltaStatus::Added, path: Some(s("f1")) }]),
    })
}

fn config_named(name: &str) -> Config {
    Config::from_values(
        Some(s(name)),
        Some(s("demo repo")),
        Some(s("owner")),
        Some(s("owner@example.com")),
        None,
        None,
        None,
        None,
    )
    .unwrap()
}

fn small_payload() -> Payload {
    let commit = small_commit();
    Payload::from(&config_named("repo"), commit.clone(), vec![commit], "b", "c", "master")
}

#[test]
fn json_output_is_exact() {
    let body = String::from_utf8(to_json(&small_payload())).unwrap();
    let commit = "{\"id\":\"a\",\"tree_id\":\"t\",\"message\":\"m\",\"timestamp\":\"ts\",\"author\":{\"name\":\"n\",\"email\":\"e\"},\"committer\":{\"name\":\"n\",\"email\":\"e\"},\"added\":[\"f1\"],\"removed\":[],\"modified\":[]}";
    let expected = format!(
        "{{\"ref\":\"master\",\"before\":\"b\",\"after\":\"c\",\"commits\":[{c}],\"head_commit\":{c},\"repository\":{{\"name\":\"repo\",\"description\":\"demo repo\",\"owner\":{{\"name\":\"owner\",\"email\":\"owner@example.com\"}}}},\"pusher\":{{\"name\":\"n\",\"email\":\"e\"}}}}",
        c = commit
    );
    assert_eq!(body, expected);
}

#[test]
fn urlencoded_output_is_exact() {
    let body = String::from_utf8(to_urlencoded(&small_payload())).unwrap();
    let commit_pairs = |pre: &str| {
        format!(
            "&{p}[id]=a&{p}[tree_id]=t&{p}[message]=m&{p}[timestamp]=ts&{p}[author][name]=n&{p}[author][email]=e&{p}[committer][name]=n&{p}[committer][email]=e&{p}[added][0]=f1",
            p = pre
        )
    };
    let expected = format!(
        "ref=master&before=b&after=c{}{}&repository[name]=repo&repository[description]=demo%20repo&repository[owner][name]=owner&repository[owner][email]=owner%40example.com&pusher[name]=n&pusher[email]=e",
        commit_pairs("commits[0]"),
        commit_pairs("head_commit"),
    );
    assert_eq!(body, expected);
}

#[test]
fn json_escapes_string_content() {
    let mut c = small_commit();
    c.message = s("say \"hi\"\\\n\tdone\u{1} é");
    let p = Payload::from(&config_named("r"), c, vec![], "b", "c", "master");
    let body = to_json(&p);
    let v: serde_json::Value = serde_json::from_slice(&body).unwrap();
    assert_eq!(
        v["head_commit"]["message"].as_str().unwrap(),
        "say \"hi\"\\\n\tdone\u{1} é"
    );
    let text = String::from_utf8(body).unwrap();
    assert!(text.contains("say \\\"hi\\\"\\\\\\n\\tdone\\u0001 é"));
}

#[test]
fn urlencoded_escapes_values_per_byte() {
    let mut c = small_commit();
    c.message = s("a b/c&d=é~");
    let p = Payload::from(&config_named("r"), c, vec![], "b", "c", "master");
    let text = String::from_utf8(to_urlencoded(&p)).unwrap();
    assert!(text.contains("[message]=a%20b%2Fc%26d%3D%C3%A9~"));
}

/// Decodes a flattened `k=v&k=v` body into a key → value map.
fn decode_form(body: &str) -> BTreeMap<String, String> {
    let mut out = BTreeMap::new();
    for pair in body.split('&') {
        let mut it = pair.splitn(2, '=');
        let k = it.next().unwrap().to_string();
        let v = it.next().unwrap();
        let raw = v.as_bytes();
        let mut bytes = Vec::new();
        let mut i: usize = 0;
        while i < raw.len() {
            if raw[i] == b'%' {
                let hex = std::str::from_utf8(&raw[i + 1..i + 3]).unwrap();
                bytes.push(u8::from_str_radix(hex, 16).unwrap());
                i += 3;
            } else {
                bytes.push(raw[i]);
                i += 1;
            }
        }
        out.insert(k, String::from_utf8(bytes).unwrap());
    }
    out
}

#[test]
fn both_encodings_carry_the_same_field_values() {
    let p = small_payload();
    let v: serde_json::Value = serde_json::from_slice(&to_json(&p)).unwrap();
    let form = decode_form(&String::from_utf8(to_urlencoded(&p)).unwrap());

    assert_eq!(form["ref"], v["ref"].as_str().unwrap());
    assert_eq!(form["before"], v["before"].as_str().unwrap());
    assert_eq!(form["after"], v["after"].as_str().unwrap());
    assert_eq!(form["repository[name]"], v["repository"]["name"].as_str().unwrap());
    assert_eq!(
        form["repository[description]"],
        v["repository"]["description"].as_str().unwrap()
    );
    assert_eq!(
        form["repository[owner][name]"],
        v["repository"]["owner"]["name"].as_str().unwrap()
    );
    assert_eq!(
        form["repository[owner][email]"],
        v["repository"]["owner"]["email"].as_str().unwrap()
    );
    assert_eq!(form["pusher[name]"], v["pusher"]["name"].as_str().unwrap());
    assert_eq!(form["pusher[email]"], v["pusher"]["email"].as_str().unwrap());
    for (pre, node) in [("commits[0]", &v["commits"][0]), ("head_commit", &v["head_commit"])] {
        assert_eq!(form[&format!("{pre}[id]")], node["id"].as_str().unwrap());
        assert_eq!(form[&format!("{pre}[tree_id]")], node["tree_id"].as_str().unwrap());
        assert_eq!(form[&format!("{pre}[message]")], node["message"].as_str().unwrap());
        assert_eq!(form[&format!("{pre}[timestamp]")], node["timestamp"].as_str().unwrap());
        assert_eq!(form[&format!("{pre}[author][name]")], node["author"]["name"].as_str().unwrap());
        assert_eq!(
            form[&format!("{pre}[author][email]")],
            node["author"]["email"].as_str().unwrap()
        );
        assert_eq!(form[&format!("{pre}[added][0]")], node["added"][0].as_str().unwrap());
    }
}

#[test]
fn serialization_is_idempotent() {
    let p = small_payload();
    assert_eq!(to_json(&p), to_json(&p));
    assert_eq!(to_urlencoded(&p), to_urlencoded(&p));
}

#[test]
fn root_commit_yields_empty_diff_lists() {
    let c = Commit::from(CommitSource {
        id: s("a"),
        tree_id: s("t"),
        message: None,
        timestamp: s("ts"),
        author: SigSource { name: None, email: None },
        committer: SigSource { name: None, email: None },
        parent_deltas: None,
    });
    assert!(c.added.is_empty());
    assert!(c.removed.is_empty());
    assert!(c.modified.is_empty());
    assert_eq!(c.message, "");
    assert_eq!(c.author.name, "");
    assert_eq!(c.author.email, "");
}

#[test]
fn deltas_classify_by_status() {
    let d = |status, path: &str| Delta { status, path: Some(s(path)) };
    let deltas = vec![
        d(DeltaStatus::Added, "a"),
        d(DeltaStatus::Deleted, "d"),
        d(DeltaStatus::Modified, "m"),
        d(DeltaStatus::Renamed, "r"),
        d(DeltaStatus::Other, "x"),
        Delta { status: DeltaStatus::Added, path: None },
    ];
    let (added, removed, modified) = classify_deltas(&deltas);
    assert_eq!(added, vec![s("a"), s("")]);
    assert_eq!(removed, vec![s("d")]);
    assert_eq!(modified, vec![s("m"), s("r")]);
}

#[test]
fn payload_keeps_walk_order_and_head() {
    let mut c_new = small_commit();
    c_new.id = s("cccc");
    let mut c_mid = small_commit();
    c_mid.id = s("bbbb");
    c_mid.committer.name = s("other");
    let p = Payload::from(
        &config_named("repo"),
        c_new.clone(),
        vec![c_new.clone(), c_mid],
        "aaaa",
        "cccc",
        "master",
    );
    assert_eq!(p.commits.len(), 2);
    assert_eq!(p.commits[0].id, "cccc");
    assert_eq!(p.commits[1].id, "bbbb");
    assert_eq!(p.head_commit.id, "cccc");
    assert_eq!(p.before, "aaaa");
    assert_eq!(p.after, "cccc");
    assert_eq!(p.pusher.name, c_new.committer.name);
}

#[test]
fn user_from_defaults_missing_fields() {
    let u = User::from(&SigSource { name: Some(s("n")), email: None });
    assert_eq!(u.name, "n");
    assert_eq!(u.email, "");
}

#[test]
fn commit_time_renders_iso_utc() {
    assert_eq!(format_commit_time(0), "1970-01-01T00:00:00Z");
    assert_eq!(format_commit_time(1500000000), "2017-07-14T02:40:00Z");
}

#[test]
fn commit_time_handles_leap_rules() {
    // 2000 is a leap year (divisible by 400)...
    assert_eq!(format_commit_time(951782400), "2000-02-29T00:00:00Z");
    // ...while 2100 is not (century, not divisible by 400).
    assert_eq!(format_commit_time(4107542400), "2100-03-01T00:00:00Z");
}

#[test]
fn commit_time_out_of_range_is_empty() {
    assert_eq!(format_commit_time(-1), "");
    assert_eq!(format_commit_time(i64::MAX), "");
}
