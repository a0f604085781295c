use dns_redirector::answer::{extract, join_chunks};
use dns_redirector::resolver::{begin, decide, finish, query_name, resolve, Decision, Step, TxtAnswer};
use dns_redirector::rule::{get_location_url, parse_rewrite, parse_rule, Rule};
use dns_redirector::status::{match_status, Status};
use dns_redirector::text::{join_tokens, split_tokens, text_eq};

fn answer_of(records: &[&[&str]]) -> TxtAnswer {
    records
        .iter()
        .map(|r| r.iter().map(|c| c.as_bytes().to_vec()).collect())
        .collect()
}

fn moved(target: &str) -> (String, Status) {
    (target.to_string(), Status::MovedPermanently)
}

#[test]
fn status_tokens_map_to_their_codes() {
    let table = [
        ("301", 301),
        ("moved", 301),
        ("302", 302),
        ("found", 302),
        ("303", 303),
        ("see_other", 303),
        ("307", 307),
        ("temporary", 307),
        ("308", 308),
        ("permanent", 308),
    ];
    for (token, code) in table {
        assert_eq!(match_status(token).code(), code, "token {}", token);
    }
}

#[test]
fn unknown_status_tokens_are_moved_permanently() {
    for token in ["", "404", "Found", "FOUND", "302 ", "redirect"] {
        assert_eq!(match_status(token), Status::MovedPermanently);
    }
}

#[test]
fn rewrite_status_comes_from_fourth_token() {
    let r = get_location_url("/a", "rewrite ^/a /b see_other");
    assert_eq!(r, ("/b".to_string(), Status::SeeOther));
    let r = get_location_url("/a", "rewrite ^/a /b bogus");
    assert_eq!(r, moved("/b"));
    let r = get_location_url("/a", "rewrite ^/a /b");
    assert_eq!(r, moved("/b"));
}

#[test]
fn literal_text_is_the_target() {
    assert_eq!(
        get_location_url("/any/path", "https://dest.example/"),
        moved("https://dest.example/")
    );
}

#[test]
fn literal_text_keeps_its_spacing() {
    assert_eq!(get_location_url("/", "  a   b "), moved("  a   b "));
}

#[test]
fn blank_text_is_a_literal() {
    assert_eq!(get_location_url("/", ""), moved(""));
    assert_eq!(get_location_url("/", " \t "), moved(" \t "));
}

#[test]
fn rewrite_substitutes_into_path() {
    assert_eq!(
        get_location_url("/old/page", "rewrite ^/old(.*) /new$1 302"),
        ("/new/page".to_string(), Status::Found)
    );
}

#[test]
fn rewrite_replaces_only_first_match() {
    assert_eq!(get_location_url("/a/a/a", "rewrite a b"), moved("/b/a/a"));
}

#[test]
fn rewrite_without_match_keeps_path() {
    assert_eq!(get_location_url("/other", "rewrite ^/old(.*) /new$1"), moved("/other"));
}

#[test]
fn rewrite_with_two_tokens_is_literal() {
    assert_eq!(
        get_location_url("/x", "rewrite only-two-tokens"),
        moved("rewrite only-two-tokens")
    );
}

#[test]
fn rewrite_with_five_tokens_is_joined_literal() {
    assert_eq!(get_location_url("/x", "rewrite  a\tb c   d"), moved("rewrite a b c d"));
}

#[test]
fn rewrite_with_invalid_pattern_is_literal() {
    assert_eq!(
        get_location_url("/x", "rewrite ([ invalidpattern"),
        moved("rewrite ([ invalidpattern")
    );
    assert_eq!(
        get_location_url("/x", "rewrite   ([   invalidpattern  308"),
        moved("rewrite ([ invalidpattern 308")
    );
}

#[test]
fn return_sends_rest_with_moved_permanently() {
    assert_eq!(
        get_location_url("/x", "return 302   https://dest.example/"),
        moved("302 https://dest.example/")
    );
    assert_eq!(get_location_url("/x", "return"), moved(""));
}

#[test]
fn parse_rule_variants() {
    assert!(matches!(parse_rule("https://x/"), Rule::Literal(u) if u == "https://x/"));
    assert!(matches!(parse_rule("return https://x/"), Rule::Return(u) if u == "https://x/"));
    match parse_rule("rewrite ^/(.*) /z$1 temporary") {
        Rule::Rewrite { replacement, status, .. } => {
            assert_eq!(replacement, "/z$1");
            assert_eq!(status, Status::TemporaryRedirect);
        }
        other => panic!("unexpected rule {:?}", other),
    }
}

#[test]
fn parse_rewrite_checks_arity() {
    let parts = vec!["rewrite".to_string(), "x".to_string()];
    assert!(matches!(parse_rewrite(&parts), Rule::Literal(u) if u == "rewrite x"));
}

#[test]
fn rule_target_applies_to_path() {
    let rule = parse_rule("rewrite ^/(\\w+) https://other.example/$1 permanent");
    assert_eq!(
        rule.target("/docs"),
        ("https://other.example/docs".to_string(), Status::PermanentRedirect)
    );
}

#[test]
fn tokens_split_on_any_whitespace() {
    assert_eq!(
        split_tokens("  a\tbb \n c\u{3000}d\u{a0}"),
        vec!["a".to_string(), "bb".to_string(), "c".to_string(), "d".to_string()]
    );
    assert!(split_tokens("").is_empty());
    assert!(split_tokens(" \r\n").is_empty());
}

#[test]
fn join_tokens_from_an_index() {
    let ts = vec!["a".to_string(), "b".to_string(), "c".to_string()];
    assert_eq!(join_tokens(&ts, 0), "a b c");
    assert_eq!(join_tokens(&ts, 2), "c");
    assert_eq!(join_tokens(&ts, 3), "");
}

#[test]
fn text_eq_compares_characters() {
    assert!(text_eq("abc", "abc"));
    assert!(!text_eq("abc", "abd"));
    assert!(!text_eq("ab", "abc"));
    assert!(text_eq("", ""));
}

#[test]
fn chunks_are_joined_with_a_space() {
    let chunks = vec![b"ab".to_vec(), b"cd".to_vec(), Vec::new()];
    assert_eq!(join_chunks(&chunks), b"ab cd ".to_vec());
    assert_eq!(join_chunks(&Vec::new()), Vec::<u8>::new());
}

#[test]
fn extract_uses_first_record_only() {
    let a = answer_of(&[&["https://one/", "x"], &["https://two/"]]);
    assert_eq!(extract(&a), Some("https://one/ x".to_string()));
}

#[test]
fn extract_of_empty_answer_is_none() {
    assert_eq!(extract(&Vec::new()), None);
}

#[test]
fn extract_rejects_invalid_utf8() {
    let a: TxtAnswer = vec![vec![vec![0x66, 0xff, 0x67]]];
    assert_eq!(extract(&a), None);
}

#[test]
fn extract_decodes_utf8() {
    let a: TxtAnswer = vec![vec![vec![0x68, 0xc3, 0xa9]]];
    assert_eq!(extract(&a), Some("h\u{e9}".to_string()));
}

#[test]
fn query_name_prefixes_host() {
    assert_eq!(query_name("example.com"), "_redirect.example.com");
}

#[test]
fn begin_without_host_is_bad_request() {
    assert_eq!(
        begin(None),
        Step::Done(Decision::BadRequest("No Host header".to_string()))
    );
    assert_eq!(begin(Some("a.b")), Step::Lookup("_redirect.a.b".to_string()));
}

#[test]
fn resolve_without_host_never_looks_up() {
    let mut called = false;
    let d = resolve(None, "/x", |_n: String| -> Result<TxtAnswer, ()> {
        called = true;
        Ok(Vec::new())
    });
    assert!(!called);
    assert_eq!(d, Decision::BadRequest("No Host header".to_string()));
    assert_eq!(d.http_code(), 400);
    assert_eq!(d.body(), "No Host header");
}

#[test]
fn resolve_looks_up_the_derived_name() {
    let mut asked = Vec::new();
    let d = resolve(Some("example.com"), "/old/page", |n: String| -> Result<TxtAnswer, ()> {
        asked.push(n);
        Ok(answer_of(&[&["rewrite ^/old(.*) /new$1 302"]]))
    });
    assert_eq!(asked, vec!["_redirect.example.com".to_string()]);
    assert_eq!(
        d,
        Decision::Redirect { status: Status::Found, location: "/new/page".to_string() }
    );
    assert_eq!(d.http_code(), 302);
    assert_eq!(d.body(), "");
}

#[test]
fn empty_answer_is_not_found() {
    let d = resolve(Some("h"), "/", |_n: String| -> Result<TxtAnswer, ()> { Ok(Vec::new()) });
    assert_eq!(d, Decision::NotFound);
    assert_eq!(d.http_code(), 404);
    assert_eq!(d.body(), "404 Not found");
}

#[test]
fn failed_lookup_is_not_found() {
    assert_eq!(finish::<&str>("/", Err("NXDOMAIN")), Decision::NotFound);
    assert_eq!(finish::<u32>("/", Err(7)), Decision::NotFound);
    let d = resolve(Some("h"), "/", |_n: String| -> Result<TxtAnswer, String> {
        Err("timeout".to_string())
    });
    assert_eq!(d, Decision::NotFound);
}

#[test]
fn invalid_utf8_record_is_not_found() {
    let a: TxtAnswer = vec![vec![vec![0xc3]]];
    assert_eq!(decide("/", &a), Decision::NotFound);
}

#[test]
fn decide_literal_record() {
    let a = answer_of(&[&["https://dest.example/"]]);
    assert_eq!(
        decide("/whatever", &a),
        Decision::Redirect {
            status: Status::MovedPermanently,
            location: "https://dest.example/".to_string()
        }
    );
}

#[test]
fn multi_chunk_record_is_joined_before_parsing() {
    let a = answer_of(&[&["rewrite ^/(.*)", "/b/$1", "307"]]);
    assert_eq!(
        finish::<()>("/q", Ok(a)),
        Decision::Redirect { status: Status::TemporaryRedirect, location: "/b/q".to_string() }
    );
}

#[test]
fn same_inputs_give_same_decision() {
    let a = answer_of(&[&["rewrite ^/(.*) /z/$1 found"]]);
    let first = decide("/p", &a);
    let second = decide("/p", &a);
    assert_eq!(first, second);
    let third = resolve(Some("h"), "/p", |_n: String| -> Result<TxtAnswer, ()> { Ok(a.clone()) });
    assert_eq!(first, third);
}
