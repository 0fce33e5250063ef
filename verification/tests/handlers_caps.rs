//! The bundled handlers that drive cache, files, fetches, GraphQL and the
//! database.

use suborbital::handlers::cache_get::CacheGet;
use suborbital::handlers::cache_set::CacheSet;
use suborbital::handlers::dbtest;
use suborbital::handlers::fetch::Fetch;
use suborbital::handlers::fetch_body;
use suborbital::handlers::fetch_plain;
use suborbital::handlers::fetch_test::FetchTest;
use suborbital::handlers::get_file::GetFile;
use suborbital::handlers::get_static::GetStatic;
use suborbital::handlers::rs_dbtest::RsDbtest;
use suborbital::handlers::rs_graphql::RsGraphql;
use suborbital::handlers::rs_reqset::RsReqset;
use suborbital::handlers::run_each::RunEach;
use suborbital::handlers::rust_get::RustGet;
use suborbital::handlers::rust_set::RustSet;
use suborbital::handlers::rust_urlquery::RustUrlquery;
use suborbital::cache;
use suborbital::Ctx;
use suborbital::MemHost;
use suborbital::Runnable;

fn ctx() -> Ctx<MemHost> {
    Ctx::new(MemHost::new())
}

#[test]
fn cache_set_then_cache_get_round_trips_through_the_handlers() {
    let mut c = ctx();
    c.host.load_field(3, b"key", b"the-key");
    let r = CacheSet {}.run(&mut c, b"stored".to_vec()).unwrap();
    assert_eq!(r, Vec::<u8>::new());
    let got = CacheGet {}.run(&mut c, Vec::new()).unwrap();
    assert_eq!(got, b"stored".to_vec());
}

#[test]
fn cache_get_on_an_unset_key_answers_empty() {
    let mut c = ctx();
    c.host.load_field(3, b"key", b"nothing-here");
    let got = CacheGet {}.run(&mut c, Vec::new()).unwrap();
    assert_eq!(got, Vec::<u8>::new());
}

#[test]
fn rust_set_stores_under_important() {
    let mut c = ctx();
    let r = RustSet {}.run(&mut c, b"payload".to_vec()).unwrap();
    assert_eq!(r, b"hello".to_vec());
    assert_eq!(cache::get(&mut c, "important"), b"payload".to_vec());
}

#[test]
fn rust_get_reads_the_name_key() {
    let mut c = ctx();
    cache::set(&mut c, "name", b"cached".to_vec(), 0);
    let r = RustGet {}.run(&mut c, Vec::new()).unwrap();
    assert_eq!(r, b"cached".to_vec());
}

#[test]
fn rust_urlquery_greets_the_message_parameter() {
    let mut c = ctx();
    c.host.load_field(5, b"message", b"querier");
    let r = RustUrlquery {}.run(&mut c, Vec::new()).unwrap();
    assert_eq!(r, b"hello querier".to_vec());
}

#[test]
fn rs_reqset_sets_the_header_and_logs_success() {
    let mut c = ctx();
    let r = RsReqset {}.run(&mut c, Vec::new()).unwrap();
    assert_eq!(r, Vec::<u8>::new());
    assert_eq!(c.host.log_lines, vec![(3, b"header set!".to_vec())]);
    let (ft, key, val) = c.host.field_entries.last().unwrap().clone();
    assert_eq!(ft, 2);
    assert_eq!(key, b"X-REACTR-TEST".to_vec());
    assert_eq!(val, b"test successful!".to_vec());
}

#[test]
fn get_static_serves_the_named_file() {
    let mut c = ctx();
    c.host.load_file(b"site.css", b"body {}");
    let r = GetStatic {}.run(&mut c, b"site.css".to_vec()).unwrap();
    assert_eq!(r, b"body {}".to_vec());
}

#[test]
fn get_static_answers_empty_for_a_missing_file() {
    let mut c = ctx();
    let r = GetStatic {}.run(&mut c, b"none.css".to_vec()).unwrap();
    assert_eq!(r, Vec::<u8>::new());
}

#[test]
fn get_file_prefers_the_url_parameter() {
    let mut c = ctx();
    c.host.load_field(3, b"file", b"a.txt");
    c.host.load_file(b"a.txt", b"from param");
    let r = GetFile {}.run(&mut c, Vec::new()).unwrap();
    assert_eq!(r, b"from param".to_vec());
}

#[test]
fn get_file_falls_back_to_state_then_fails() {
    let mut c = ctx();
    c.host.load_field(4, b"file", b"b.txt");
    c.host.load_file(b"b.txt", b"from state");
    let r = GetFile {}.run(&mut c, Vec::new()).unwrap();
    assert_eq!(r, b"from state".to_vec());

    let mut c2 = ctx();
    let r2 = GetFile {}.run(&mut c2, Vec::new()).unwrap();
    assert_eq!(r2, b"failed".to_vec());
}

#[test]
fn fetch_gets_the_input_url_then_posts_with_folded_headers() {
    let mut c = ctx();
    let r = Fetch {}.run(&mut c, b"http://first".to_vec()).unwrap();
    assert_eq!(c.host.fetch_log.len(), 2);
    assert_eq!(c.host.fetch_log[0].0, 0);
    assert_eq!(c.host.fetch_log[0].1, b"http://first".to_vec());
    let expected_post_url = b"https://postman-echo.com/post::Content-Type:application/json::X-ATMO-TEST:testvalgoeshere".to_vec();
    assert_eq!(c.host.fetch_log[1].0, 3);
    assert_eq!(c.host.fetch_log[1].1, expected_post_url);
    assert_eq!(
        c.host.fetch_log[1].2,
        b"{\"message\": \"testing the echo!\"}".to_vec()
    );
    // the model host echoes the url, and the handler answers the response
    assert_eq!(r, expected_post_url);
}

#[test]
fn fetch_body_gets_the_url_in_the_request_body() {
    let mut c = ctx();
    c.host.load_field(0, b"body", b"http://target");
    let r = fetch_body::Fetch {}.run(&mut c, Vec::new()).unwrap();
    assert_eq!(r, b"http://target".to_vec());
}

#[test]
fn fetch_test_logs_and_fetches_from_state() {
    let mut c = ctx();
    c.host.load_field(4, b"logme", b"note");
    c.host.load_field(4, b"url", b"http://from-state");
    let r = FetchTest {}.run(&mut c, Vec::new()).unwrap();
    assert_eq!(r, b"http://from-state".to_vec());
    assert_eq!(c.host.log_lines, vec![(3, b"note".to_vec())]);
}

#[test]
fn fetch_plain_fetches_what_the_json_request_names() {
    let mut c = ctx();
    let input =
        b"{\"url\":\"u\",\"body\":\"b\",\"state\":{\"modify-url\":\"http://m\"}}".to_vec();
    let r = fetch_plain::run(&mut c, input).unwrap();
    assert_eq!(r, b"http://m".to_vec());
    assert_eq!(c.host.fetch_log.last().unwrap().1, b"http://m".to_vec());
}

#[test]
fn fetch_plain_answers_failed_on_a_bad_request() {
    let mut c = ctx();
    let r = fetch_plain::run(&mut c, b"not json".to_vec()).unwrap();
    assert_eq!(r, b"failed".to_vec());
    assert!(c.host.fetch_log.is_empty());
}

#[test]
fn fetch_plain_request_parses_all_three_fields() {
    let input =
        b"{\"url\":\"u\",\"body\":\"b\",\"state\":{\"modify-url\":\"m\"}}".to_vec();
    let q = fetch_plain::request(input).unwrap();
    assert_eq!(q.url, "u");
    assert_eq!(q.body, "b");
    assert_eq!(q.modify_url, "m");
    assert!(fetch_plain::request(b"{\"url\":\"u\"}".to_vec()).is_none());
}

#[test]
fn rs_graphql_queries_and_answers_the_echo() {
    let mut c = ctx();
    let r = RsGraphql {}.run(&mut c, Vec::new()).unwrap();
    let (endpoint, query) = c.host.query_log.last().unwrap().clone();
    assert_eq!(endpoint, b"https://api.github.com/graphql".to_vec());
    assert_eq!(r, query);
    assert_eq!(c.host.log_lines.len(), 1);
}

#[test]
fn run_each_wraps_the_name_in_a_greeting() {
    let mut c = ctx();
    c.host.load_field(4, b"__elem", b"{\"name\":\"Bob\"}");
    let r = RunEach {}.run(&mut c, Vec::new()).unwrap();
    assert_eq!(r, b"{\"name\":\"Hello Bob\"}".to_vec());
}

#[test]
fn run_each_fails_with_500_on_unparsable_state() {
    let mut c = ctx();
    c.host.load_field(4, b"__elem", b"not json");
    let e = RunEach {}.run(&mut c, Vec::new()).err().unwrap();
    assert_eq!(e.code, 500);
    assert_eq!(e.message, "failed to from_slice");
}

#[test]
fn rs_dbtest_walks_a_row_through_the_database() {
    let mut c = ctx();
    let r = RsDbtest {}.run(&mut c, Vec::new()).unwrap();
    assert_eq!(r, b"all good!".to_vec());
    let codes: Vec<i32> = c.host.exec_log.iter().map(|e| e.0).collect();
    // insert, update, select, delete, select
    assert_eq!(codes, vec![0, 2, 1, 3, 1]);
}

#[test]
fn dbtest_answers_the_selected_row() {
    let mut c = ctx();
    let r = dbtest::RsDbtest {}.run(&mut c, Vec::new()).unwrap();
    let text = String::from_utf8(r).unwrap();
    assert!(text.starts_with("[{\"uuid\":\""));
    assert!(text.ends_with("\",\"email\":\"connor@suborbital.dev\"}]"));
    // the staged uuid is the hyphenated 36-character form
    let staged = c.host.exec_log[0].2.clone();
    assert_eq!(staged[0].0, b"uuid".to_vec());
    assert_eq!(staged[0].1.len(), 36);
}

#[test]
fn dbtest_surfaces_a_database_error_as_500() {
    let mut c = ctx();
    // two staging calls fail silently first; the operation call fails loudly
    c.host.failures_left = 3;
    c.host.error_bytes = b"insert blew up".to_vec();
    let e = dbtest::RsDbtest {}.run(&mut c, Vec::new()).err().unwrap();
    assert_eq!(e.code, 500);
    assert_eq!(e.message, "insert blew up");
}
