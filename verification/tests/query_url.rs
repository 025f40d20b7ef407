//! Tests of the query builder and its URL serialization.

use ddg::Query;

const APP_NAME: &str = "ddg_rs_tests";

#[test]
fn url_plain() {
    let url = Query::new("Rust", APP_NAME).to_url().unwrap();
    assert_eq!(
        url,
        "https://api.duckduckgo.com/?q=Rust&t=ddg_rs_tests&format=json&no_redirect=1"
    );
}

#[test]
fn url_no_html_flag() {
    let url = Query::new("Rust", APP_NAME).no_html().to_url().unwrap();
    assert_eq!(
        url,
        "https://api.duckduckgo.com/?q=Rust&t=ddg_rs_tests&format=json&no_redirect=1&no_html=1"
    );
}

#[test]
fn url_skip_disambig_flag() {
    let url = Query::new("Rust", APP_NAME).skip_disambig().to_url().unwrap();
    assert_eq!(
        url,
        "https://api.duckduckgo.com/?q=Rust&t=ddg_rs_tests&format=json&no_redirect=1&skip_disambig=1"
    );
}

#[test]
fn url_both_flags_fixed_order() {
    let url = Query::new("Rust", APP_NAME)
        .no_html()
        .skip_disambig()
        .to_url()
        .unwrap();
    assert_eq!(
        url,
        "https://api.duckduckgo.com/?q=Rust&t=ddg_rs_tests&format=json&no_redirect=1&no_html=1&skip_disambig=1"
    );
}

#[test]
fn url_fixed_parameters_appear_once() {
    let url = Query::new("Rust", APP_NAME)
        .no_html()
        .skip_disambig()
        .to_url()
        .unwrap();
    assert_eq!(url.matches("format=json").count(), 1);
    assert_eq!(url.matches("no_redirect=1").count(), 1);
    assert_eq!(url.matches("no_html=1").count(), 1);
    assert_eq!(url.matches("skip_disambig=1").count(), 1);
}

#[test]
fn url_percent_encodes_reserved_characters() {
    let url = Query::new("a b&c#d%e=f", "my/app").to_url().unwrap();
    assert_eq!(
        url,
        "https://api.duckduckgo.com/?q=a%20b%26c%23d%25e%3Df&t=my%2Fapp&format=json&no_redirect=1"
    );
}

#[test]
fn url_percent_encodes_non_ascii() {
    let url = Query::new("café", APP_NAME).to_url().unwrap();
    assert_eq!(
        url,
        "https://api.duckduckgo.com/?q=caf%C3%A9&t=ddg_rs_tests&format=json&no_redirect=1"
    );
}

#[test]
fn url_reparse_recovers_query_components() {
    let query = "a b&c#d%e=f π café";
    let name = "my app&co";
    let url = Query::new(query, name).to_url().unwrap();
    let parsed = url::Url::parse(&url).unwrap();
    let mut q_value = None;
    let mut t_value = None;
    for (k, v) in parsed.query_pairs() {
        if k == "q" {
            q_value = Some(v.into_owned());
        } else if k == "t" {
            t_value = Some(v.into_owned());
        }
    }
    assert_eq!(q_value.as_deref(), Some(query));
    assert_eq!(t_value.as_deref(), Some(name));
}

#[test]
fn url_with_empty_query_and_name() {
    let url = Query::new("", "").to_url().unwrap();
    assert_eq!(
        url,
        "https://api.duckduckgo.com/?q=&t=&format=json&no_redirect=1"
    );
}

#[test]
fn builder_flags_default_off_and_only_turn_on() {
    let q = Query::new("Rust", APP_NAME);
    assert!(!q.no_html);
    assert!(!q.skip_disambig);
    let q = q.no_html();
    assert!(q.no_html);
    assert!(!q.skip_disambig);
    let q = q.skip_disambig();
    assert!(q.no_html);
    assert!(q.skip_disambig);
}
