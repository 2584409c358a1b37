use aur::{
    API_URI, Error, SearchBy, info_query, info_uri, orphans_uri, resolve_uri, search_by_query,
    search_by_uri, search_query, search_text_uri, search_uri,
};
use aur::percent::encode_value;

fn names(list: &[&str]) -> Vec<String> {
    list.iter().map(|s| s.to_string()).collect()
}

#[test]
fn info_query_one_arg_per_name_in_order() {
    let q = info_query(API_URI, &names(&["rust-nightly", "cargo", "rust-nightly"]));
    assert_eq!(
        q,
        "https://aur.archlinux.org/rpc/?v=5&type=info&arg[]=rust-nightly&arg[]=cargo&arg[]=rust-nightly"
    );
    assert_eq!(q.matches("arg[]=").count(), 3);
}

#[test]
fn info_query_empty_list_has_no_args() {
    let q = info_query(API_URI, &[]);
    assert_eq!(q, "https://aur.archlinux.org/rpc/?v=5&type=info");
    assert!(!q.contains("arg[]"));
}

#[test]
fn info_query_uses_given_base() {
    let q = info_query("http://localhost/rpc?v=5", &names(&["a"]));
    assert_eq!(q, "http://localhost/rpc?v=5&type=info&arg[]=a");
}

#[test]
fn search_query_text_only_omits_maintainer_and_by() {
    let q = search_query(API_URI, Some("rust"), None);
    assert_eq!(q, "https://aur.archlinux.org/rpc/?v=5&type=search&arg=rust");
    assert!(q.contains("&arg=rust"));
    assert!(!q.contains("maintainer"));
    assert!(!q.contains("by="));
}

#[test]
fn search_query_absent_parameters_are_left_out() {
    assert_eq!(
        search_query(API_URI, None, None),
        "https://aur.archlinux.org/rpc/?v=5&type=search"
    );
    assert_eq!(
        search_query(API_URI, None, Some("zeyla")),
        "https://aur.archlinux.org/rpc/?v=5&type=search&maintainer=zeyla"
    );
    assert_eq!(
        search_query(API_URI, Some("rust"), Some("zeyla")),
        "https://aur.archlinux.org/rpc/?v=5&type=search&arg=rust&maintainer=zeyla"
    );
}

#[test]
fn search_by_tokens_match_the_table() {
    let table = [
        (SearchBy::Name, "name"),
        (SearchBy::NameDesc, "name-desc"),
        (SearchBy::Maintainer, "maintainer"),
        (SearchBy::Depends, "depends"),
        (SearchBy::MakeDepends, "makedepends"),
        (SearchBy::OptDepends, "optdepends"),
        (SearchBy::CheckDepends, "checkdepends"),
    ];
    for (by, token) in table.iter() {
        assert_eq!(by.as_str(), *token);
        assert_eq!(by.to_string(), *token);
    }
}

#[test]
fn search_by_query_make_depends() {
    assert_eq!(
        search_by_query(API_URI, "rust", SearchBy::MakeDepends),
        "https://aur.archlinux.org/rpc/?v=5&type=search&arg=rust&by=makedepends"
    );
}

#[test]
fn info_uri_escapes_reserved_characters() {
    let uri = info_uri(API_URI, &names(&["foo&bar"])).unwrap();
    assert_eq!(uri.query(), Some("v=5&type=info&arg[]=foo%26bar"));
    assert_eq!(uri.host(), Some("aur.archlinux.org"));
    assert_eq!(uri.path(), "/rpc/");
    let again = info_uri(API_URI, &names(&["foo&bar"])).unwrap();
    assert_eq!(uri, again);
}

#[test]
fn info_uri_escapes_space() {
    let uri = info_uri(API_URI, &names(&["foo bar"])).unwrap();
    assert_eq!(uri.query(), Some("v=5&type=info&arg[]=foo%20bar"));
}

#[test]
fn malformed_base_fails_with_uri_error() {
    let r = info_uri("http://exa mple.org/rpc/?v=5", &names(&["foo"]));
    assert!(matches!(r, Err(Error::Uri(_))));
    let again = info_uri("http://exa mple.org/rpc/?v=5", &names(&["foo"]));
    assert!(matches!(again, Err(Error::Uri(_))));
}

#[test]
fn encode_value_examples() {
    assert_eq!(encode_value("foo&bar"), "foo%26bar");
    assert_eq!(encode_value("a-b.c_d~E9"), "a-b.c_d~E9");
    assert_eq!(encode_value("x=y by"), "x%3Dy%20by");
    assert_eq!(encode_value("é"), "%C3%A9");
    assert_eq!(encode_value(""), "");
}

#[test]
fn search_text_cannot_add_parameters() {
    let q = search_by_query(API_URI, "x&by=name", SearchBy::Depends);
    assert_eq!(
        q,
        "https://aur.archlinux.org/rpc/?v=5&type=search&arg=x%26by%3Dname&by=depends"
    );
    assert_eq!(q.matches("&by=").count(), 1);
    let t = search_query(API_URI, Some("a&by=x"), None);
    assert!(!t.contains("&by="));
}

#[test]
fn resolve_uri_rejects_empty_text() {
    assert!(matches!(resolve_uri(""), Err(Error::Uri(_))));
}

#[test]
fn search_uris() {
    let a = search_uri(API_URI, Some("rust"), None).unwrap();
    assert_eq!(a.query(), Some("v=5&type=search&arg=rust"));
    let b = search_by_uri(API_URI, "rust", SearchBy::Name).unwrap();
    assert_eq!(b.query(), Some("v=5&type=search&arg=rust&by=name"));
    let c = search_text_uri(API_URI, "rust").unwrap();
    assert_eq!(c.query(), Some("v=5&type=search&arg=rust"));
    assert_eq!(c, a);
    let d = orphans_uri(API_URI).unwrap();
    assert_eq!(d.query(), Some("v=5&type=search&arg=&by=maintainer"));
}
