use raur::aur::ENDPOINT;
use raur::query::{many_arguments_url, one_argument_url};
use raur::Aur;

fn query_of(url: &str) -> &str {
    let prefix = format!("{}?", ENDPOINT);
    assert!(url.starts_with(&prefix), "{}", url);
    &url[prefix.len()..]
}

fn pairs_of(query: &str) -> Vec<(String, String)> {
    url::form_urlencoded::parse(query.as_bytes()).into_owned().collect()
}

fn pair(name: &str, value: &str) -> (String, String) {
    (name.to_string(), value.to_string())
}

#[test]
fn endpoint_is_the_public_service() {
    assert_eq!(ENDPOINT, "https://aur4.archlinux.org/rpc.php");
    assert_eq!(Aur::new().search_url("x"), "https://aur4.archlinux.org/rpc.php?type=search&arg=x");
}

#[test]
fn single_argument_queries_are_type_and_arg() {
    let aur = Aur::new();
    assert_eq!(query_of(&aur.search_url("vim")), "type=search&arg=vim");
    assert_eq!(query_of(&aur.msearch_url("alice")), "type=msearch&arg=alice");
    assert_eq!(query_of(&aur.info_url("yaourt-git")), "type=info&arg=yaourt-git");
    assert_eq!(query_of(&aur.search_url("")), "type=search&arg=");
}

#[test]
fn unreserved_bytes_stand_as_they_are() {
    let aur = Aur::new();
    let all = "*-._0123456789ABCDEFGHIJKLMNOPQRSTUVWXYZabcdefghijklmnopqrstuvwxyz";
    assert_eq!(query_of(&aur.search_url(all)), format!("type=search&arg={}", all));
}

#[test]
fn special_characters_are_encoded() {
    let aur = Aur::new();
    assert_eq!(query_of(&aur.search_url("a b")), "type=search&arg=a+b");
    assert_eq!(query_of(&aur.search_url("a+b")), "type=search&arg=a%2Bb");
    assert_eq!(query_of(&aur.search_url("a&b=c")), "type=search&arg=a%26b%3Dc");
    assert_eq!(query_of(&aur.search_url("100%")), "type=search&arg=100%25");
    assert_eq!(query_of(&aur.search_url("~/#?")), "type=search&arg=%7E%2F%23%3F");
    assert_eq!(query_of(&aur.search_url("\u{e9}t\u{e9}")), "type=search&arg=%C3%A9t%C3%A9");
    assert_eq!(query_of(&aur.search_url("\u{1f600}")), "type=search&arg=%F0%9F%98%80");
    assert_eq!(query_of(&aur.search_url("\0\n\u{7f}")), "type=search&arg=%00%0A%7F");
}

#[test]
fn decoding_the_query_gives_the_argument_back() {
    let aur = Aur::new();
    for arg in ["vim", "a b&c=d", "100% +1", "\u{e9}t\u{e9} \u{1f600}", "arg[]=x&type=error", "%41", ""] {
        assert_eq!(
            pairs_of(query_of(&aur.search_url(arg))),
            vec![pair("type", "search"), pair("arg", arg)]
        );
        assert_eq!(
            pairs_of(query_of(&aur.msearch_url(arg))),
            vec![pair("type", "msearch"), pair("arg", arg)]
        );
        assert_eq!(
            pairs_of(query_of(&aur.info_url(arg))),
            vec![pair("type", "info"), pair("arg", arg)]
        );
    }
}

#[test]
fn multiinfo_has_one_pair_per_name_in_order() {
    let aur = Aur::new();
    let url = aur.multiinfo_url(&["b", "a", "b"]);
    assert_eq!(query_of(&url), "type=multiinfo&arg%5B%5D=b&arg%5B%5D=a&arg%5B%5D=b");
    assert_eq!(
        pairs_of(query_of(&url)),
        vec![pair("type", "multiinfo"), pair("arg[]", "b"), pair("arg[]", "a"), pair("arg[]", "b")]
    );
}

#[test]
fn multiinfo_encodes_each_name_on_its_own() {
    let aur = Aur::new();
    let names = ["a&arg[]=b", "c d", "", "\u{fc}"];
    let url = aur.multiinfo_url(&names);
    assert_eq!(
        query_of(&url),
        "type=multiinfo&arg%5B%5D=a%26arg%5B%5D%3Db&arg%5B%5D=c+d&arg%5B%5D=&arg%5B%5D=%C3%BC"
    );
    let pairs = pairs_of(query_of(&url));
    assert_eq!(pairs.len(), names.len() + 1);
    assert_eq!(pairs[0], pair("type", "multiinfo"));
    for (i, name) in names.iter().enumerate() {
        assert_eq!(pairs[i + 1], pair("arg[]", name));
    }
}

#[test]
fn multiinfo_of_no_names_has_no_arg_pair() {
    let aur = Aur::new();
    assert_eq!(query_of(&aur.multiinfo_url(&[])), "type=multiinfo");
}

#[test]
fn calls_take_any_operation_and_endpoint() {
    let aur = Aur::new();
    assert_eq!(query_of(&aur.call_one("a b", "c")), "type=a+b&arg=c");
    assert_eq!(query_of(&aur.call_multi("x", &["1", "2"])), "type=x&arg%5B%5D=1&arg%5B%5D=2");
    assert_eq!(one_argument_url("http://h/p", "info", "n"), "http://h/p?type=info&arg=n");
    assert_eq!(many_arguments_url("http://h/p", "multiinfo", &["n"]), "http://h/p?type=multiinfo&arg%5B%5D=n");
}
