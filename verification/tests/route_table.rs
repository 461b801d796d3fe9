use route_proxy::endpoint_map::{EndpointKey, EndpointMap, RouteTable};
use route_proxy::proxy_item::{Header, ProxyItem};
use route_proxy::route_config::{EndpointConfigFile, HttpMethod, NameValuePair, RouteConfig};

fn pair(name: &str, value: &str) -> NameValuePair {
    NameValuePair { name: name.to_string(), value: value.to_string() }
}

fn plain_route(path: &str, url: &str, method: Option<HttpMethod>) -> RouteConfig {
    RouteConfig {
        path: path.to_string(),
        url: url.to_string(),
        query: None,
        headers: None,
        method,
        target_method: None,
        default_body: None,
    }
}

#[test]
fn endpoint_key_holds_path_and_method() {
    let key = EndpointKey::new("/foo", "get");
    assert_eq!(key.path, "/foo");
    assert_eq!(key.method, "get");
    assert!(key.same_as(&EndpointKey::new("/foo", "get")));
    assert!(!key.same_as(&EndpointKey::new("/foo", "post")));
    assert!(!key.same_as(&EndpointKey::new("/fo", "get")));
}

#[test]
fn registered_route_is_found_by_path_and_method() {
    let config = EndpointConfigFile {
        proxy_urls: vec![plain_route("/foo", "http://upstream/foo", Some(HttpMethod::Get))],
    };
    let table = RouteTable::from_config(config);
    let found = table.lookup("/foo", HttpMethod::Get);
    assert_eq!(found.map(|item| item.url.as_str()), Some("http://upstream/foo"));
}

#[test]
fn other_method_on_a_known_path_is_not_found() {
    let config = EndpointConfigFile {
        proxy_urls: vec![plain_route("/foo", "http://upstream/foo", Some(HttpMethod::Get))],
    };
    let table = RouteTable::from_config(config);
    assert!(table.lookup("/foo", HttpMethod::Post).is_none());
}

#[test]
fn lookup_matches_the_exact_path_only() {
    let config = EndpointConfigFile {
        proxy_urls: vec![plain_route("/foo", "http://upstream/foo", None)],
    };
    let table = RouteTable::from_config(config);
    assert!(table.lookup("/foo/", HttpMethod::Get).is_none());
    assert!(table.lookup("/fo", HttpMethod::Get).is_none());
    assert!(table.lookup("/foo/bar", HttpMethod::Get).is_none());
    assert!(table.lookup("/FOO", HttpMethod::Get).is_none());
    assert!(table.lookup("/foo", HttpMethod::Get).is_some());
}

#[test]
fn route_without_method_answers_on_get() {
    let config = EndpointConfigFile {
        proxy_urls: vec![plain_route("/a", "http://upstream/a", None)],
    };
    let table = RouteTable::from_config(config);
    assert!(table.lookup("/a", HttpMethod::Get).is_some());
    assert!(table.get(&EndpointKey::new("/a", "get")).is_some());
    assert!(table.get(&EndpointKey::new("/a", "GET")).is_none());
}

#[test]
fn later_route_replaces_earlier_with_the_same_key() {
    let config = EndpointConfigFile {
        proxy_urls: vec![
            plain_route("/dup", "http://first/", Some(HttpMethod::Post)),
            plain_route("/other", "http://other/", Some(HttpMethod::Post)),
            plain_route("/dup", "http://second/", Some(HttpMethod::Post)),
        ],
    };
    let table = RouteTable::from_config(config);
    assert_eq!(table.lookup("/dup", HttpMethod::Post).map(|i| i.url.as_str()), Some("http://second/"));
    assert_eq!(table.lookup("/other", HttpMethod::Post).map(|i| i.url.as_str()), Some("http://other/"));
}

#[test]
fn same_path_with_two_methods_gives_two_routes() {
    let config = EndpointConfigFile {
        proxy_urls: vec![
            plain_route("/r", "http://get/", Some(HttpMethod::Get)),
            plain_route("/r", "http://put/", Some(HttpMethod::Put)),
        ],
    };
    let table = RouteTable::from_config(config);
    assert_eq!(table.lookup("/r", HttpMethod::Get).map(|i| i.url.as_str()), Some("http://get/"));
    assert_eq!(table.lookup("/r", HttpMethod::Put).map(|i| i.url.as_str()), Some("http://put/"));
    assert!(table.lookup("/r", HttpMethod::Delete).is_none());
}

#[test]
fn empty_table_finds_nothing() {
    let table = RouteTable::new();
    assert!(table.lookup("/", HttpMethod::Get).is_none());
    let built = RouteTable::from_config(EndpointConfigFile { proxy_urls: vec![] });
    assert!(built.lookup("/", HttpMethod::Get).is_none());
}

#[test]
fn insert_replaces_and_keeps_the_rest() {
    let mut table = RouteTable::new();
    table.insert(EndpointKey::new("/a", "get"), ProxyItem::new("http://one/"));
    table.insert(EndpointKey::new("/b", "get"), ProxyItem::new("http://two/"));
    table.insert(EndpointKey::new("/a", "get"), ProxyItem::new("http://three/"));
    assert_eq!(table.get(&EndpointKey::new("/a", "get")).map(|i| i.url.as_str()), Some("http://three/"));
    assert_eq!(table.get(&EndpointKey::new("/b", "get")).map(|i| i.url.as_str()), Some("http://two/"));
}

#[test]
fn route_is_resolved_when_the_table_is_built() {
    let config = EndpointConfigFile {
        proxy_urls: vec![RouteConfig {
            path: "/full".to_string(),
            url: "http://upstream/full".to_string(),
            query: Some(vec![pair("a", "1"), pair("b", "2")]),
            headers: Some(vec![pair("X-Api-Key", "secret"), pair("bad name", "v"), pair("Accept", "*/*")]),
            method: Some(HttpMethod::Get),
            target_method: Some(HttpMethod::Post),
            default_body: Some("{}".to_string()),
        }],
    };
    let table = RouteTable::from_config(config);
    let item = table.lookup("/full", HttpMethod::Get).expect("the route answers on its inbound method");
    assert!(table.lookup("/full", HttpMethod::Post).is_none());
    assert_eq!(item.method, HttpMethod::Post);
    assert_eq!(item.url, "http://upstream/full");
    assert_eq!(item.query_params, vec![pair("a", "1"), pair("b", "2")]);
    assert_eq!(
        item.headers,
        vec![
            Header { name: "x-api-key".to_string(), value: "secret".to_string() },
            Header { name: "accept".to_string(), value: "*/*".to_string() },
        ]
    );
    assert_eq!(item.default_body, b"{}".to_vec());
}
