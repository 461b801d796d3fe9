use route_proxy::route_config::{HttpMethod, RouteConfig};

fn route(method: Option<HttpMethod>, target: Option<HttpMethod>) -> RouteConfig {
    RouteConfig {
        path: "/x".to_string(),
        url: "http://upstream/x".to_string(),
        query: None,
        headers: None,
        method,
        target_method: target,
        default_body: None,
    }
}

#[test]
fn method_names_are_lower_case() {
    assert_eq!(HttpMethod::Get.as_str(), "get");
    assert_eq!(HttpMethod::Post.as_str(), "post");
    assert_eq!(HttpMethod::Put.as_str(), "put");
    assert_eq!(HttpMethod::Delete.as_str(), "delete");
    assert_eq!(HttpMethod::Head.as_str(), "head");
    assert_eq!(HttpMethod::Patch.as_str(), "patch");
    assert_eq!(HttpMethod::Patch.to_string(), "patch".to_string());
}

#[test]
fn method_is_read_from_its_name() {
    assert_eq!(HttpMethod::try_from("get"), Ok(HttpMethod::Get));
    assert_eq!(HttpMethod::try_from("post"), Ok(HttpMethod::Post));
    assert_eq!(HttpMethod::try_from("put"), Ok(HttpMethod::Put));
    assert_eq!(HttpMethod::try_from("delete"), Ok(HttpMethod::Delete));
    assert_eq!(HttpMethod::try_from("head"), Ok(HttpMethod::Head));
    assert_eq!(HttpMethod::try_from("patch"), Ok(HttpMethod::Patch));
}

#[test]
fn method_name_ignores_letter_case() {
    assert_eq!(HttpMethod::try_from("GET"), Ok(HttpMethod::Get));
    assert_eq!(HttpMethod::try_from("PoSt"), Ok(HttpMethod::Post));
    assert_eq!(HttpMethod::try_from("DELETE"), Ok(HttpMethod::Delete));
}

#[test]
fn unknown_method_name_is_refused() {
    assert_eq!(HttpMethod::try_from(""), Err(()));
    assert_eq!(HttpMethod::try_from("options"), Err(()));
    assert_eq!(HttpMethod::try_from("get "), Err(()));
    assert_eq!(HttpMethod::try_from("ge"), Err(()));
    assert_eq!(HttpMethod::try_from("gét"), Err(()));
}

#[test]
fn every_method_round_trips_through_its_name() {
    for m in [
        HttpMethod::Get,
        HttpMethod::Post,
        HttpMethod::Put,
        HttpMethod::Delete,
        HttpMethod::Head,
        HttpMethod::Patch,
    ] {
        assert_eq!(HttpMethod::try_from(m.as_str()), Ok(m));
    }
}

#[test]
fn default_method_is_get() {
    assert_eq!(HttpMethod::default(), HttpMethod::Get);
}

#[test]
fn inbound_method_defaults_to_get() {
    assert_eq!(route(None, None).inbound_method(), HttpMethod::Get);
    assert_eq!(route(Some(HttpMethod::Put), None).inbound_method(), HttpMethod::Put);
}

#[test]
fn outbound_method_falls_back_to_inbound() {
    assert_eq!(route(None, None).outbound_method(), HttpMethod::Get);
    assert_eq!(route(Some(HttpMethod::Delete), None).outbound_method(), HttpMethod::Delete);
}

#[test]
fn target_method_takes_precedence() {
    assert_eq!(
        route(Some(HttpMethod::Get), Some(HttpMethod::Post)).outbound_method(),
        HttpMethod::Post
    );
    assert_eq!(route(None, Some(HttpMethod::Patch)).outbound_method(), HttpMethod::Patch);
    assert_eq!(
        route(Some(HttpMethod::Get), Some(HttpMethod::Post)).inbound_method(),
        HttpMethod::Get
    );
}
