use wasm_tools::network::{
    auth_from_lookup, classify_status, credential_server, packages_url, registry_base_url, status_error, Auth,
    CredentialLookup, StatusClass, TagPager, TagRequest,
};

#[test]
fn docker_hub_uses_its_v1_key() {
    assert_eq!(credential_server("index.docker.io"), "https://index.docker.io/v1/");
    assert_eq!(credential_server("ghcr.io"), "ghcr.io");
}

#[test]
fn credentials_map_to_auth() {
    assert!(matches!(
        auth_from_lookup(CredentialLookup::UsernamePassword("u".into(), "p".into())),
        Ok(Auth::Basic(u, p)) if u == "u" && p == "p"
    ));
    assert!(matches!(auth_from_lookup(CredentialLookup::Missing), Ok(Auth::Anonymous)));
    assert_eq!(auth_from_lookup(CredentialLookup::IdentityToken).unwrap_err(), "identity tokens not supported");
}

fn tags(list: &[&str]) -> Vec<String> {
    list.iter().map(|s| s.to_string()).collect()
}

#[test]
fn tag_listing_pages_until_the_probe_is_empty() {
    let mut pager = TagPager::new();
    assert!(matches!(pager.start(), TagRequest::Page(None)));
    let next = pager.on_page(Ok(tags(&["a", "b"])));
    assert!(matches!(&next, TagRequest::Probe(l) if l == "b"));
    let next = pager.on_probe(Ok(tags(&["c"])));
    assert!(matches!(&next, TagRequest::Page(Some(l)) if l == "b"));
    let next = pager.on_page(Ok(tags(&["c", "d"])));
    assert!(matches!(&next, TagRequest::Probe(l) if l == "d"));
    assert!(matches!(pager.on_probe(Ok(vec![])), TagRequest::Done));
    assert_eq!(pager.into_tags(), tags(&["a", "b", "c", "d"]));
}

#[test]
fn tag_listing_failure_keeps_what_was_gathered() {
    let mut pager = TagPager::new();
    assert!(matches!(pager.on_page(Err("null tags".into())), TagRequest::Done));
    assert!(pager.into_tags().is_empty());
    let mut pager = TagPager::new();
    pager.on_page(Ok(tags(&["a"])));
    assert!(matches!(pager.on_probe(Err("down".into())), TagRequest::Done));
    assert_eq!(pager.into_tags(), tags(&["a"]));
}

#[test]
fn registry_urls() {
    assert_eq!(registry_base_url("http://localhost:8080//"), "http://localhost:8080");
    assert_eq!(packages_url("http://localhost:8080"), "http://localhost:8080/v1/packages?limit=1000");
}

#[test]
fn statuses_are_classified() {
    assert_eq!(classify_status(304), StatusClass::NotModified);
    assert_eq!(classify_status(200), StatusClass::Success);
    assert_eq!(classify_status(503), StatusClass::ServerError);
    assert_eq!(classify_status(404), StatusClass::Unexpected);
    assert_eq!(
        status_error("http://r", StatusClass::ServerError, "503 Service Unavailable").as_deref(),
        Some("registry at http://r returned server error: 503 Service Unavailable")
    );
    assert_eq!(status_error("http://r", StatusClass::Success, "200 OK"), None);
}
