#[test]
fn asset_requests_redirect_without_query() {
    let r = giga721::http::http_request("/token/12.png?size=2");
    assert_eq!(r.status_code, 302);
    assert_eq!(r.headers[1].0, "Location");
    assert_eq!(r.headers[1].1, "https://cache.icpunks.com/metachess//token/12.png");
    let plain = giga721::http::http_request("a.png");
    assert_eq!(plain.headers[1].1, "https://cache.icpunks.com/metachess/a.png");
    assert!(plain.body.is_empty());
}
