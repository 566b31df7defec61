use stealth_fetch::browser::default_headers;
use stealth_fetch::headers::{effective_headers, HeaderMap};

#[test]
fn empty_map_has_nothing() {
    let h = HeaderMap::new();
    assert!(h.get("accept").is_none());
}

#[test]
fn set_then_get() {
    let mut h = HeaderMap::new();
    h.set("accept", "*/*");
    assert_eq!(h.get("accept").as_deref(), Some("*/*"));
    assert!(h.get("accept-language").is_none());
}

#[test]
fn later_set_replaces_earlier() {
    let mut h = HeaderMap::new();
    h.set("accept-language", "zh-CN");
    h.set("accept-language", "fr-FR");
    assert_eq!(h.get("accept-language").as_deref(), Some("fr-FR"));
}

#[test]
fn default_set_values() {
    let d = default_headers();
    assert_eq!(d.get("accept").as_deref(), Some("*/*"));
    assert_eq!(d.get("accept-encoding").as_deref(), Some("gzip, deflate, br, zstd"));
    assert_eq!(
        d.get("accept-language").as_deref(),
        Some("zh-CN,zh;q=0.9,en;q=0.8,en-GB;q=0.7,en-US;q=0.6")
    );
    assert_eq!(d.get("connection").as_deref(), Some("keep-alive"));
    assert_eq!(d.get("sec-ch-ua-mobile").as_deref(), Some("?0"));
    assert_eq!(d.get("sec-ch-ua-platform").as_deref(), Some("\"Windows\""));
    assert_eq!(d.get("sec-fetch-dest").as_deref(), Some("empty"));
    assert_eq!(d.get("sec-fetch-mode").as_deref(), Some("cors"));
    assert_eq!(d.get("sec-fetch-site").as_deref(), Some("cross-site"));
    assert_eq!(
        d.get("user-agent").as_deref(),
        Some(
            "Mozilla/5.0 (Windows NT 10.0; Win64; x64) AppleWebKit/537.36 (KHTML, like Gecko) Chrome/135.0.0.0 Safari/537.36 Edg/135.0.0.0"
        )
    );
    assert!(d.get("cookie").is_none());
}

#[test]
fn override_replaces_defaults_for_one_call() {
    let defaults = default_headers();
    let mut over = HeaderMap::new();
    over.set("accept-language", "fr-FR");
    let supplied = Some(over);

    // With an override the applied set is the override, exactly: the
    // default user-agent is not merged in.
    let applied = effective_headers(&defaults, &supplied);
    assert_eq!(applied.get("accept-language").as_deref(), Some("fr-FR"));
    assert!(applied.get("user-agent").is_none());

    // A later call without an override applies the untouched defaults.
    let applied_next = effective_headers(&defaults, &None);
    assert_eq!(
        applied_next.get("accept-language").as_deref(),
        Some("zh-CN,zh;q=0.9,en;q=0.8,en-GB;q=0.7,en-US;q=0.6")
    );
    assert!(applied_next.get("user-agent").is_some());
}

#[test]
fn empty_override_hides_every_default() {
    let defaults = default_headers();
    let supplied = Some(HeaderMap::new());
    let applied = effective_headers(&defaults, &supplied);
    assert!(applied.get("accept").is_none());
    assert!(applied.get("user-agent").is_none());
}
