use runnable_plugins::context::RequestContext;

#[test]
fn empty_context_has_nothing() {
    let ctx = RequestContext::new();
    assert_eq!(ctx.header("message"), None);
    assert_eq!(ctx.url_param("key"), None);
}

#[test]
fn headers_and_params_are_separate() {
    let ctx = RequestContext::new().with_header("a", "1").with_url_param("b", "2");
    assert_eq!(ctx.header("a"), Some("1".to_string()));
    assert_eq!(ctx.header("b"), None);
    assert_eq!(ctx.url_param("b"), Some("2".to_string()));
    assert_eq!(ctx.url_param("a"), None);
}

#[test]
fn later_binding_wins() {
    let ctx = RequestContext::new()
        .with_header("x", "first")
        .with_header("y", "other")
        .with_header("x", "second");
    assert_eq!(ctx.header("x"), Some("second".to_string()));
    assert_eq!(ctx.header("y"), Some("other".to_string()));
}

#[test]
fn lookup_is_exact_on_names() {
    let ctx = RequestContext::new().with_url_param("key", "v");
    assert_eq!(ctx.url_param("Key"), None);
    assert_eq!(ctx.url_param("ke"), None);
    assert_eq!(ctx.url_param("key "), None);
}
