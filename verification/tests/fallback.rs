use site_config::Config;

fn doc(secret_line: &str) -> String {
    [
        "server: {listen: l, port: 1, host: h}",
        "content:",
        secret_line,
        "  wiki: {repository: r, path: p}",
        "  blog: {repository: r2, path: p2}",
        "contact: {}",
        "index: {}",
    ]
    .join("\n")
}

#[test]
fn absent_secret_takes_the_fallback_value() {
    let config = Config::from_str(&doc("  # no secret")).unwrap();
    assert_eq!(config.content.secret, None);
    let config = config.with_secret_fallback(Some("from-env".to_string()));
    assert_eq!(config.content.secret.as_deref(), Some("from-env"));
}

#[test]
fn absent_secret_and_absent_fallback_still_load() {
    let config = Config::from_str(&doc("  # no secret")).unwrap();
    let config = config.with_secret_fallback(None);
    assert_eq!(config.content.secret, None);
    assert_eq!(config.server.host, "h");
    assert_eq!(config.content.wiki.repository, "r");
}

#[test]
fn document_secret_takes_precedence_over_fallback() {
    let config = Config::from_str(&doc("  secret: from-file")).unwrap();
    let config = config.with_secret_fallback(Some("from-env".to_string()));
    assert_eq!(config.content.secret.as_deref(), Some("from-file"));
}

#[test]
fn null_secret_counts_as_absent_for_the_fallback() {
    let config = Config::from_str(&doc("  secret:")).unwrap();
    let config = config.with_secret_fallback(Some("from-env".to_string()));
    assert_eq!(config.content.secret.as_deref(), Some("from-env"));
}

#[test]
fn fallback_touches_nothing_but_the_secret() {
    let before = Config::from_str(&doc("  # no secret")).unwrap();
    let after = Config::from_str(&doc("  # no secret"))
        .unwrap()
        .with_secret_fallback(Some("s".to_string()));
    assert_eq!(before.server.listen, after.server.listen);
    assert_eq!(before.server.port, after.server.port);
    assert_eq!(before.server.host, after.server.host);
    assert_eq!(before.content.wiki.repository, after.content.wiki.repository);
    assert_eq!(before.content.wiki.path, after.content.wiki.path);
    assert_eq!(before.content.blog.repository, after.content.blog.repository);
    assert_eq!(before.content.blog.path, after.content.blog.path);
    assert_eq!(before.contact.mail, after.contact.mail);
    assert_eq!(before.index.slogan, after.index.slogan);
}
