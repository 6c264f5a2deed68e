use site_config::{Config, Yaml};

fn full_doc() -> String {
    [
        "server:",
        "  listen: 0.0.0.0",
        "  port: 8080",
        "  host: example.org",
        "content:",
        "  secret: hunter2",
        "  wiki:",
        "    repository: https://example.org/wiki.git",
        "    path: /var/lib/wiki",
        "  blog:",
        "    repository: https://example.org/blog.git",
        "    path: /var/lib/blog",
        "contact:",
        "  mail: me@example.org",
        "  matrix: \"@me:example.org\"",
        "  threema: ABCDEFGH",
        "index:",
        "  slogan: hello there",
        "  title: my site",
        "  skills:",
        "    - rust",
        "    - yaml",
        "  links:",
        "    - https://example.org",
    ]
    .join("\n")
}

#[test]
fn loads_full_document_faithfully() {
    let config = Config::from_str(&full_doc()).unwrap();
    assert_eq!(config.server.listen, "0.0.0.0");
    assert_eq!(config.server.port, 8080);
    assert_eq!(config.server.host, "example.org");
    assert_eq!(config.content.secret.as_deref(), Some("hunter2"));
    assert_eq!(config.content.wiki.repository, "https://example.org/wiki.git");
    assert_eq!(config.content.wiki.path, "/var/lib/wiki");
    assert_eq!(config.content.blog.repository, "https://example.org/blog.git");
    assert_eq!(config.content.blog.path, "/var/lib/blog");
    assert_eq!(config.contact.mail.as_deref(), Some("me@example.org"));
    assert_eq!(config.contact.matrix.as_deref(), Some("@me:example.org"));
    assert_eq!(config.contact.threema.as_deref(), Some("ABCDEFGH"));
    assert_eq!(config.index.slogan.as_deref(), Some("hello there"));
    assert_eq!(config.index.title.as_deref(), Some("my site"));
    assert_eq!(
        config.index.skills,
        Some(vec!["rust".to_string(), "yaml".to_string()])
    );
    assert_eq!(config.index.links, Some(vec!["https://example.org".to_string()]));
}

fn doc_without(line_prefix: &str) -> String {
    full_doc()
        .lines()
        .filter(|l| !l.trim_start().starts_with(line_prefix))
        .collect::<Vec<_>>()
        .join("\n")
}

#[test]
fn missing_port_is_a_parse_error() {
    let err = Config::from_str(&doc_without("port:")).unwrap_err();
    assert!(err.message.contains("server"));
}

#[test]
fn missing_listen_is_a_parse_error() {
    assert!(Config::from_str(&doc_without("listen:")).is_err());
}

#[test]
fn missing_server_section_is_a_parse_error() {
    let text = full_doc().replace("server:", "servers:");
    let err = Config::from_str(&text).unwrap_err();
    assert!(err.message.contains("server"));
}

#[test]
fn missing_wiki_repository_is_a_parse_error() {
    assert!(Config::from_str(&doc_without("repository: https://example.org/wiki")).is_err());
}

#[test]
fn mistyped_port_is_a_parse_error() {
    let text = full_doc().replace("port: 8080", "port: eighty-eighty");
    assert!(Config::from_str(&text).is_err());
}

#[test]
fn out_of_range_port_is_a_parse_error() {
    let text = full_doc().replace("port: 8080", "port: 70000");
    assert!(Config::from_str(&text).is_err());
    let text = full_doc().replace("port: 8080", "port: -1");
    assert!(Config::from_str(&text).is_err());
}

#[test]
fn boundary_port_values_load() {
    let text = full_doc().replace("port: 8080", "port: 0");
    assert_eq!(Config::from_str(&text).unwrap().server.port, 0);
    let text = full_doc().replace("port: 8080", "port: 65535");
    assert_eq!(Config::from_str(&text).unwrap().server.port, 65535);
}

#[test]
fn mistyped_secret_is_a_parse_error() {
    let text = full_doc().replace("secret: hunter2", "secret: [a, b]");
    assert!(Config::from_str(&text).is_err());
}

#[test]
fn non_string_skill_is_a_parse_error() {
    let text = full_doc().replace("- rust", "- [not, a, string]");
    assert!(Config::from_str(&text).is_err());
}

#[test]
fn invalid_syntax_is_a_parse_error() {
    let err = Config::from_str("server: {listen: a, port: 1").unwrap_err();
    assert!(!err.message.is_empty());
}

#[test]
fn non_mapping_document_is_a_parse_error() {
    assert!(Config::from_str("just a scalar").is_err());
    assert!(Config::from_str("- a\n- b").is_err());
}

#[test]
fn empty_document_is_a_parse_error() {
    assert!(Config::from_str("").is_err());
}

#[test]
fn optional_fields_may_all_be_absent() {
    let text = [
        "server: {listen: l, port: 1, host: h}",
        "content:",
        "  wiki: {repository: r, path: p}",
        "  blog: {repository: r2, path: p2}",
        "contact: {}",
        "index: {}",
    ]
    .join("\n");
    let config = Config::from_str(&text).unwrap();
    assert_eq!(config.content.secret, None);
    assert_eq!(config.contact.mail, None);
    assert_eq!(config.contact.matrix, None);
    assert_eq!(config.contact.threema, None);
    assert_eq!(config.index.slogan, None);
    assert_eq!(config.index.title, None);
    assert_eq!(config.index.skills, None);
    assert_eq!(config.index.links, None);
}

#[test]
fn null_optional_fields_count_as_absent() {
    let text = full_doc()
        .replace("secret: hunter2", "secret:")
        .replace("mail: me@example.org", "mail: null");
    let config = Config::from_str(&text).unwrap();
    assert_eq!(config.content.secret, None);
    assert_eq!(config.contact.mail, None);
}

#[test]
fn unknown_keys_are_ignored() {
    let text = full_doc() + "\nextra: whatever";
    assert!(Config::from_str(&text).is_ok());
}

#[test]
fn from_yaml_accepts_a_hand_built_document() {
    let entry = |k: &str, v: Yaml| (Yaml::Str(k.to_string()), v);
    let s = |v: &str| Yaml::Str(v.to_string());
    let doc = Yaml::Mapping(vec![
        entry(
            "server",
            Yaml::Mapping(vec![
                entry("listen", s("l")),
                entry("port", Yaml::Int(80)),
                entry("host", s("h")),
            ]),
        ),
        entry(
            "content",
            Yaml::Mapping(vec![
                entry(
                    "wiki",
                    Yaml::Mapping(vec![entry("repository", s("r")), entry("path", s("p"))]),
                ),
                entry(
                    "blog",
                    Yaml::Mapping(vec![entry("repository", s("r2")), entry("path", s("p2"))]),
                ),
            ]),
        ),
        entry("contact", Yaml::Mapping(vec![])),
        entry("index", Yaml::Mapping(vec![])),
    ]);
    let config = Config::from_yaml(&doc).unwrap();
    assert_eq!(config.server.port, 80);
    assert_eq!(config.server.listen, "l");
    assert_eq!(config.content.wiki.repository, "r");
    assert_eq!(config.content.blog.path, "p2");
    assert_eq!(config.content.secret, None);
}

#[test]
fn from_yaml_rejects_a_non_mapping_root() {
    assert!(Config::from_yaml(&Yaml::Int(3)).is_err());
    assert!(Config::from_yaml(&Yaml::Null).is_err());
}
