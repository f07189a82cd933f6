use downloader::config::{resolve_link, source_link, Config, ARCHIVE_LINK, DAILY_LINK};

#[test]
fn default_config_is_empty() {
    let config = Config::default();
    assert!(config.versions.is_empty());
    assert_eq!(config.path, "");
    assert_eq!(config.archive, None);
    assert_eq!(config.link, "");
}

#[test]
fn the_archive_flag_selects_the_index() {
    assert_eq!(source_link(None), "https://builder.blender.org/download/daily/");
    assert_eq!(source_link(Some(false)), DAILY_LINK);
    assert_eq!(source_link(Some(true)), "https://builder.blender.org/download/daily/archive/");
    assert_eq!(source_link(Some(true)), ARCHIVE_LINK);
}

#[test]
fn resolving_overwrites_the_link_only() {
    let config = Config {
        versions: vec!["4.2".to_string(), "4.3".to_string()],
        path: "/tmp/blender".to_string(),
        archive: Some(true),
        link: "left over".to_string(),
    };
    let resolved = resolve_link(config);
    assert_eq!(resolved.versions, vec!["4.2".to_string(), "4.3".to_string()]);
    assert_eq!(resolved.path, "/tmp/blender");
    assert_eq!(resolved.archive, Some(true));
    assert_eq!(resolved.link, ARCHIVE_LINK);
    let plain = resolve_link(Config::default());
    assert_eq!(plain.link, DAILY_LINK);
}

#[test]
fn a_clone_holds_the_same_values() {
    let config = Config {
        versions: vec!["4.2".to_string()],
        path: "p".to_string(),
        archive: Some(false),
        link: "l".to_string(),
    };
    let copy = config.clone();
    assert_eq!(copy.versions, config.versions);
    assert_eq!(copy.path, config.path);
    assert_eq!(copy.archive, config.archive);
    assert_eq!(copy.link, config.link);
}
