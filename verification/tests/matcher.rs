use downloader::blender_utils::{
    filter_latest, from_extracted_groups, from_main_groups, links_from_hrefs, select,
    BlenderMatcher, ADDRESS_MISSING, SELECTOR_REFUSED,
};
use downloader::tui::app::widgets::files::utils::parse_downloaded;
use downloader::BlenderVersion;

fn build(version: &str, release: &str, link: &str) -> BlenderVersion {
    BlenderVersion {
        version: version.to_string(),
        release: release.to_string(),
        branch: "main".to_string(),
        os: "linux".to_string(),
        link: link.to_string(),
    }
}

#[test]
fn a_daily_build_name_gives_all_four_parts() {
    let matcher = BlenderMatcher::new();
    let version = matcher
        .match_str("blender-4.3.0-beta+main.d2a7a9a1a6c0-linux.x86_64-release.tar.xz")
        .unwrap();
    assert_eq!(version.version, "4.3.0");
    assert_eq!(version.release, "beta");
    assert_eq!(version.branch, "main.d2a7a9a1a6c0");
    assert_eq!(version.os, "linux.x86_64");
    assert_eq!(version.link, "");
}

#[test]
fn a_link_is_matched_like_a_name() {
    let matcher = BlenderMatcher::new();
    let version = matcher
        .match_str(
            "https://builder.blender.org/download/daily/blender-4.2.12-candidate+v42.abc-linux.x86_64-release.tar.xz",
        )
        .unwrap();
    assert_eq!(version.version, "4.2.12");
    assert_eq!(version.release, "candidate");
    assert_eq!(version.branch, "v42.abc");
    assert_eq!(version.os, "linux.x86_64");
}

#[test]
fn an_unpacked_release_is_stable() {
    let matcher = BlenderMatcher::new();
    let version = matcher.match_str("blender-4.2.1-linux-x64").unwrap();
    assert_eq!(version.version, "4.2.1");
    assert_eq!(version.release, "stable");
    assert_eq!(version.branch, "");
    assert_eq!(version.os, "linux-x64");
    assert_eq!(version.link, "");
}

#[test]
fn other_names_are_no_builds() {
    let matcher = BlenderMatcher::new();
    assert!(matcher.match_str("").is_none());
    assert!(matcher.match_str("blender").is_none());
    assert!(matcher.match_str("krita-5.2.0-linux").is_none());
    assert!(matcher.match_str("blender-4.2-linux").is_none());
}

#[test]
fn groups_of_the_first_pattern() {
    let groups = vec![
        Some("whole".to_string()),
        Some("4.3.0".to_string()),
        Some("alpha".to_string()),
        Some("main".to_string()),
        Some("linux".to_string()),
    ];
    let version = from_main_groups(&groups).unwrap();
    assert_eq!(version.version, "4.3.0");
    assert_eq!(version.release, "alpha");
    assert_eq!(version.branch, "main");
    assert_eq!(version.os, "linux");
    assert_eq!(version.link, "");
    let mut missing = groups.clone();
    missing[3] = None;
    assert!(from_main_groups(&missing).is_none());
    assert!(from_main_groups(&groups[..4].to_vec()).is_none());
    assert!(from_main_groups(&Vec::new()).is_none());
}

#[test]
fn groups_of_the_second_pattern() {
    let groups =
        vec![Some("whole".to_string()), Some("4.2.1".to_string()), Some("linux".to_string())];
    let version = from_extracted_groups(&groups).unwrap();
    assert_eq!(version.version, "4.2.1");
    assert_eq!(version.release, "stable");
    assert_eq!(version.branch, "");
    assert_eq!(version.os, "linux");
    assert!(from_extracted_groups(&vec![Some("w".to_string()), None, Some("x".to_string())])
        .is_none());
    assert!(from_extracted_groups(&groups[..2].to_vec()).is_none());
}

#[test]
fn the_latest_of_each_version_is_kept() {
    let kept = filter_latest(vec![
        build("4.2.0", "beta", "a"),
        build("4.2.0", "stable", "b"),
        build("4.3.0", "alpha", "c"),
        build("4.3.0", "alpha", "d"),
        build("4.1.0", "stable", "e"),
    ]);
    let links: Vec<&str> = kept.iter().map(|v| v.link.as_str()).collect();
    assert_eq!(links, vec!["d", "b", "e"]);
}

#[test]
fn a_stable_release_does_not_drop_what_follows_it() {
    let kept = filter_latest(vec![build("4.2.0", "stable", "s"), build("4.2.0", "beta", "t")]);
    let mut links: Vec<&str> = kept.iter().map(|v| v.link.as_str()).collect();
    links.sort();
    assert_eq!(links, vec!["s", "t"]);
}

#[test]
fn versions_are_ordered_as_words() {
    let kept = filter_latest(vec![
        build("4.2.0", "stable", "a"),
        build("4.10.0", "stable", "b"),
        build("4.3.0", "stable", "c"),
    ]);
    let versions: Vec<&str> = kept.iter().map(|v| v.version.as_str()).collect();
    assert_eq!(versions, vec!["4.3.0", "4.2.0", "4.10.0"]);
    assert!(filter_latest(Vec::new()).is_empty());
}

const PAGE: &str = r#"<html><body>
<div data-platform="windows"><ul>
  <li><a href="https://builder.blender.org/download/daily/blender-4.3.0-beta+main.aaa-windows.amd64-release.zip">win</a></li>
</ul></div>
<div data-platform="linux"><ul>
  <li><a href="https://builder.blender.org/download/daily/blender-4.2.1-candidate+v42.bbb-linux.x86_64-release.tar.xz">one</a><a href="https://builder.blender.org/download/daily/blender-4.2.1-candidate+v42.bbb-linux.x86_64-release.tar.xz.sha256">sum</a></li>
  <li><a href="https://builder.blender.org/download/daily/blender-4.3.0-beta+main.ccc-linux.x86_64-release.tar.xz">two</a></li>
  <li style="display:none;"><a href="https://builder.blender.org/download/daily/blender-4.4.0-alpha+main.ddd-linux.x86_64-release.tar.xz">hidden</a></li>
  <li><a href="https://builder.blender.org/download/daily/blender-4.3.0-beta+main.eee-linux.x86_64-release.tar.xz">three</a></li>
  <li><a href="https://www.blender.org/about/">about</a></li>
</ul></div>
</body></html>"#;

#[test]
fn the_linux_builds_of_a_page() {
    let links = select(PAGE.to_string()).unwrap();
    assert_eq!(links.len(), 2);
    assert_eq!(links[0].version, "4.3.0");
    assert_eq!(links[0].release, "beta");
    assert_eq!(links[0].branch, "main.eee");
    assert_eq!(links[0].os, "linux.x86_64");
    assert_eq!(
        links[0].link,
        "https://builder.blender.org/download/daily/blender-4.3.0-beta+main.eee-linux.x86_64-release.tar.xz"
    );
    assert_eq!(links[1].version, "4.2.1");
    assert_eq!(links[1].release, "candidate");
    assert_eq!(
        links[1].link,
        "https://builder.blender.org/download/daily/blender-4.2.1-candidate+v42.bbb-linux.x86_64-release.tar.xz"
    );
}

#[test]
fn a_page_without_builds_gives_none() {
    assert!(select("<html><body><p>nothing here</p></body></html>".to_string())
        .unwrap()
        .is_empty());
    assert!(select(String::new()).unwrap().is_empty());
}

#[test]
fn a_link_without_address_is_an_error() {
    let page = r#"<div data-platform="linux"><ul><li><a>nowhere</a></li></ul></div>"#;
    assert_eq!(select(page.to_string()).unwrap_err(), ADDRESS_MISSING);
}

#[test]
fn builds_from_selected_addresses() {
    let links = links_from_hrefs(Some(vec![
        Some("daily/blender-4.2.0-beta+main.a-linux-release.tar.xz".to_string()),
        Some("not a build".to_string()),
        Some("daily/blender-4.2.0-stable+main.b-linux-release.tar.xz".to_string()),
    ]))
    .unwrap();
    assert_eq!(links.len(), 1);
    assert_eq!(links[0].release, "stable");
    assert_eq!(links[0].link, "daily/blender-4.2.0-stable+main.b-linux-release.tar.xz");
    assert_eq!(links_from_hrefs(None).unwrap_err(), SELECTOR_REFUSED);
    assert_eq!(
        links_from_hrefs(Some(vec![Some("x".to_string()), None])).unwrap_err(),
        ADDRESS_MISSING
    );
    assert!(links_from_hrefs(Some(Vec::new())).unwrap().is_empty());
}

#[test]
fn two_folders_give_two_local_builds() {
    let found = parse_downloaded(vec![
        ("blender-4.2.1-linux-x64".to_string(), 3 * 86400),
        ("notes".to_string(), 10),
        ("blender-4.3.0-beta+main.d2a7a9a1a6c0-linux.x86_64-release".to_string(), 7200),
    ]);
    let mut seen: Vec<(String, String, String)> = found
        .iter()
        .map(|local| {
            (
                local.blender_version.version.clone(),
                local.blender_version.release.clone(),
                local.created.clone(),
            )
        })
        .collect();
    seen.sort();
    assert_eq!(
        seen,
        vec![
            ("4.2.1".to_string(), "stable".to_string(), "3 days ago".to_string()),
            ("4.3.0".to_string(), "beta".to_string(), "2 hours ago".to_string()),
        ]
    );
    assert!(parse_downloaded(Vec::new()).is_empty());
}
