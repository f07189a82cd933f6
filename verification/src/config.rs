//! The user's configuration and the index address that follows from it.

use vstd::prelude::*;

verus! {

/// The address of the index of daily builds.
pub const DAILY_LINK: &'static str = "https://builder.blender.org/download/daily/";

/// The address of the index of archived daily builds.
pub const ARCHIVE_LINK: &'static str = "https://builder.blender.org/download/daily/archive/";

/// What the user configured: the versions of interest, the storage directory,
/// whether to read the archive index, and the index address derived from that.
#[derive(Debug)]
pub struct Config {
    pub versions: Vec<String>,
    pub path: String,
    pub archive: Option<bool>,
    pub link: String,
}

/// The mathematical value of a `Config`.
#[verifier::ext_equal]
pub struct ConfigView {
    pub versions: Seq<Seq<char>>,
    pub path: Seq<char>,
    pub archive: Option<bool>,
    pub link: Seq<char>,
}

impl View for Config {
    type V = ConfigView;

    open spec fn view(&self) -> ConfigView {
        ConfigView {
            versions: self.versions@.map_values(|s: String| s@),
            path: self.path@,
            archive: self.archive,
            link: self.link@,
        }
    }
}

impl Default for Config {
    fn default() -> (r: Self)
        ensures
            r@ =~= (ConfigView {
                versions: Seq::empty(),
                path: Seq::empty(),
                archive: None,
                link: Seq::empty(),
            }),
    {
        Config { versions: Vec::new(), path: String::new(), archive: None, link: String::new() }
    }
}

impl Clone for Config {
    fn clone(&self) -> (r: Self)
        ensures
            r@ =~= self@,
    {
        let mut versions: Vec<String> = Vec::new();
        let mut i: usize = 0;
        while i < self.versions.len()
            invariant
                i <= self.versions.len(),
                versions.len() == i,
                forall|k: int| 0 <= k < i ==> versions@[k]@ == self.versions@[k]@,
            decreases self.versions.len() - i,
        {
            versions.push(self.versions[i].clone());
            i += 1;
        }
        Config {
            versions,
            path: self.path.clone(),
            archive: self.archive,
            link: self.link.clone(),
        }
    }
}

/// The index address for a setting of `archive`: the archive index when it is
/// switched on, the index of current daily builds otherwise.
pub open spec fn source_link_of(archive: Option<bool>) -> Seq<char> {
    if archive == Some(true) {
        ARCHIVE_LINK@
    } else {
        DAILY_LINK@
    }
}

/// The index address for a setting of `archive`.
pub fn source_link(archive: Option<bool>) -> (link: String)
    ensures
        link@ == source_link_of(archive),
{
    match archive {
        Some(true) => ARCHIVE_LINK.to_owned(),
        _ => DAILY_LINK.to_owned(),
    }
}

/// Completes a configuration as read from its file: whatever `link` held, it
/// becomes the index address that `archive` selects.
pub fn resolve_link(config: Config) -> (r: Config)
    ensures
        r@ =~= (ConfigView { link: source_link_of(config.archive), ..config@ }),
{
    let link = source_link(config.archive);
    Config { versions: config.versions, path: config.path, archive: config.archive, link }
}

} // verus!
