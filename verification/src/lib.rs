//! A browser for locally cached Blender builds and the daily builds that a
//! remote index offers: the artifact model, the download progress tracker and
//! the state machine behind the terminal interface.

use vstd::prelude::*;

pub mod blender_utils;
pub mod config;
pub mod getter;
pub mod text;
pub mod tracker;
pub mod tui;

verus! {

/// One downloadable build: what its name says of it, and where it comes from.
#[derive(Debug)]
pub struct BlenderVersion {
    pub version: String,
    pub release: String,
    pub branch: String,
    pub os: String,
    pub link: String,
}

/// The mathematical value of a `BlenderVersion`.
#[verifier::ext_equal]
pub struct VersionView {
    pub version: Seq<char>,
    pub release: Seq<char>,
    pub branch: Seq<char>,
    pub os: Seq<char>,
    pub link: Seq<char>,
}

impl View for BlenderVersion {
    type V = VersionView;

    open spec fn view(&self) -> VersionView {
        VersionView {
            version: self.version@,
            release: self.release@,
            branch: self.branch@,
            os: self.os@,
            link: self.link@,
        }
    }
}

impl Clone for BlenderVersion {
    fn clone(&self) -> (r: Self)
        ensures
            r@ == self@,
    {
        BlenderVersion {
            version: self.version.clone(),
            release: self.release.clone(),
            branch: self.branch.clone(),
            os: self.os.clone(),
            link: self.link.clone(),
        }
    }
}

/// A build that is present in the local storage directory.
#[derive(Debug)]
pub struct LocalBlenderVersion {
    pub blender_version: BlenderVersion,
    /// How long ago the directory was created, in words.
    pub created: String,
}

/// The mathematical value of a `LocalBlenderVersion`.
#[verifier::ext_equal]
pub struct LocalView {
    pub blender_version: VersionView,
    pub created: Seq<char>,
}

impl View for LocalBlenderVersion {
    type V = LocalView;

    open spec fn view(&self) -> LocalView {
        LocalView { blender_version: self.blender_version@, created: self.created@ }
    }
}

impl Clone for LocalBlenderVersion {
    fn clone(&self) -> (r: Self)
        ensures
            r@ == self@,
    {
        LocalBlenderVersion {
            blender_version: self.blender_version.clone(),
            created: self.created.clone(),
        }
    }
}

/// The values of a list of builds, in order.
pub open spec fn version_views(list: Seq<BlenderVersion>) -> Seq<VersionView> {
    list.map_values(|v: BlenderVersion| v@)
}

/// The values of a list of local builds, in order.
pub open spec fn local_views(list: Seq<LocalBlenderVersion>) -> Seq<LocalView> {
    list.map_values(|v: LocalBlenderVersion| v@)
}

} // verus!
