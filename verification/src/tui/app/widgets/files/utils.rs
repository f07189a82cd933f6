//! From a listing of the storage directory to the rows of the local panel.

use vstd::prelude::*;
use crate::blender_utils::{version_of_name, BlenderMatcher};
use crate::text::{decimal, decimal_string};
use crate::{local_views, LocalBlenderVersion, LocalView};

verus! {

pub const MINUTE: u64 = 60;

pub const HOUR: u64 = 3600;

pub const DAY: u64 = 86400;

pub const WEEK: u64 = 604800;

/// A month counts thirty days.
pub const MONTH: u64 = 2592000;

/// A year counts 365 days.
pub const YEAR: u64 = 31536000;

/// A count of units in words: "1 day ago", "3 days ago".
pub open spec fn ago(count: nat, one: Seq<char>, many: Seq<char>) -> Seq<char> {
    decimal(count) + " "@ + if count == 1 {
        one
    } else {
        many
    } + " ago"@
}

/// An age in seconds, in words: in the largest unit that it fills at least
/// once, rounded down; less than a minute is "just now".
pub open spec fn human_readable(secs: nat) -> Seq<char> {
    if secs < MINUTE {
        "just now"@
    } else if secs < HOUR {
        ago(secs / (MINUTE as nat), "minute"@, "minutes"@)
    } else if secs < DAY {
        ago(secs / (HOUR as nat), "hour"@, "hours"@)
    } else if secs < WEEK {
        ago(secs / (DAY as nat), "day"@, "days"@)
    } else if secs < MONTH {
        ago(secs / (WEEK as nat), "week"@, "weeks"@)
    } else if secs < YEAR {
        ago(secs / (MONTH as nat), "month"@, "months"@)
    } else {
        ago(secs / (YEAR as nat), "year"@, "years"@)
    }
}

fn ago_string(count: u64, one: &str, many: &str) -> (out: String)
    ensures
        out@ == ago(count as nat, one@, many@),
{
    let mut out = decimal_string(count as u128);
    out.append(" ");
    if count == 1 {
        out.append(one);
    } else {
        out.append(many);
    }
    out.append(" ago");
    out
}

/// An age in seconds, in words.
pub fn duration_to_human_readable(secs: u64) -> (out: String)
    ensures
        out@ == human_readable(secs as nat),
{
    if secs < MINUTE {
        "just now".to_owned()
    } else if secs < HOUR {
        ago_string(secs / MINUTE, "minute", "minutes")
    } else if secs < DAY {
        ago_string(secs / HOUR, "hour", "hours")
    } else if secs < WEEK {
        ago_string(secs / DAY, "day", "days")
    } else if secs < MONTH {
        ago_string(secs / WEEK, "week", "weeks")
    } else if secs < YEAR {
        ago_string(secs / MONTH, "month", "months")
    } else {
        ago_string(secs / YEAR, "year", "years")
    }
}

/// The values of a directory listing: each entry's name and its age in seconds.
pub open spec fn listing_view(downloaded: Seq<(String, u64)>) -> Seq<(Seq<char>, nat)> {
    downloaded.map_values(|entry: (String, u64)| (entry.0@, entry.1 as nat))
}

/// The local builds of a directory listing, in its order: one for each entry
/// whose name is that of a build, with the entry's age in words.
pub open spec fn local_builds(listing: Seq<(Seq<char>, nat)>) -> Seq<LocalView>
    decreases listing.len(),
{
    if listing.len() == 0 {
        Seq::empty()
    } else {
        let rest = local_builds(listing.drop_last());
        match version_of_name(listing.last().0) {
            Some(version) => rest.push(
                LocalView { blender_version: version, created: human_readable(listing.last().1) },
            ),
            None => rest,
        }
    }
}

/// The local builds of a directory listing; each entry gives the name of a
/// directory and the seconds since it was created.
pub fn parse_downloaded(downloaded: Vec<(String, u64)>) -> (result: Vec<LocalBlenderVersion>)
    ensures
        local_views(result@) == local_builds(listing_view(downloaded@)),
{
    let matcher = BlenderMatcher::new();
    let ghost listing = listing_view(downloaded@);
    let mut result: Vec<LocalBlenderVersion> = Vec::new();
    let mut i: usize = 0;
    assert(listing.take(0) =~= Seq::empty());
    assert(local_views(result@) =~= Seq::empty());
    while i < downloaded.len()
        invariant
            i <= downloaded.len(),
            listing == listing_view(downloaded@),
            local_views(result@) == local_builds(listing.take(i as int)),
        decreases downloaded.len() - i,
    {
        proof {
            assert(listing.take(i + 1).drop_last() =~= listing.take(i as int));
            assert(listing.take(i + 1).last() == listing[i as int]);
        }
        match matcher.match_str(downloaded[i].0.as_str()) {
            Some(version) => {
                let local = LocalBlenderVersion {
                    blender_version: version,
                    created: duration_to_human_readable(downloaded[i].1),
                };
                let ghost before = local_views(result@);
                result.push(local);
                assert(local_views(result@) =~= before.push(local@));
            },
            None => {},
        }
        i += 1;
    }
    assert(listing.take(i as int) =~= listing);
    result
}

} // verus!
