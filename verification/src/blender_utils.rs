//! Reading builds out of names and index pages: the two name patterns, the
//! choice of the latest build of each version, and the links of an index page.

use vstd::prelude::*;
use vstd::multiset::Multiset;
use crate::text::{chars_of, lemma_lex_lt_asymmetric, lemma_lex_lt_transitive, less_than, lex_lt};
use crate::{version_views, BlenderVersion, VersionView};

verus! {

/// The pattern of a daily build's archive name: version, release, branch and
/// platform, in that order of groups.
pub const MAIN_PATTERN: &'static str =
    "blender-(?<version>\\d.\\d.\\d+)-(?<release>\\w+)\\+(?<branch>.+?)-(?<os>.+)-";

/// The pattern of an unpacked release directory: version and platform.
pub const EXTRACTED_PATTERN: &'static str = "blender-(?<version>\\d.\\d.\\d+)-(?<os>.+)";

/// The release that a name of the second pattern stands for.
pub const STABLE: &'static str = "stable";

/// What the regex crate finds when the pattern `pattern` is searched in
/// `haystack`: `None` where the pattern does not compile or matches nowhere,
/// else the groups of the leftmost match, the whole match first and then each
/// group in the order of its opening parenthesis, a group that took no part in
/// the match as `None`.
pub uninterp spec fn regex_groups(pattern: Seq<char>, haystack: Seq<char>) -> Option<
    Seq<Option<Seq<char>>>,
>;

/// The values of a list of groups.
pub open spec fn groups_view(groups: Seq<Option<String>>) -> Seq<Option<Seq<char>>> {
    groups.map_values(
        |g: Option<String>|
            match g {
                Some(text) => Some(text@),
                None => None,
            },
    )
}

/// The value of the outcome of a search.
pub open spec fn search_view(found: Option<Vec<Option<String>>>) -> Option<Seq<Option<Seq<char>>>> {
    match found {
        Some(groups) => Some(groups_view(groups@)),
        None => None,
    }
}

/// Compiles `pattern` with `regex::Regex::new`, searches `haystack` with
/// `Regex::captures` and copies the groups out through `Captures::iter`. The
/// contract only names the outcome: it is fixed by the two texts, and nothing
/// else is claimed of it.
#[verifier::external_body]
fn captures(pattern: &str, haystack: &str) -> (found: Option<Vec<Option<String>>>)
    ensures
        search_view(found) == regex_groups(pattern@, haystack@),
{
    let regex = regex::Regex::new(pattern).ok()?;
    let groups = regex.captures(haystack)?;
    Some(groups.iter().map(|group| group.map(|found| found.as_str().to_owned())).collect())
}

/// The build that the groups of a match of the first pattern describe: groups
/// one to four are version, release, branch and platform. Without all four
/// there is no build.
pub open spec fn version_of_main(groups: Seq<Option<Seq<char>>>) -> Option<VersionView> {
    if groups.len() >= 5 && groups[1] is Some && groups[2] is Some && groups[3] is Some
        && groups[4] is Some {
        Some(
            VersionView {
                version: groups[1]->0,
                release: groups[2]->0,
                branch: groups[3]->0,
                os: groups[4]->0,
                link: Seq::empty(),
            },
        )
    } else {
        None
    }
}

/// The build that the groups of a match of the second pattern describe: groups
/// one and two are version and platform, and the release is stable.
pub open spec fn version_of_extracted(groups: Seq<Option<Seq<char>>>) -> Option<VersionView> {
    if groups.len() >= 3 && groups[1] is Some && groups[2] is Some {
        Some(
            VersionView {
                version: groups[1]->0,
                release: STABLE@,
                branch: Seq::empty(),
                os: groups[2]->0,
                link: Seq::empty(),
            },
        )
    } else {
        None
    }
}

/// The build that a name stands for, given what each pattern finds in it. The
/// first pattern decides wherever it matches; the second is asked only where
/// the first finds nothing.
pub open spec fn version_of_groups(
    main: Option<Seq<Option<Seq<char>>>>,
    extracted: Option<Seq<Option<Seq<char>>>>,
) -> Option<VersionView> {
    match main {
        Some(groups) => version_of_main(groups),
        None => match extracted {
            Some(groups) => version_of_extracted(groups),
            None => None,
        },
    }
}

/// The build that the name `name` stands for.
pub open spec fn version_of_name(name: Seq<char>) -> Option<VersionView> {
    version_of_groups(
        regex_groups(MAIN_PATTERN@, name),
        regex_groups(EXTRACTED_PATTERN@, name),
    )
}

/// The value of an optional build.
pub open spec fn optional_view(version: Option<BlenderVersion>) -> Option<VersionView> {
    match version {
        Some(v) => Some(v@),
        None => None,
    }
}

/// The build that the groups of a match of the first pattern describe.
pub fn from_main_groups(groups: &Vec<Option<String>>) -> (version: Option<BlenderVersion>)
    ensures
        optional_view(version) == version_of_main(groups_view(groups@)),
{
    if groups.len() < 5 {
        return None;
    }
    match (&groups[1], &groups[2], &groups[3], &groups[4]) {
        (Some(version), Some(release), Some(branch), Some(os)) => Some(
            BlenderVersion {
                version: version.clone(),
                release: release.clone(),
                branch: branch.clone(),
                os: os.clone(),
                link: String::new(),
            },
        ),
        _ => None,
    }
}

/// The build that the groups of a match of the second pattern describe.
pub fn from_extracted_groups(groups: &Vec<Option<String>>) -> (version: Option<BlenderVersion>)
    ensures
        optional_view(version) == version_of_extracted(groups_view(groups@)),
{
    if groups.len() < 3 {
        return None;
    }
    match (&groups[1], &groups[2]) {
        (Some(version), Some(os)) => Some(
            BlenderVersion {
                version: version.clone(),
                release: STABLE.to_owned(),
                branch: String::new(),
                os: os.clone(),
                link: String::new(),
            },
        ),
        _ => None,
    }
}

/// Recognises builds by their names. The matcher keeps its two patterns as
/// text; a search compiles the pattern that it uses.
pub struct BlenderMatcher {
    main_pattern: String,
    extracted_pattern: String,
}

/// The mathematical value of a `BlenderMatcher`: its two patterns.
pub struct MatcherView {
    pub main_pattern: Seq<char>,
    pub extracted_pattern: Seq<char>,
}

impl View for BlenderMatcher {
    type V = MatcherView;

    closed spec fn view(&self) -> MatcherView {
        MatcherView {
            main_pattern: self.main_pattern@,
            extracted_pattern: self.extracted_pattern@,
        }
    }
}

impl BlenderMatcher {
    #[verifier::type_invariant]
    spec fn holds_the_patterns(self) -> bool {
        self.main_pattern@ == MAIN_PATTERN@ && self.extracted_pattern@ == EXTRACTED_PATTERN@
    }

    /// A matcher for the two name patterns.
    pub fn new() -> (matcher: Self)
        ensures
            matcher@ == (MatcherView {
                main_pattern: MAIN_PATTERN@,
                extracted_pattern: EXTRACTED_PATTERN@,
            }),
    {
        BlenderMatcher {
            main_pattern: MAIN_PATTERN.to_owned(),
            extracted_pattern: EXTRACTED_PATTERN.to_owned(),
        }
    }

    /// The build that `blender_str` names, if it names one. The link is left
    /// empty: a name does not say where it was found.
    pub fn match_str(&self, blender_str: &str) -> (version: Option<BlenderVersion>)
        ensures
            optional_view(version) == version_of_name(blender_str@),
    {
        proof {
            use_type_invariant(self);
        }
        match captures(self.main_pattern.as_str(), blender_str) {
            Some(groups) => from_main_groups(&groups),
            None => match captures(self.extracted_pattern.as_str(), blender_str) {
                Some(groups) => from_extracted_groups(&groups),
                None => None,
            },
        }
    }
}

/// Build `i` of a list is superseded: a later entry of the same version is a
/// stable release, or has the same release.
pub open spec fn superseded(list: Seq<VersionView>, i: int) -> bool {
    exists|j: int|
        i < j < list.len() && (#[trigger] list[j]).version == list[i].version && (list[j].release
            == STABLE@ || list[j].release == list[i].release)
}

/// The builds among the first `n` of a list that nothing supersedes.
pub open spec fn latest_upto(list: Seq<VersionView>, n: int) -> Multiset<VersionView>
    decreases n,
{
    if n <= 0 {
        Multiset::empty()
    } else if superseded(list, n - 1) {
        latest_upto(list, n - 1)
    } else {
        latest_upto(list, n - 1).insert(list[n - 1])
    }
}

/// The builds of a list that nothing supersedes: for each version and release
/// the last entry, and none that a later stable release of its version follows.
pub open spec fn latest(list: Seq<VersionView>) -> Multiset<VersionView> {
    latest_upto(list, list.len() as int)
}

/// The list is ordered by version, the greatest first, versions read as words
/// over their characters.
pub open spec fn newest_first(list: Seq<VersionView>) -> bool {
    forall|a: int, b: int|
        0 <= a < b < list.len() ==> !lex_lt((#[trigger] list[a]).version, (#[trigger] list[b]).version)
}

proof fn lemma_insert_to_multiset(list: Seq<VersionView>, at: int, item: VersionView)
    requires
        0 <= at <= list.len(),
    ensures
        list.insert(at, item).to_multiset() == list.to_multiset().insert(item),
{
    broadcast use vstd::seq_lib::group_to_multiset_ensures;

    let longer = list.insert(at, item);
    assert(longer.remove(at) =~= list);
    assert(longer[at] == item);
    assert(longer.to_multiset().remove(item) =~= list.to_multiset());
    assert(longer.contains(item));
    assert(longer.to_multiset() =~= list.to_multiset().insert(item));
}

fn is_superseded(versions: &Vec<BlenderVersion>, i: usize, stable: &String) -> (r: bool)
    requires
        i < versions.len(),
        stable@ == STABLE@,
    ensures
        r == superseded(version_views(versions@), i as int),
{
    let ghost list = version_views(versions@);
    let mut j: usize = i + 1;
    while j < versions.len()
        invariant
            i < j <= versions.len(),
            i < versions.len(),
            stable@ == STABLE@,
            list == version_views(versions@),
            forall|k: int|
                i < k < j ==> !((#[trigger] list[k]).version == list[i as int].version && (
                list[k].release == STABLE@ || list[k].release == list[i as int].release)),
        decreases versions.len() - j,
    {
        if versions[j].version == versions[i].version && (versions[j].release == *stable
            || versions[j].release == versions[i].release) {
            assert(list[j as int] == versions@[j as int]@);
            return true;
        }
        j += 1;
    }
    false
}

fn insert_sorted(list: &mut Vec<BlenderVersion>, item: BlenderVersion)
    requires
        newest_first(version_views(old(list)@)),
    ensures
        newest_first(version_views(final(list)@)),
        version_views(final(list)@).to_multiset() == version_views(old(list)@).to_multiset().insert(
            item@,
        ),
{
    let ghost before = version_views(list@);
    let word = chars_of(item.version.as_str());
    let mut at: usize = 0;
    let mut placed = false;
    while !placed && at < list.len()
        invariant
            at <= list.len(),
            word@ == item@.version,
            before == version_views(list@),
            forall|k: int| 0 <= k < at ==> !lex_lt((#[trigger] before[k]).version, word@),
            placed ==> at < list.len() && lex_lt(before[at as int].version, word@),
        decreases list.len() - at + if placed { 0int } else { 1int },
    {
        let other = chars_of(list[at].version.as_str());
        if less_than(&other, &word) {
            placed = true;
        } else {
            at += 1;
        }
    }
    let ghost item_view = item@;
    list.insert(at, item);
    proof {
        let after = version_views(list@);
        assert(after =~= before.insert(at as int, item_view));
        assert forall|a: int, b: int| 0 <= a < b < after.len() implies !lex_lt(
            (#[trigger] after[a]).version,
            (#[trigger] after[b]).version,
        ) by {
            if b == at {
                assert(after[a] == before[a]);
            } else if a == at {
                assert(after[b] == before[b - 1]);
                assert(lex_lt(before[at as int].version, item_view.version));
                if lex_lt(item_view.version, before[b - 1].version) {
                    if b - 1 == at {
                        lemma_lex_lt_asymmetric(before[at as int].version, item_view.version);
                    } else {
                        lemma_lex_lt_transitive(
                            before[at as int].version,
                            item_view.version,
                            before[b - 1].version,
                        );
                    }
                }
            } else if a < at && b < at {
                assert(after[a] == before[a] && after[b] == before[b]);
            } else if a < at {
                assert(after[a] == before[a] && after[b] == before[b - 1]);
            } else {
                assert(after[a] == before[a - 1] && after[b] == before[b - 1]);
            }
        }
        lemma_insert_to_multiset(before, at as int, item_view);
    }
}

/// Keeps of each version and release the last entry of `versions`, drops what
/// a later stable release of the same version follows, and orders the rest by
/// version, the greatest first. Builds of equal version come in no promised
/// order.
pub fn filter_latest(versions: Vec<BlenderVersion>) -> (kept: Vec<BlenderVersion>)
    ensures
        version_views(kept@).to_multiset() == latest(version_views(versions@)),
        newest_first(version_views(kept@)),
{
    let stable = STABLE.to_owned();
    let mut kept: Vec<BlenderVersion> = Vec::new();
    let mut i: usize = 0;
    assert(version_views(kept@).to_multiset() =~= Multiset::empty()) by {
        broadcast use vstd::seq_lib::group_to_multiset_ensures;

        assert(version_views(kept@) =~= Seq::empty());
    }
    while i < versions.len()
        invariant
            i <= versions.len(),
            stable@ == STABLE@,
            version_views(kept@).to_multiset() == latest_upto(version_views(versions@), i as int),
            newest_first(version_views(kept@)),
        decreases versions.len() - i,
    {
        if !is_superseded(&versions, i, &stable) {
            insert_sorted(&mut kept, versions[i].clone());
        }
        i += 1;
    }
    kept
}

/// The selector of the links to the builds for Linux on an index page.
pub const LINK_SELECTOR: &'static str =
    "[data-platform='linux'] li:not([style='display:none;']) a:first-child";

/// The attribute that holds a link's address.
pub const LINK_ATTRIBUTE: &'static str = "href";

/// The error where the selector is refused.
pub const SELECTOR_REFUSED: &'static str = "the link selector was refused";

/// The error where a selected element has no address.
pub const ADDRESS_MISSING: &'static str = "a selected link has no address";

/// What the scraper crate finds in the HTML text `document`: `None` where the
/// CSS selector `selector` does not parse, else, for each element that the
/// selector matches, in the order in which the crate yields them, the value of
/// its attribute `attr`, or `None` where the element has no such attribute.
pub uninterp spec fn selected_attrs(document: Seq<char>, selector: Seq<char>, attr: Seq<char>)
    -> Option<Seq<Option<Seq<char>>>>;

/// Parses `selector` with `scraper::Selector::parse` and `document` with
/// `scraper::Html::parse_document`, walks the matches of `Html::select` and
/// copies out what `ElementRef::attr` gives for each. The contract only names
/// the outcome: it is fixed by the three texts, and nothing else is claimed of
/// it.
#[verifier::external_body]
fn select_attrs(document: &str, selector: &str, attr: &str) -> (found: Option<Vec<Option<String>>>)
    ensures
        search_view(found) == selected_attrs(document@, selector@, attr@),
{
    let selector = scraper::Selector::parse(selector).ok()?;
    let html = scraper::Html::parse_document(document);
    Some(html.select(&selector).map(|element| element.attr(attr).map(|v| v.to_owned())).collect())
}

/// Every selected element has an address.
pub open spec fn all_present(hrefs: Seq<Option<Seq<char>>>) -> bool {
    forall|i: int| 0 <= i < hrefs.len() ==> (#[trigger] hrefs[i]) is Some
}

/// The builds that a list of addresses names, in order, each with its address
/// as link. An address that names no build gives none.
pub open spec fn candidates(hrefs: Seq<Option<Seq<char>>>) -> Seq<VersionView>
    decreases hrefs.len(),
{
    if hrefs.len() == 0 {
        Seq::empty()
    } else {
        let rest = candidates(hrefs.drop_last());
        match hrefs.last() {
            Some(href) => match version_of_name(href) {
                Some(version) => rest.push(VersionView { link: href, ..version }),
                None => rest,
            },
            None => rest,
        }
    }
}

/// `outcome` is what an index page gives whose selected addresses are `found`:
/// the latest of the builds that the addresses name, the greatest version
/// first; or an error, where the selector was refused or an address is missing.
pub open spec fn is_selection(
    found: Option<Seq<Option<Seq<char>>>>,
    outcome: Result<Vec<BlenderVersion>, String>,
) -> bool {
    match outcome {
        Ok(list) => {
            &&& found matches Some(hrefs)
            &&& all_present(hrefs)
            &&& version_views(list@).to_multiset() == latest(candidates(hrefs))
            &&& newest_first(version_views(list@))
        },
        Err(text) => match found {
            Some(hrefs) => !all_present(hrefs) && text@ == ADDRESS_MISSING@,
            None => text@ == SELECTOR_REFUSED@,
        },
    }
}

/// The builds of an index page, from the addresses that were selected in it.
pub fn links_from_hrefs(found: Option<Vec<Option<String>>>) -> (outcome: Result<
    Vec<BlenderVersion>,
    String,
>)
    ensures
        is_selection(search_view(found), outcome),
{
    let hrefs = match found {
        Some(hrefs) => hrefs,
        None => {
            return Err(SELECTOR_REFUSED.to_owned());
        },
    };
    let ghost all = groups_view(hrefs@);
    let matcher = BlenderMatcher::new();
    let mut links: Vec<BlenderVersion> = Vec::new();
    let mut i: usize = 0;
    assert(all.take(0) =~= Seq::empty());
    assert(version_views(links@) =~= Seq::empty());
    while i < hrefs.len()
        invariant
            i <= hrefs.len(),
            all == groups_view(hrefs@),
            search_view(found) == Some(all),
            all_present(all.take(i as int)),
            version_views(links@) == candidates(all.take(i as int)),
        decreases hrefs.len() - i,
    {
        proof {
            assert(all.take(i + 1).drop_last() =~= all.take(i as int));
            assert(all.take(i + 1).last() == all[i as int]);
        }
        match &hrefs[i] {
            Some(href) => {
                match matcher.match_str(href.as_str()) {
                    Some(found_version) => {
                        let mut version = found_version;
                        version.link = href.clone();
                        let ghost before = version_views(links@);
                        links.push(version);
                        assert(version_views(links@) =~= before.push(version@));
                        assert(version@ =~= (VersionView { link: href@, ..found_version@ }));
                    },
                    None => {},
                }
            },
            None => {
                assert(!(all[i as int] is Some));
                return Err(ADDRESS_MISSING.to_owned());
            },
        }
        assert forall|k: int| 0 <= k < i + 1 implies (#[trigger] all.take(i + 1)[k]) is Some by {
            if k < i {
                assert(all.take(i as int)[k] is Some);
            }
        }
        i += 1;
    }
    assert(all.take(i as int) =~= all);
    Ok(filter_latest(links))
}

/// The builds for Linux that the index page `body` offers: the latest of each
/// version, the greatest version first.
pub fn select(body: String) -> (outcome: Result<Vec<BlenderVersion>, String>)
    ensures
        is_selection(selected_attrs(body@, LINK_SELECTOR@, LINK_ATTRIBUTE@), outcome),
{
    links_from_hrefs(select_attrs(body.as_str(), LINK_SELECTOR, LINK_ATTRIBUTE))
}

} // verus!
