//! Laws of the detection of updates.

use vstd::prelude::*;

use crate::models;
use crate::models::{InstallationSnapshot, ReleaseInfo, ReleaseView, SnapshotView};
use crate::text;

verus! {

/// Two optional texts that are both missing, or that differ at most in case.
pub open spec fn same_optional(one: Option<Seq<char>>, other: Option<Seq<char>>) -> bool {
    match (one, other) {
        (Some(a), Some(b)) => text::same_ignoring_case(a, b),
        (None, None) => true,
        _ => false,
    }
}

proof fn lemma_case_keeps_blankness(a: Seq<char>, b: Seq<char>)
    requires
        text::same_ignoring_case(a, b),
        text::is_blank(a),
    ensures
        text::is_blank(b),
{
    let lower_a = text::ascii_lowered(a);
    let lower_b = text::ascii_lowered(b);
    assert(a.len() == lower_a.len() && b.len() == lower_b.len());
    assert forall|i: int| 0 <= i < b.len() implies text::is_white_space(#[trigger] b[i]) by {
        assert(lower_a[i] == text::ascii_lower(a[i]));
        assert(lower_b[i] == text::ascii_lower(b[i]));
        assert(text::is_white_space(a[i]));
    }
}

proof fn lemma_stated_digests(one: Option<Seq<char>>, other: Option<Seq<char>>)
    requires
        same_optional(one, other),
    ensures
        same_optional(models::stated_digest(one), models::stated_digest(other)),
{
    if let (Some(a), Some(b)) = (one, other) {
        if text::is_blank(a) {
            lemma_case_keeps_blankness(a, b);
        }
        if text::is_blank(b) {
            lemma_case_keeps_blankness(b, a);
        }
    }
}

/// The case in which tags and digests are written decides nothing.
pub proof fn case_decides_nothing(
    installed: SnapshotView,
    same_installed: SnapshotView,
    latest: ReleaseView,
    same_latest: ReleaseView,
)
    requires
        same_optional(installed.installed_release, same_installed.installed_release),
        same_optional(installed.installed_release_digest, same_installed.installed_release_digest),
        text::same_ignoring_case(latest.tag, same_latest.tag),
        same_optional(latest.digest, same_latest.digest),
    ensures
        models::is_update(installed, latest) == models::is_update(same_installed, same_latest),
{
    lemma_stated_digests(installed.installed_release_digest, same_installed.installed_release_digest);
    lemma_stated_digests(latest.digest, same_latest.digest);
}

/// Where nothing is installed there is nothing to update.
pub proof fn nothing_installed_needs_no_update(installed: SnapshotView, latest: ReleaseView)
    requires
        installed.installed_release is None,
    ensures
        !models::is_update(installed, latest),
{
}

/// A release with another tag is an update, whatever the digests say.
pub proof fn another_tag_is_an_update(
    installed: SnapshotView,
    tag: Seq<char>,
    latest: ReleaseView,
)
    requires
        installed.installed_release == Some(tag),
        !text::same_ignoring_case(tag, latest.tag),
    ensures
        models::is_update(installed, latest),
{
}

/// Under one tag only digests that are both known can make an update, and they do if they differ.
pub proof fn known_digests_decide_under_one_tag(
    installed: SnapshotView,
    tag: Seq<char>,
    latest: ReleaseView,
)
    requires
        installed.installed_release == Some(tag),
        text::same_ignoring_case(tag, latest.tag),
    ensures
        models::is_update(installed, latest) <==> {
            &&& models::stated_digest(installed.installed_release_digest) matches Some(one)
            &&& models::stated_digest(latest.digest) matches Some(other)
            &&& !text::same_ignoring_case(one, other)
        },
{
}

/// A release is no update of itself.
pub proof fn a_release_does_not_update_itself(installed: SnapshotView, latest: ReleaseView)
    requires
        installed.installed_release == Some(latest.tag),
        installed.installed_release_digest == latest.digest,
    ensures
        !models::is_update(installed, latest),
{
}

/// An update is offered exactly if a release is installed and its tag is another one than the latest
/// release's, or the two tags agree and there are two digests, neither of them blank, that differ.
/// Case does not count. Nothing else about a tag or a digest matters, such as how long it is.
pub proof fn an_update_is_offered_exactly_if_something_known_differs(
    installed: InstallationSnapshot,
    latest: ReleaseInfo,
    available: bool,
)
    requires
        call_ensures(InstallationSnapshot::update_available, (&installed, &latest), available),
    ensures
        available <==> {
            &&& installed.installed_release matches Some(tag)
            &&& {
                ||| !text::same_ignoring_case(tag@, latest.tag@)
                ||| {
                    &&& installed.installed_release_digest matches Some(one)
                    &&& latest.digest matches Some(other)
                    &&& !text::is_blank(one@)
                    &&& !text::is_blank(other@)
                    &&& !text::same_ignoring_case(one@, other@)
                }
            }
        },
{
}

/// A digest says something exactly if it is there and is not blank, and what it says is its whole
/// text.
pub proof fn a_digest_is_stated_unless_blank(digest: Seq<char>)
    ensures
        models::stated_digest(None) is None,
        text::is_blank(digest) ==> models::stated_digest(Some(digest)) is None,
        !text::is_blank(digest) ==> models::stated_digest(Some(digest)) == Some(digest),
{
}

/// Digests that say something are told apart under one tag in the same way from either side: of two
/// installations, each is an update of the other or neither is.
pub proof fn differing_is_mutual(
    tag: Seq<char>,
    one: Option<Seq<char>>,
    other: Option<Seq<char>>,
    here: SnapshotView,
    there: SnapshotView,
    latest_here: ReleaseView,
    latest_there: ReleaseView,
)
    requires
        here.installed_release == Some(tag),
        there.installed_release == Some(tag),
        latest_here.tag == tag,
        latest_there.tag == tag,
        here.installed_release_digest == one,
        latest_here.digest == one,
        there.installed_release_digest == other,
        latest_there.digest == other,
    ensures
        models::is_update(here, latest_there) == models::is_update(there, latest_here),
{
}

} // verus!
