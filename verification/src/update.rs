//! Deciding what to tell the user about newer releases.

use vstd::prelude::*;

verus! {

/// How the running version stands to another one.
#[derive(Clone, Copy, Debug, PartialEq, Eq, Structural)]
pub enum VersionOrder {
    Older,
    Same,
    Newer,
}

/// What `ver_cmp::compare_versions` makes of two version texts: how the
/// first stands to the second, or `None` where it rejects either.
pub uninterp spec fn version_order(current: Seq<char>, other: Seq<char>) -> Option<VersionOrder>;

/// Calls `ver_cmp::compare_versions`.
///
/// Trusted: the result depends on the two texts alone. `Less` is handed on
/// as `Older`, `Equal` as `Same`, `Greater` as `Newer`, an error as `None`.
#[verifier::external_body]
fn compare_versions(current: &str, other: &str) -> (out: Option<VersionOrder>)
    ensures
        out == version_order(current@, other@),
{
    match ver_cmp::compare_versions(current, other) {
        Ok(core::cmp::Ordering::Less) => Some(VersionOrder::Older),
        Ok(core::cmp::Ordering::Equal) => Some(VersionOrder::Same),
        Ok(core::cmp::Ordering::Greater) => Some(VersionOrder::Newer),
        Err(_) => None,
    }
}

/// What `serde_json` reads under a key of a JSON document: the text of that
/// member where the document is an object that holds it as a string, and
/// `None` for every other document and for text that is no JSON.
pub uninterp spec fn json_member_text(content: Seq<char>, key: Seq<char>) -> Option<Seq<char>>;

/// Calls `serde_json::from_str` for a `serde_json::Value` and reads the
/// member under `key` as a string.
///
/// Trusted: the result depends on the document and the key alone.
#[verifier::external_body]
fn read_json_member(content: &str, key: &str) -> (out: Option<String>)
    ensures
        out is Some <==> json_member_text(content@, key@) is Some,
        out matches Some(text) ==> Some(text@) == json_member_text(content@, key@),
{
    match serde_json::from_str::<serde_json::Value>(content) {
        Ok(value) => match value[key].as_str() {
            Some(text) => Some(text.to_owned()),
            None => None,
        },
        Err(_) => None,
    }
}

/// The tag of the latest release in the answer of the release service: the
/// text under `tag_name`, or `None` where the answer holds none.
pub fn get_version_info(content: &str) -> (out: Option<String>)
    ensures
        out is Some <==> json_member_text(content@, "tag_name"@) is Some,
        out matches Some(tag) ==> Some(tag@) == json_member_text(content@, "tag_name"@),
{
    read_json_member(content, "tag_name")
}

/// The latest version, given the answer of the release service if there was
/// one: a failed request and an answer without a tag both give `None`.
pub fn get_lastest_ver(response: Option<&str>) -> (out: Option<String>)
    ensures
        response is None ==> out is None,
        response matches Some(content) ==> {
            &&& out is Some <==> json_member_text(content@, "tag_name"@) is Some
            &&& out matches Some(tag) ==> Some(tag@) == json_member_text(content@, "tag_name"@)
        },
{
    match response {
        Some(content) => get_version_info(content),
        None => None,
    }
}

/// What the footer shows beside the running version.
#[derive(Clone, Copy, Debug, PartialEq, Eq, Structural)]
pub enum UpdateNotice {
    /// The check is switched off: nothing is shown.
    Off,
    /// The latest version could not be found out.
    CheckFailed,
    /// One of the two versions could not be read as a version: nothing is shown.
    Unreadable,
    /// The running version is the latest: nothing is shown.
    UpToDate,
    /// The latest version is newer than the running one.
    NewVersion,
    /// The running version is newer than the latest release.
    DeveloperBuild,
}

/// The notice for the outcome of a check: `latest_known` says whether the
/// latest version was found out, `order` how the running version stands to it.
pub open spec fn notice_of(
    check_for_updates: bool,
    latest_known: bool,
    order: Option<VersionOrder>,
) -> UpdateNotice {
    if !check_for_updates {
        UpdateNotice::Off
    } else if !latest_known {
        UpdateNotice::CheckFailed
    } else {
        match order {
            Some(VersionOrder::Older) => UpdateNotice::NewVersion,
            Some(VersionOrder::Newer) => UpdateNotice::DeveloperBuild,
            Some(VersionOrder::Same) => UpdateNotice::UpToDate,
            None => UpdateNotice::Unreadable,
        }
    }
}

/// Computes [`notice_of`].
pub fn notice_for(check_for_updates: bool, latest_known: bool, order: Option<VersionOrder>) -> (out:
    UpdateNotice)
    ensures
        out == notice_of(check_for_updates, latest_known, order),
{
    if !check_for_updates {
        UpdateNotice::Off
    } else if !latest_known {
        UpdateNotice::CheckFailed
    } else {
        match order {
            Some(VersionOrder::Older) => UpdateNotice::NewVersion,
            Some(VersionOrder::Newer) => UpdateNotice::DeveloperBuild,
            Some(VersionOrder::Same) => UpdateNotice::UpToDate,
            None => UpdateNotice::Unreadable,
        }
    }
}

/// The notice to show for the running version and the latest one, if known.
pub fn version_footer(check_for_updates: bool, current: &str, latest: Option<&str>) -> (out:
    UpdateNotice)
    ensures
        out == notice_of(
            check_for_updates,
            latest is Some,
            match latest {
                Some(other) => version_order(current@, other@),
                None => None,
            },
        ),
{
    if !check_for_updates {
        return UpdateNotice::Off;
    }
    match latest {
        Some(other) => notice_for(true, true, compare_versions(current, other)),
        None => UpdateNotice::CheckFailed,
    }
}

} // verus!
