//! Which release of the syntax-highlighting grammars to install, and what to
//! do with its assets.
use vstd::prelude::*;

use crate::text::{concat, str_eq, str_starts_with, has_prefix};
use vstd::utf8::{decode_utf8, encode_utf8, is_char_boundary};

verus! {

/// The grammar release that this version of the editor installs.
pub const GRAMMAR_RELEASE_TAG: &'static str = "v0.4.5+1f9f9dd";

/// A downloadable file of a release.
#[derive(Debug, Clone)]
pub struct ReleaseAsset {
    pub name: String,
    pub browser_download_url: String,
}

/// A published release.
#[derive(Debug, Clone)]
pub struct ReleaseInfo {
    pub tag_name: String,
    pub target_commitish: String,
    pub assets: Vec<ReleaseAsset>,
    pub version: String,
}

/// The index of the first release tagged `tag`.
pub open spec fn first_with_tag(releases: Seq<ReleaseInfo>, tag: Seq<char>) -> Option<int>
    decreases releases.len(),
{
    if releases.len() == 0 {
        None
    } else if releases[0].tag_name@ == tag {
        Some(0)
    } else {
        match first_with_tag(releases.drop_first(), tag) {
            Some(i) => Some(i + 1),
            None => None,
        }
    }
}

/// The first release tagged [`GRAMMAR_RELEASE_TAG`], whatever the version of
/// the application.
pub fn select_grammar_release(releases: Vec<ReleaseInfo>) -> (r: Option<ReleaseInfo>)
    ensures
        match first_with_tag(releases@, GRAMMAR_RELEASE_TAG@) {
            Some(i) => r === Some(releases@[i]),
            None => r is None,
        },
{
    let mut k: usize = 0;
    assert(releases@.skip(0) =~= releases@);
    while k < releases.len()
        invariant
            k <= releases@.len(),
            first_with_tag(releases@, GRAMMAR_RELEASE_TAG@) == (match first_with_tag(releases@.skip(k as int), GRAMMAR_RELEASE_TAG@) {
                Some(j) => Some(j + k),
                None => None,
            }),
        decreases releases.len() - k,
    {
        assert(releases@.skip(k as int).drop_first() =~= releases@.skip(k + 1));
        if str_eq(releases[k].tag_name.as_str(), GRAMMAR_RELEASE_TAG) {
            assert(first_with_tag(releases@.skip(k as int), GRAMMAR_RELEASE_TAG@) == Some(0int));
            let mut rest = releases;
            let found = rest.remove(k);
            return Some(found);
        }
        k = k + 1;
    }
    None
}

/// The version recorded for an installed release: `nightly-` and the first
/// seven bytes of the commit for the nightly release, else the tag.
pub open spec fn spec_release_version(tag: Seq<char>, commit: Seq<u8>) -> Seq<char> {
    if tag == "nightly"@ {
        "nightly-"@ + decode_utf8(commit.subrange(0, 7))
    } else {
        tag
    }
}

/// The version that an installed release is recorded as.
pub fn release_version(release: &ReleaseInfo) -> (r: String)
    requires
        release.tag_name@ == "nightly"@ ==> is_char_boundary(
            encode_utf8(release.target_commitish@),
            7,
        ) && encode_utf8(release.target_commitish@).len() >= 7,
    ensures
        r@ == spec_release_version(release.tag_name@, encode_utf8(release.target_commitish@)),
{
    if str_eq(release.tag_name.as_str(), "nightly") {
        let (head, _) = release.target_commitish.as_str().split_at(7);
        proof {
            vstd::utf8::encode_utf8_decode_utf8(head@);
        }
        concat("nightly-", head)
    } else {
        release.tag_name.clone()
    }
}

/// What is done with an asset of a release.
#[derive(Debug, Clone, Copy, PartialEq, Eq, Structural)]
pub enum AssetAction {
    /// Not for this platform: skipped.
    Skip,
    /// Downloaded and extracted as a zip archive.
    ExtractZip,
    /// Downloaded and extracted as a zstd-compressed tar archive.
    ExtractTarZst,
    /// Downloaded without being extracted.
    DownloadOnly,
}

/// Whether `s` ends with `suffix`.
pub open spec fn has_suffix(s: Seq<char>, suffix: Seq<char>) -> bool {
    suffix.len() <= s.len() && s.subrange(s.len() - suffix.len(), s.len() as int) == suffix
}

fn str_ends_with(s: &str, suffix: &str) -> (r: bool)
    ensures
        r == has_suffix(s@, suffix@),
{
    let a = crate::text::str_chars(s);
    let b = crate::text::str_chars(suffix);
    if b.len() > a.len() {
        return false;
    }
    let r = crate::text::chars_match_at(&a, a.len() - b.len(), &b);
    assert(a@.skip(a@.len() - b@.len()) =~= a@.subrange(a@.len() - b@.len(), a@.len() as int));
    assert(a@.skip(a@.len() - b@.len()).subrange(0, b@.len() as int) =~= a@.subrange(
        a@.len() - b@.len(),
        a@.len() as int,
    ));
    r
}

/// What is done with the asset named `name` when the release is installed
/// from the files whose names start with `file_name`.
pub open spec fn spec_asset_action(name: Seq<char>, file_name: Seq<char>) -> AssetAction {
    if !has_prefix(name, file_name) {
        AssetAction::Skip
    } else if has_suffix(name, ".zip"@) {
        AssetAction::ExtractZip
    } else if has_suffix(name, ".tar.zst"@) {
        AssetAction::ExtractTarZst
    } else {
        AssetAction::DownloadOnly
    }
}

pub fn asset_action(name: &str, file_name: &str) -> (r: AssetAction)
    ensures
        r == spec_asset_action(name@, file_name@),
{
    if !str_starts_with(name, file_name) {
        AssetAction::Skip
    } else if str_ends_with(name, ".zip") {
        AssetAction::ExtractZip
    } else if str_ends_with(name, ".tar.zst") {
        AssetAction::ExtractTarZst
    } else {
        AssetAction::DownloadOnly
    }
}

/// Whether the installed release is already current: its recorded version is
/// the release's version.
pub fn is_up_to_date(current_version: &str, release_version: &str) -> (r: bool)
    ensures
        r == (current_version@ == release_version@),
{
    str_eq(current_version, release_version)
}

/// The prefix of the grammar assets for a platform: `grammars-<os>-<arch>`.
pub fn grammars_file_name(os: &str, arch: &str) -> (r: String)
    ensures
        r@ == "grammars-"@ + os@ + "-"@ + arch@,
{
    let mut r = concat("grammars-", os);
    r.append("-");
    r.append(arch);
    r
}

} // verus!
