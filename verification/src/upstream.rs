//! Reading a release out of the answer of the releases API.

use crate::asset::{Asset, AssetView, Release, ReleaseView};
use crate::json::{items_view, json_document, list_field, parse_json, text_field, Json, JsonView};
use vstd::prelude::*;
use vstd::string::*;

verus! {

/// The endpoint that answers with the latest release.
pub const GITHUB_LATEST_RELEASES_URL: &'static str =
    "https://api.github.com/repos/frida/frida/releases/latest";

/// The endpoint under which each tag has its release.
pub const GITHUB_RELEASES_URL: &'static str =
    "https://api.github.com/repos/frida/frida/releases/tags";

/// The user agent that every request names.
pub const APP_USER_AGENT: &'static str = "frida-manager";

/// The key of a release's version.
pub const TAG_KEY: &'static str = "tag_name";

/// The key of a release's assets.
pub const ASSETS_KEY: &'static str = "assets";

/// The key of an asset's name.
pub const NAME_KEY: &'static str = "name";

/// The key of an asset's content type.
pub const CONTENT_TYPE_KEY: &'static str = "content_type";

/// The key of an asset's download URL.
pub const DOWNLOAD_URL_KEY: &'static str = "browser_download_url";

/// A field that every asset entry must hold as a string.
#[derive(Clone, Copy, Debug, PartialEq, Eq)]
pub enum AssetField {
    Name,
    ContentType,
    DownloadUrl,
}

/// Why no release could be read out of an upstream answer.
#[derive(Clone, Copy, Debug, PartialEq, Eq)]
pub enum UpstreamError {
    /// The request got no answer at all.
    NoResponse,
    /// The answer came with a status outside 200..=299.
    Status(u16),
    /// The body is not one JSON document.
    InvalidJson,
    /// The document is no object with an array under `assets`.
    MissingAssets,
    /// The entry at `index` of `assets` holds no string under `field`.
    MalformedAsset { index: usize, field: AssetField },
    /// The document holds no string under `tag_name`.
    MissingTag,
}

/// The URL to ask for a release: the latest one, or that of a tag. The tag is
/// put into the URL as it stands.
pub open spec fn endpoint_of(version: Option<Seq<char>>) -> Seq<char> {
    match version {
        None => GITHUB_LATEST_RELEASES_URL@,
        Some(tag) => GITHUB_RELEASES_URL@ + seq!['/'] + tag,
    }
}

/// A status in 200..=299.
pub open spec fn is_success(status: u16) -> bool {
    200 <= status <= 299
}

/// The first field that `entry` lacks as a string, in the order name,
/// content type, download URL.
pub open spec fn asset_fault(entry: JsonView) -> Option<AssetField> {
    if text_field(entry, NAME_KEY@) is None {
        Some(AssetField::Name)
    } else if text_field(entry, CONTENT_TYPE_KEY@) is None {
        Some(AssetField::ContentType)
    } else if text_field(entry, DOWNLOAD_URL_KEY@) is None {
        Some(AssetField::DownloadUrl)
    } else {
        None
    }
}

/// The asset that a complete entry describes.
pub open spec fn asset_of(entry: JsonView) -> AssetView {
    AssetView {
        name: text_field(entry, NAME_KEY@)->0,
        content_type: text_field(entry, CONTENT_TYPE_KEY@)->0,
        download_url: text_field(entry, DOWNLOAD_URL_KEY@)->0,
    }
}

/// The first incomplete entry at or after position `from`, with what it lacks.
pub open spec fn first_fault(entries: Seq<JsonView>, from: int) -> Option<(int, AssetField)>
    decreases entries.len() - from,
{
    if from < 0 || from >= entries.len() {
        None
    } else {
        match asset_fault(entries[from]) {
            Some(f) => Some((from, f)),
            None => first_fault(entries, from + 1),
        }
    }
}

/// The release that a JSON document describes, or why it describes none.
/// The array of assets is looked at first, then its entries in order, then
/// the tag.
pub open spec fn release_of(doc: JsonView) -> Result<ReleaseView, UpstreamError> {
    match list_field(doc, ASSETS_KEY@) {
        None => Err(UpstreamError::MissingAssets),
        Some(entries) => match first_fault(entries, 0) {
            Some((i, f)) => Err(UpstreamError::MalformedAsset { index: i as usize, field: f }),
            None => match text_field(doc, TAG_KEY@) {
                None => Err(UpstreamError::MissingTag),
                Some(tag) => Ok(
                    ReleaseView {
                        version: tag,
                        assets: Seq::new(entries.len(), |i: int| asset_of(entries[i])),
                    },
                ),
            },
        },
    }
}

/// What an upstream answer amounts to, given its status and the document
/// that its body holds.
pub open spec fn upstream_release(status: u16, document: Option<JsonView>) -> Result<
    ReleaseView,
    UpstreamError,
> {
    if !is_success(status) {
        Err(UpstreamError::Status(status))
    } else {
        match document {
            None => Err(UpstreamError::InvalidJson),
            Some(doc) => release_of(doc),
        }
    }
}

/// The value of what reading a release gave.
pub open spec fn release_result_view(r: Result<Release, UpstreamError>) -> Result<
    ReleaseView,
    UpstreamError,
> {
    match r {
        Ok(release) => Ok(release@),
        Err(e) => Err(e),
    }
}

/// Whether `entry` holds its name, its content type and its download URL,
/// each as a string.
pub open spec fn is_complete_asset(entry: JsonView) -> bool {
    &&& text_field(entry, NAME_KEY@) is Some
    &&& text_field(entry, CONTENT_TYPE_KEY@) is Some
    &&& text_field(entry, DOWNLOAD_URL_KEY@) is Some
}

/// An incomplete entry at or after `from` is found.
proof fn lemma_fault_is_found(entries: Seq<JsonView>, from: int, at: int)
    requires
        0 <= from <= at < entries.len(),
        !is_complete_asset(entries[at]),
    ensures
        first_fault(entries, from) is Some,
    decreases at - from,
{
    if from < at && asset_fault(entries[from]) is None {
        lemma_fault_is_found(entries, from + 1, at);
    }
}

/// A document that lacks the tag, or one of whose asset entries lacks its
/// name, its content type or its download URL, describes no release: the
/// whole answer fails, whatever its status.
pub proof fn lemma_incomplete_document_is_rejected(doc: JsonView, status: u16)
    requires
        text_field(doc, TAG_KEY@) is None || (list_field(doc, ASSETS_KEY@) matches Some(entries)
            && exists|i: int| 0 <= i < entries.len() && !is_complete_asset(#[trigger] entries[i])),
    ensures
        release_of(doc) is Err,
        upstream_release(status, Some(doc)) is Err,
{
    match list_field(doc, ASSETS_KEY@) {
        Some(entries) => {
            if exists|i: int| 0 <= i < entries.len() && !is_complete_asset(#[trigger] entries[i]) {
                let i = choose|i: int|
                    0 <= i < entries.len() && !is_complete_asset(#[trigger] entries[i]);
                lemma_fault_is_found(entries, 0, i);
            }
        },
        None => {},
    }
}

/// A document describes a release exactly when it holds a string under
/// `tag_name` and an array under `assets` whose entries are all complete.
pub proof fn lemma_release_iff_complete(doc: JsonView)
    ensures
        release_of(doc) is Ok <==> (text_field(doc, TAG_KEY@) is Some && (list_field(
            doc,
            ASSETS_KEY@,
        ) matches Some(entries) && forall|i: int|
            0 <= i < entries.len() ==> is_complete_asset(#[trigger] entries[i]))),
{
    match list_field(doc, ASSETS_KEY@) {
        Some(entries) => {
            if exists|i: int| 0 <= i < entries.len() && !is_complete_asset(#[trigger] entries[i]) {
                let i = choose|i: int|
                    0 <= i < entries.len() && !is_complete_asset(#[trigger] entries[i]);
                lemma_fault_is_found(entries, 0, i);
            } else {
                lemma_no_fault(entries, 0);
            }
        },
        None => {},
    }
}

/// Where every entry is complete, no fault is found.
proof fn lemma_no_fault(entries: Seq<JsonView>, from: int)
    requires
        0 <= from,
        forall|i: int| 0 <= i < entries.len() ==> is_complete_asset(#[trigger] entries[i]),
    ensures
        first_fault(entries, from) is None,
    decreases entries.len() - from,
{
    if from < entries.len() {
        assert(is_complete_asset(entries[from]));
        lemma_no_fault(entries, from + 1);
    }
}

/// The URL to ask for the release of `version`, or for the latest one.
pub fn endpoint(version: Option<&str>) -> (r: String)
    ensures
        r@ == endpoint_of(
            match version {
                Some(tag) => Some(tag@),
                None => None,
            },
        ),
{
    match version {
        None => String::from_str(GITHUB_LATEST_RELEASES_URL),
        Some(tag) => {
            let mut url = String::from_str(GITHUB_RELEASES_URL);
            proof {
                reveal_strlit("/");
            }
            url.append("/");
            assert("/"@ =~= seq!['/']);
            url.append(tag);
            url
        },
    }
}

/// The string that `entry` holds under `key`.
fn text_of(entry: &Json, key: &str) -> (r: Option<String>)
    ensures
        r matches Some(s) ==> text_field(entry@, key@) == Some(s@),
        r is None ==> text_field(entry@, key@) is None,
{
    match entry.get(key) {
        Some(value) => match value.as_str() {
            Some(s) => Some(String::from_str(s)),
            None => None,
        },
        None => None,
    }
}

/// The asset that `entry` describes, or the first field that it lacks.
pub fn asset_from_json(entry: &Json) -> (r: Result<Asset, AssetField>)
    ensures
        match r {
            Ok(asset) => asset_fault(entry@) is None && asset@ == asset_of(entry@),
            Err(f) => asset_fault(entry@) == Some(f),
        },
{
    let name = match text_of(entry, NAME_KEY) {
        Some(s) => s,
        None => { return Err(AssetField::Name); },
    };
    let content_type = match text_of(entry, CONTENT_TYPE_KEY) {
        Some(s) => s,
        None => { return Err(AssetField::ContentType); },
    };
    let download_url = match text_of(entry, DOWNLOAD_URL_KEY) {
        Some(s) => s,
        None => { return Err(AssetField::DownloadUrl); },
    };
    Ok(Asset { name, content_type, download_url })
}

/// The release that `doc` describes. Nothing is skipped: one entry that lacks
/// a field fails the whole release.
pub fn release_from_json(doc: &Json) -> (r: Result<Release, UpstreamError>)
    ensures
        release_result_view(r) == release_of(doc@),
{
    let entries = match doc.get(ASSETS_KEY) {
        Some(value) => match value.as_array() {
            Some(items) => items,
            None => { return Err(UpstreamError::MissingAssets); },
        },
        None => { return Err(UpstreamError::MissingAssets); },
    };
    let ghost listed = items_view(entries@);
    assert(list_field(doc@, ASSETS_KEY@) == Some(listed));
    let mut assets: Vec<Asset> = Vec::new();
    let mut i: usize = 0;
    while i < entries.len()
        invariant
            i <= entries.len(),
            listed == items_view(entries@),
            list_field(doc@, ASSETS_KEY@) == Some(listed),
            first_fault(listed, 0) == first_fault(listed, i as int),
            assets@.len() == i,
            forall|k: int| 0 <= k < i ==> (#[trigger] assets@[k])@ == asset_of(listed[k]),
        decreases entries.len() - i,
    {
        match asset_from_json(&entries[i]) {
            Ok(asset) => {
                assets.push(asset);
            },
            Err(field) => {
                return Err(UpstreamError::MalformedAsset { index: i, field });
            },
        }
        i += 1;
    }
    match text_of(doc, TAG_KEY) {
        None => Err(UpstreamError::MissingTag),
        Some(version) => {
            let release = Release { version, assets };
            assert(release@.assets =~= Seq::new(listed.len(), |i: int| asset_of(listed[i])));
            Ok(release)
        },
    }
}

/// The release that an upstream answer holds, from its status and its body.
/// A status outside 200..=299 fails before the body is looked at.
pub fn fetch_release(status: u16, body: &[u8]) -> (r: Result<Release, UpstreamError>)
    ensures
        release_result_view(r) == upstream_release(status, json_document(body@)),
{
    if status < 200 || status > 299 {
        return Err(UpstreamError::Status(status));
    }
    match parse_json(body) {
        None => Err(UpstreamError::InvalidJson),
        Some(doc) => release_from_json(&doc),
    }
}

} // verus!
