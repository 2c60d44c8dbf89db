//! Releases and their assets.

use crate::text::{ends_with, starts_with};
use vstd::prelude::*;
use vstd::string::*;

verus! {

/// One downloadable file of a release, as the releases API describes it.
#[derive(Debug, PartialEq, Eq)]
pub struct Asset {
    /// The file name as published; it may end in the compressed-format suffix.
    pub name: String,
    /// The declared content type; nothing holds the bytes to it.
    pub content_type: String,
    /// The absolute URL the bytes are fetched from.
    pub download_url: String,
}

/// The mathematical value of an [`Asset`].
pub struct AssetView {
    pub name: Seq<char>,
    pub content_type: Seq<char>,
    pub download_url: Seq<char>,
}

impl View for Asset {
    type V = AssetView;

    open spec fn view(&self) -> AssetView {
        AssetView {
            name: self.name@,
            content_type: self.content_type@,
            download_url: self.download_url@,
        }
    }
}

impl Clone for Asset {
    fn clone(&self) -> (r: Self)
        ensures
            r == *self,
    {
        Asset {
            name: self.name.clone(),
            content_type: self.content_type.clone(),
            download_url: self.download_url.clone(),
        }
    }
}

/// One tagged publication: a version and its assets in upstream order.
#[derive(Debug, PartialEq, Eq)]
pub struct Release {
    /// The upstream tag name.
    pub version: String,
    /// The assets, in the order upstream listed them.
    pub assets: Vec<Asset>,
}

/// The mathematical value of a [`Release`].
pub struct ReleaseView {
    pub version: Seq<char>,
    pub assets: Seq<AssetView>,
}

/// The values of a sequence of assets, position by position.
pub open spec fn assets_view(assets: Seq<Asset>) -> Seq<AssetView> {
    Seq::new(assets.len(), |i: int| assets[i]@)
}

impl View for Release {
    type V = ReleaseView;

    open spec fn view(&self) -> ReleaseView {
        ReleaseView { version: self.version@, assets: assets_view(self.assets@) }
    }
}

/// The prefix that marks a server binary.
pub const SERVER_PREFIX: &'static str = "frida-server-";

/// The suffix of an xz-compressed file.
pub const COMPRESSED_SUFFIX: &'static str = ".xz";

/// A name marks a server binary when it begins with [`SERVER_PREFIX`].
pub open spec fn is_server_name(name: Seq<char>) -> bool {
    SERVER_PREFIX@.is_prefix_of(name)
}

/// A name carries the compressed-format suffix when it ends in
/// [`COMPRESSED_SUFFIX`] and something stands before the suffix.
pub open spec fn is_compressed_name(name: Seq<char>) -> bool {
    COMPRESSED_SUFFIX@.is_suffix_of(name) && COMPRESSED_SUFFIX@.len() < name.len()
}

/// The name under which an asset is kept: its name without the
/// compressed-format suffix, or its name where it carries none.
pub open spec fn stored_name(name: Seq<char>) -> Seq<char> {
    if is_compressed_name(name) {
        name.take(name.len() - COMPRESSED_SUFFIX@.len())
    } else {
        name
    }
}

/// The test that picks the server binaries.
pub open spec fn server_pred() -> spec_fn(AssetView) -> bool {
    |a: AssetView| is_server_name(a.name)
}

/// The server binaries among `assets`, in the order they stand in.
pub open spec fn server_assets(assets: Seq<AssetView>) -> Seq<AssetView> {
    assets.filter(server_pred())
}

/// `at` lists, in rising order, the positions of `assets` that `kept` was
/// taken from, and these are exactly the positions of the server binaries.
pub open spec fn selects_in_order(assets: Seq<AssetView>, kept: Seq<AssetView>, at: Seq<int>) -> bool {
    &&& at.len() == kept.len()
    &&& forall|k: int| 0 <= k < at.len() ==> 0 <= #[trigger] at[k] < assets.len()
    &&& forall|k: int| 0 <= k < at.len() ==> assets[#[trigger] at[k]] == kept[k]
    &&& forall|j: int, k: int| 0 <= j < k < at.len() ==> #[trigger] at[j] < #[trigger] at[k]
    &&& forall|i: int|
        0 <= i < assets.len() ==> (is_server_name(#[trigger] assets[i].name) <==> at.contains(i))
}

/// Picking the server binaries a second time changes nothing.
pub proof fn lemma_server_assets_idempotent(assets: Seq<AssetView>)
    ensures
        server_assets(server_assets(assets)) == server_assets(assets),
    decreases assets.len(),
{
    if assets.len() == 0 {
        reveal(Seq::filter);
    } else {
        let rest = assets.drop_last();
        let last = assets.last();
        assert(assets =~= rest.push(last));
        rest.lemma_filter_push(last, server_pred());
        lemma_server_assets_idempotent(rest);
        if is_server_name(last.name) {
            server_assets(rest).lemma_filter_push(last, server_pred());
        }
    }
}

/// The server binaries come out in the order they went in: the result is the
/// input read at rising positions, and no server binary is left behind.
pub proof fn lemma_server_assets_keep_order(assets: Seq<AssetView>) -> (at: Seq<int>)
    ensures
        selects_in_order(assets, server_assets(assets), at),
    decreases assets.len(),
{
    if assets.len() == 0 {
        reveal(Seq::filter);
        Seq::empty()
    } else {
        let rest = assets.drop_last();
        let last = assets.last();
        let n = rest.len() as int;
        assert(assets =~= rest.push(last));
        rest.lemma_filter_push(last, server_pred());
        let before = lemma_server_assets_keep_order(rest);
        let kept = server_assets(assets);
        if is_server_name(last.name) {
            let at = before.push(n);
            assert forall|i: int| 0 <= i < assets.len() implies (is_server_name(
                #[trigger] assets[i].name,
            ) <==> at.contains(i)) by {
                if i < n {
                    assert(assets[i] == rest[i]);
                    if before.contains(i) {
                        let k = choose|k: int| 0 <= k < before.len() && before[k] == i;
                        assert(at[k] == i);
                    }
                    if at.contains(i) {
                        let k = choose|k: int| 0 <= k < at.len() && at[k] == i;
                        assert(before[k] == i);
                    }
                } else {
                    assert(at[before.len() as int] == i);
                }
            }
            assert forall|k: int| 0 <= k < at.len() implies assets[#[trigger] at[k]] == kept[k] by {
                if k < before.len() {
                    assert(at[k] == before[k]);
                    assert(assets[before[k]] == rest[before[k]]);
                }
            }
            assert forall|j: int, k: int| 0 <= j < k < at.len() implies #[trigger] at[j]
                < #[trigger] at[k] by {
                assert(at[j] == before[j]);
                if k < before.len() {
                    assert(at[k] == before[k]);
                }
            }
            at
        } else {
            assert forall|i: int| 0 <= i < assets.len() implies (is_server_name(
                #[trigger] assets[i].name,
            ) <==> before.contains(i)) by {
                if i < n {
                    assert(assets[i] == rest[i]);
                } else {
                    if before.contains(i) {
                        let k = choose|k: int| 0 <= k < before.len() && before[k] == i;
                        assert(before[k] < n);
                    }
                }
            }
            assert forall|k: int| 0 <= k < before.len() implies assets[#[trigger] before[k]]
                == kept[k] by {
                assert(assets[before[k]] == rest[before[k]]);
            }
            before
        }
    }
}

impl Asset {
    /// Whether this asset is a server binary.
    pub fn is_server_binary(&self) -> (r: bool)
        ensures
            r == is_server_name(self@.name),
    {
        starts_with(self.name.as_str(), SERVER_PREFIX)
    }

    /// Whether the bytes of this asset are xz-compressed, going by its name.
    pub fn is_compressed(&self) -> (r: bool)
        ensures
            r == is_compressed_name(self@.name),
    {
        let suffix_len: usize = COMPRESSED_SUFFIX.unicode_len();
        ends_with(self.name.as_str(), COMPRESSED_SUFFIX) && suffix_len
            < self.name.as_str().unicode_len()
    }

    /// The name of the file that holds this asset in the cache.
    pub fn file_name(&self) -> (r: String)
        ensures
            r@ == stored_name(self@.name),
    {
        let name = self.name.as_str();
        if self.is_compressed() {
            let keep: usize = name.unicode_len() - COMPRESSED_SUFFIX.unicode_len();
            String::from_str(name.substring_char(0, keep))
        } else {
            String::from_str(name)
        }
    }
}

impl Release {
    /// The server binaries of this release, in upstream order.
    pub fn get_frida_server_assets(&self) -> (r: Vec<Asset>)
        ensures
            assets_view(r@) == server_assets(self@.assets),
    {
        let ghost all = assets_view(self.assets@);
        let mut out: Vec<Asset> = Vec::new();
        let mut i: usize = 0;
        assert(all.take(0) =~= Seq::empty());
        assert(assets_view(out@) =~= Seq::empty());
        assert(server_assets(Seq::empty()) =~= Seq::empty()) by {
            reveal(Seq::filter);
        }
        while i < self.assets.len()
            invariant
                i <= self.assets.len(),
                all == assets_view(self.assets@),
                assets_view(out@) == server_assets(all.take(i as int)),
            decreases self.assets.len() - i,
        {
            let asset = &self.assets[i];
            let ghost before = assets_view(out@);
            proof {
                assert(all.take(i + 1) =~= all.take(i as int).push(all[i as int]));
                all.take(i as int).lemma_filter_push(all[i as int], server_pred());
            }
            if asset.is_server_binary() {
                out.push(asset.clone());
                assert(assets_view(out@) =~= before.push(all[i as int]));
            }
            i += 1;
        }
        assert(all.take(i as int) =~= all);
        out
    }
}

} // verus!
