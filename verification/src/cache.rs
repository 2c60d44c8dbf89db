//! The layout of the cache, and what a version directory holds.
//!
//! ```text
//! <cache-root>/
//!   <version>/
//!     <asset-filename-without-compressed-suffix>
//! ```
//!
//! The presence of a file is all that marks an asset as cached.

use crate::asset::{stored_name, Asset};
use vstd::prelude::*;
use vstd::string::*;

verus! {

/// The name of the cache root under the home directory.
pub const CACHE_DIR_NAME: &'static str = ".fridamanager";

/// `name` below `dir`.
pub open spec fn joined(dir: Seq<char>, name: Seq<char>) -> Seq<char> {
    dir + seq!['/'] + name
}

/// A name that stays below the directory it is joined to: not empty, not
/// `.` or `..`, and without a path separator.
pub open spec fn is_safe_component(name: Seq<char>) -> bool {
    &&& name.len() > 0
    &&& name != seq!['.']
    &&& name != seq!['.', '.']
    &&& forall|i: int| 0 <= i < name.len() ==> name[i] != '/' && name[i] != '\\'
}

/// The path of `name` below `dir`.
pub fn join(dir: &str, name: &str) -> (r: String)
    ensures
        r@ == joined(dir@, name@),
{
    let mut path = String::from_str(dir);
    proof {
        reveal_strlit("/");
    }
    path.append("/");
    assert("/"@ =~= seq!['/']);
    path.append(name);
    path
}

/// Whether `name` can be joined to a directory without leaving it.
pub fn safe_component(name: &str) -> (r: bool)
    ensures
        r == is_safe_component(name@),
{
    let n: usize = name.unicode_len();
    if n == 0 {
        return false;
    }
    let mut dots_only = true;
    let mut i: usize = 0;
    while i < n
        invariant
            i <= n,
            n == name@.len(),
            dots_only == (forall|j: int| 0 <= j < i ==> name@[j] == '.'),
            forall|j: int| 0 <= j < i ==> name@[j] != '/' && name@[j] != '\\',
        decreases n - i,
    {
        let c = name.get_char(i);
        if c == '/' || c == '\\' {
            return false;
        }
        if c != '.' {
            dots_only = false;
        }
        i += 1;
    }
    if dots_only && n <= 2 {
        assert(name@ =~= seq!['.'] || name@ =~= seq!['.', '.']);
        return false;
    }
    proof {
        if name@ == seq!['.'] {
            assert(name@[0] == '.');
        }
        if name@ == seq!['.', '.'] {
            assert(name@[0] == '.' && name@[1] == '.');
        }
    }
    true
}

/// The cache root of the user whose home directory is `home`.
pub fn cache_root(home: &str) -> (r: String)
    ensures
        r@ == joined(home@, CACHE_DIR_NAME@),
{
    join(home, CACHE_DIR_NAME)
}

/// The directory of `version` below the cache root `root`. A version that is
/// no safe component has none: it would name a place outside the root.
pub fn version_dir(root: &str, version: &str) -> (r: Option<String>)
    ensures
        r matches Some(path) ==> is_safe_component(version@) && path@ == joined(root@, version@),
        r is None ==> !is_safe_component(version@),
{
    if safe_component(version) {
        Some(join(root, version))
    } else {
        None
    }
}

/// The file that holds `asset` in the version directory `dir`.
pub fn entry_path(dir: &str, asset: &Asset) -> (r: String)
    ensures
        r@ == joined(dir@, stored_name(asset@.name)),
{
    let name = asset.file_name();
    join(dir, name.as_str())
}

/// The values of a sequence of names, position by position.
pub open spec fn names_view(names: Seq<String>) -> Seq<Seq<char>> {
    Seq::new(names.len(), |i: int| names[i]@)
}

/// `names` with `name` added at the end, unless it is among them.
pub open spec fn with_name(names: Seq<Seq<char>>, name: Seq<char>) -> Seq<Seq<char>> {
    if names.contains(name) {
        names
    } else {
        names.push(name)
    }
}

/// `names` without repetitions: each name where it first stands.
pub open spec fn distinct(names: Seq<Seq<char>>) -> Seq<Seq<char>>
    decreases names.len(),
{
    if names.len() == 0 {
        Seq::empty()
    } else {
        with_name(distinct(names.drop_last()), names.last())
    }
}

/// The names of the files in one version directory, each once.
#[derive(Debug, PartialEq, Eq)]
pub struct CacheListing {
    names: Vec<String>,
}

impl View for CacheListing {
    type V = Seq<Seq<char>>;

    closed spec fn view(&self) -> Seq<Seq<char>> {
        names_view(self.names@)
    }
}

impl CacheListing {
    #[verifier::type_invariant]
    closed spec fn no_name_twice(&self) -> bool {
        names_view(self.names@).no_duplicates()
    }

    /// The listing of an empty directory.
    pub fn new() -> (r: Self)
        ensures
            r@ == Seq::<Seq<char>>::empty(),
            r@.no_duplicates(),
    {
        let names: Vec<String> = Vec::new();
        assert(names_view(names@) =~= Seq::empty());
        CacheListing { names }
    }

    /// The listing of a directory that holds the files `names`.
    pub fn from_names(names: Vec<String>) -> (r: Self)
        ensures
            r@ == distinct(names_view(names@)),
            r@.no_duplicates(),
    {
        let mut listing = CacheListing::new();
        let ghost all = names_view(names@);
        let mut i: usize = 0;
        assert(all.take(0) =~= Seq::empty());
        while i < names.len()
            invariant
                i <= names.len(),
                all == names_view(names@),
                listing@ == distinct(all.take(i as int)),
                listing@.no_duplicates(),
            decreases names.len() - i,
        {
            assert(all.take(i + 1).drop_last() =~= all.take(i as int));
            listing = listing.with_file(names[i].as_str());
            i += 1;
        }
        assert(all.take(i as int) =~= all);
        listing
    }

    /// Whether a file called `name` is listed.
    pub fn contains(&self, name: &str) -> (r: bool)
        ensures
            r == self@.contains(name@),
    {
        let wanted = String::from_str(name);
        let mut i: usize = 0;
        while i < self.names.len()
            invariant
                i <= self.names.len(),
                wanted@ == name@,
                forall|j: int| 0 <= j < i ==> self@[j] != name@,
            decreases self.names.len() - i,
        {
            if self.names[i] == wanted {
                assert(self@[i as int] == name@);
                return true;
            }
            i += 1;
        }
        false
    }

    /// This listing with `name` listed too, unless it is listed already.
    pub fn with_file(self, name: &str) -> (r: Self)
        ensures
            r@ == with_name(self@, name@),
            self@.no_duplicates(),
            r@.no_duplicates(),
    {
        proof {
            use_type_invariant(&self);
        }
        if self.contains(name) {
            self
        } else {
            let mut names = self.names;
            let ghost before = names_view(names@);
            names.push(String::from_str(name));
            assert(names_view(names@) =~= before.push(name@));
            CacheListing { names }
        }
    }

    /// The number of files listed.
    pub fn len(&self) -> (r: usize)
        ensures
            r == self@.len(),
            self@.no_duplicates(),
    {
        proof {
            use_type_invariant(self);
        }
        self.names.len()
    }
}

impl Asset {
    /// Whether this asset is cached in the directory that `listing` lists:
    /// whether a file of its stored name is there. Nothing else is looked at.
    pub fn is_cached(&self, listing: &CacheListing) -> (r: bool)
        ensures
            r == listing@.contains(stored_name(self@.name)),
    {
        let name = self.file_name();
        listing.contains(name.as_str())
    }
}

} // verus!
