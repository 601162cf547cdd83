//! Workspace manifest data: what the build tool reports about the
//! packages of the workspace, indexed for metadata lookup.

use vstd::prelude::*;
use vstd::string::*;
use crate::paths::FsPath;
use crate::text::{str_eq, str_to_chars, chars_to_string, str_views};

verus! {

/// The workspace root and its member source directories, as discovered
/// from the manifest.
pub struct WorkspaceInfo {
    pub root: FsPath,
    pub members: Vec<FsPath>,
}

/// One package as the manifest reports it: name, version, and the names
/// of its features.
pub struct PackageMeta {
    pub name: String,
    pub version: String,
    pub features: Vec<String>,
}

pub ghost struct PackageView {
    pub name: Seq<char>,
    pub version: Seq<char>,
    pub features: Seq<Seq<char>>,
}

impl View for PackageMeta {
    type V = PackageView;

    open spec fn view(&self) -> PackageView {
        PackageView { name: self.name@, version: self.version@, features: str_views(self.features@) }
    }
}

/// `s` with every `-` replaced by `_`: the crate name Rust code uses for
/// a package whose name carries hyphens.
pub open spec fn dashes_to_underscores(s: Seq<char>) -> Seq<char> {
    s.map_values(|c: char| if c == '-' { '_' } else { c })
}

/// Replaces hyphens by underscores in a package name.
pub fn dash_to_underscore(s: &str) -> (r: String)
    ensures
        r@ == dashes_to_underscores(s@),
{
    let cs = str_to_chars(s);
    let n = cs.len();
    let mut r: Vec<char> = Vec::new();
    let mut i: usize = 0;
    while i < n
        invariant
            n == cs@.len(),
            cs@ == s@,
            i <= n,
            r@ =~= s@.take(i as int).map_values(|c: char| if c == '-' { '_' } else { c }),
        decreases n - i,
    {
        let c = cs[i];
        if c == '-' {
            r.push('_');
        } else {
            r.push(c);
        }
        proof {
            assert(r@ =~= s@.take(i as int + 1).map_values(
                |c: char| if c == '-' { '_' } else { c },
            ));
        }
        i += 1;
    }
    proof {
        assert(s@.take(n as int) =~= s@);
    }
    chars_to_string(&r)
}

/// The entries the package list yields: each package under its own
/// name, followed, when the two differ, by the same data under the
/// underscore form of the name.
pub open spec fn spec_cargo_entries(ps: Seq<PackageView>) -> Seq<PackageView>
    decreases ps.len(),
{
    if ps.len() == 0 {
        Seq::empty()
    } else {
        let p = ps.last();
        let renamed = PackageView {
            name: dashes_to_underscores(p.name),
            version: p.version,
            features: p.features,
        };
        spec_cargo_entries(ps.drop_last()) + if dashes_to_underscores(p.name) == p.name {
            seq![p]
        } else {
            seq![p, renamed]
        }
    }
}

/// The entry that a lookup finds: the latest one recorded under `name`.
pub open spec fn spec_cargo_lookup(es: Seq<PackageView>, name: Seq<char>) -> Option<PackageView>
    decreases es.len(),
{
    if es.len() == 0 {
        None
    } else if es.last().name == name {
        Some(es.last())
    } else {
        spec_cargo_lookup(es.drop_last(), name)
    }
}

/// Per-crate version and feature data from the workspace manifest,
/// keyed by crate name.
pub struct CargoInfo {
    pub entries: Vec<PackageMeta>,
}

impl View for CargoInfo {
    type V = Seq<PackageView>;

    open spec fn view(&self) -> Seq<PackageView> {
        self.entries@.map_values(|p: PackageMeta| p@)
    }
}

fn clone_strings(v: &Vec<String>) -> (r: Vec<String>)
    ensures
        r@ == v@,
{
    let n = v.len();
    let mut r: Vec<String> = Vec::new();
    let mut i: usize = 0;
    while i < n
        invariant
            n == v@.len(),
            i <= n,
            r@.len() == i,
            forall|j: int| 0 <= j < i ==> #[trigger] r@[j] == v@[j],
        decreases n - i,
    {
        r.push(v[i].clone());
        i += 1;
    }
    proof {
        assert(r@ =~= v@);
    }
    r
}

impl CargoInfo {
    /// An index with nothing known, used when the manifest cannot be
    /// loaded.
    pub fn new() -> (r: CargoInfo)
        ensures
            r@ == Seq::<PackageView>::empty(),
    {
        let r = CargoInfo { entries: Vec::new() };
        proof {
            assert(r@ =~= Seq::<PackageView>::empty());
        }
        r
    }

    /// The version and features recorded under `name`, if any.
    pub fn lookup(&self, name: &str) -> (r: Option<(String, Vec<String>)>)
        ensures
            match spec_cargo_lookup(self@, name@) {
                Some(p) => r matches Some(pair) && pair.0@ == p.version && str_views(pair.1@)
                    == p.features,
                None => r is None,
            },
    {
        let n = self.entries.len();
        let mut k: usize = n;
        proof {
            assert(self@.take(n as int) =~= self@);
        }
        while k > 0
            invariant
                n == self.entries@.len(),
                k <= n,
                spec_cargo_lookup(self@, name@) == spec_cargo_lookup(
                    self@.take(k as int),
                    name@,
                ),
            decreases k,
        {
            proof {
                assert(self@.take(k as int).drop_last() =~= self@.take(k as int - 1));
                assert(self@.take(k as int).last() == self@[k as int - 1]);
            }
            if str_eq(self.entries[k - 1].name.as_str(), name) {
                let version = self.entries[k - 1].version.clone();
                let features = clone_strings(&self.entries[k - 1].features);
                return Some((version, features));
            }
            k -= 1;
        }
        proof {
            assert(self@.take(0) =~= Seq::<PackageView>::empty());
        }
        None
    }
}

/// Builds the metadata index from the manifest's package list.  Each
/// package is recorded under its own name and, when it differs, under
/// the underscore form that Rust code uses.
pub fn cargo_info_from_packages(packages: &Vec<PackageMeta>) -> (r: CargoInfo)
    ensures
        r@ == spec_cargo_entries(packages@.map_values(|p: PackageMeta| p@)),
{
    let ghost pviews = packages@.map_values(|p: PackageMeta| p@);
    let n = packages.len();
    let mut entries: Vec<PackageMeta> = Vec::new();
    let mut i: usize = 0;
    while i < n
        invariant
            n == packages@.len(),
            pviews == packages@.map_values(|p: PackageMeta| p@),
            i <= n,
            entries@.map_values(|p: PackageMeta| p@) == spec_cargo_entries(
                pviews.take(i as int),
            ),
        decreases n - i,
    {
        let ghost pre = entries@;
        let name = packages[i].name.clone();
        let version = packages[i].version.clone();
        let features = clone_strings(&packages[i].features);
        let underscore = dash_to_underscore(name.as_str());
        let same = str_eq(underscore.as_str(), name.as_str());
        let first = PackageMeta { name, version, features };
        let ghost fv = first;
        entries.push(first);
        proof {
            pre.lemma_push_map_commute(|p: PackageMeta| p@, fv);
        }
        if !same {
            let version2 = packages[i].version.clone();
            let features2 = clone_strings(&packages[i].features);
            let ghost mid = entries@;
            let second = PackageMeta { name: underscore, version: version2, features: features2 };
            let ghost sv = second;
            entries.push(second);
            proof {
                mid.lemma_push_map_commute(|p: PackageMeta| p@, sv);
            }
        }
        proof {
            let post = pviews.take(i as int + 1);
            assert(post.drop_last() =~= pviews.take(i as int));
            assert(post.last() == pviews[i as int]);
            assert(pviews[i as int] == packages@[i as int]@);
            assert(entries@.map_values(|p: PackageMeta| p@) =~= spec_cargo_entries(post));
        }
        i += 1;
    }
    proof {
        assert(pviews.take(n as int) =~= pviews);
    }
    CargoInfo { entries }
}

/// A file name with the Rust source extension.
pub open spec fn ends_with_rs(s: Seq<char>) -> bool {
    s.len() >= 3 && s[s.len() - 3] == '.' && s[s.len() - 2] == 'r' && s[s.len() - 1] == 's'
}

/// A path naming a Rust source file: its last component ends in `.rs`.
pub open spec fn is_rust_path(p: crate::paths::PathView) -> bool {
    p.components.len() > 0 && ends_with_rs(p.components.last())
}

/// The paths naming Rust source files, in order.
pub open spec fn rust_paths(ps: Seq<crate::paths::PathView>) -> Seq<crate::paths::PathView>
    decreases ps.len(),
{
    if ps.len() == 0 {
        Seq::empty()
    } else {
        rust_paths(ps.drop_last()) + if is_rust_path(ps.last()) {
            seq![ps.last()]
        } else {
            Seq::empty()
        }
    }
}

fn path_is_rust(p: &FsPath) -> (r: bool)
    ensures
        r == is_rust_path(p@),
{
    let n = p.components.len();
    if n == 0 {
        return false;
    }
    let last = p.components[n - 1].as_str();
    let m = last.unicode_len();
    if m < 3 {
        return false;
    }
    last.get_char(m - 3) == '.' && last.get_char(m - 2) == 'r' && last.get_char(m - 1) == 's'
}

/// Keeps the changed paths that name Rust source files: only those feed
/// a re-extraction.
pub fn select_rust_files(changed: &Vec<FsPath>) -> (r: Vec<FsPath>)
    ensures
        r@.map_values(|p: FsPath| p@) == rust_paths(changed@.map_values(|p: FsPath| p@)),
{
    let ghost views = changed@.map_values(|p: FsPath| p@);
    let n = changed.len();
    let mut r: Vec<FsPath> = Vec::new();
    let mut i: usize = 0;
    proof {
        assert(views.take(0) =~= Seq::<crate::paths::PathView>::empty());
    }
    while i < n
        invariant
            n == changed@.len(),
            views == changed@.map_values(|p: FsPath| p@),
            i <= n,
            r@.map_values(|p: FsPath| p@) == rust_paths(views.take(i as int)),
        decreases n - i,
    {
        proof {
            assert(views.take(i as int + 1).drop_last() =~= views.take(i as int));
            assert(views.take(i as int + 1).last() == views[i as int]);
        }
        if path_is_rust(&changed[i]) {
            let ghost pre = r@;
            let copied = changed[i].clone();
            let ghost cv = copied;
            r.push(copied);
            proof {
                pre.lemma_push_map_commute(|p: FsPath| p@, cv);
                assert(r@.map_values(|p: FsPath| p@) =~= rust_paths(views.take(i as int + 1)));
            }
        } else {
            proof {
                assert(r@.map_values(|p: FsPath| p@) =~= rust_paths(views.take(i as int + 1)));
            }
        }
        i += 1;
    }
    proof {
        assert(views.take(n as int) =~= views);
    }
    r
}

} // verus!
