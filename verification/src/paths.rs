//! File-system paths as the extraction pipeline sees them: a sequence of
//! component names plus an absolute-or-relative flag.
//!
//! The virtual file system hands the pipeline already-split absolute
//! paths; everything the pipeline does with them — prefix stripping for
//! workspace files, the `src`-component heuristic for dependency files,
//! and the ordering of the final file list — is defined over the
//! components alone.  Rendering joins components with `/`.

use vstd::prelude::*;
use vstd::string::*;
use crate::text::{str_eq, str_to_chars, str_views, chars_to_string};

verus! {

/// A path value: its components and whether it is anchored at the root.
pub struct FsPath {
    pub absolute: bool,
    pub components: Vec<String>,
}

/// The mathematical shape of a path.
pub ghost struct PathView {
    pub absolute: bool,
    pub components: Seq<Seq<char>>,
}

impl View for FsPath {
    type V = PathView;

    open spec fn view(&self) -> PathView {
        PathView { absolute: self.absolute, components: str_views(self.components@) }
    }
}

/// Components joined with `/`, without any leading separator.
pub open spec fn join_slash(cs: Seq<Seq<char>>) -> Seq<char>
    decreases cs.len(),
{
    if cs.len() == 0 {
        Seq::empty()
    } else if cs.len() == 1 {
        cs[0]
    } else {
        join_slash(cs.drop_last()) + seq!['/'] + cs.last()
    }
}

/// The portable string of a whole path: a leading `/` when absolute,
/// then the components joined with `/`.
pub open spec fn spec_render(p: PathView) -> Seq<char> {
    if p.absolute {
        seq!['/'] + join_slash(p.components)
    } else {
        join_slash(p.components)
    }
}

/// `pre` is a leading run of `full`.
pub open spec fn is_prefix_of(pre: Seq<Seq<char>>, full: Seq<Seq<char>>) -> bool {
    pre.len() <= full.len() && (forall|k: int| 0 <= k < pre.len() ==> full[k] == #[trigger] pre[k])
}

/// Position `i` holds the first component named `src`.
pub open spec fn first_src_at(comps: Seq<Seq<char>>, i: int) -> bool {
    &&& 0 <= i < comps.len()
    &&& comps[i] == "src"@
    &&& forall|k: int| 0 <= k < i ==> #[trigger] comps[k] != "src"@
}

/// The relative path string recorded in the output for a source file.
///
/// Workspace files lose the project directory prefix when they are under
/// it.  Dependency files keep the suffix from one component before the
/// first `src` component on.  Everything else falls back to the path
/// rendered whole.
pub open spec fn spec_normalize(p: PathView, proj: PathView, is_external: bool) -> Seq<char> {
    if !is_external {
        if p.absolute == proj.absolute && is_prefix_of(proj.components, p.components) {
            join_slash(p.components.skip(proj.components.len() as int))
        } else {
            spec_render(p)
        }
    } else {
        if exists|i: int| first_src_at(p.components, i) && i > 0 {
            join_slash(
                p.components.skip((choose|i: int| first_src_at(p.components, i) && i > 0) - 1),
            )
        } else {
            spec_render(p)
        }
    }
}

proof fn lemma_join_slash_step(cs: Seq<Seq<char>>, from: int, i: int)
    requires
        0 <= from <= i < cs.len(),
    ensures
        join_slash(cs.subrange(from, i + 1)) == if i == from {
            cs[i]
        } else {
            join_slash(cs.subrange(from, i)) + seq!['/'] + cs[i]
        },
{
    let post = cs.subrange(from, i + 1);
    if i == from {
        assert(post.len() == 1);
        assert(post[0] == cs[i]);
    } else {
        assert(post.drop_last() =~= cs.subrange(from, i));
        assert(post.last() == cs[i]);
    }
}

/// The components from `from` on, joined with `/`.
fn join_from(comps: &Vec<String>, from: usize) -> (r: Vec<char>)
    requires
        from <= comps@.len(),
    ensures
        r@ == join_slash(str_views(comps@).skip(from as int)),
{
    let ghost views = str_views(comps@);
    let n = comps.len();
    let mut r: Vec<char> = Vec::new();
    let mut i: usize = from;
    while i < n
        invariant
            n == comps@.len(),
            views == str_views(comps@),
            from <= i <= n,
            r@ == join_slash(views.subrange(from as int, i as int)),
        decreases n - i,
    {
        if i > from {
            r.push('/');
        }
        let mut piece = str_to_chars(comps[i].as_str());
        r.append(&mut piece);
        proof {
            lemma_join_slash_step(views, from as int, i as int);
            assert(views[i as int] == comps@[i as int]@);
            if i > from {
                assert(r@ =~= join_slash(views.subrange(from as int, i as int)) + seq!['/']
                    + views[i as int]);
            } else {
                assert(r@ =~= views[i as int]);
            }
        }
        i += 1;
    }
    proof {
        assert(views.subrange(from as int, n as int) =~= views.skip(from as int));
    }
    r
}

impl FsPath {
    /// A path built from parts.
    pub fn new(absolute: bool, components: Vec<String>) -> (r: FsPath)
        ensures
            r@.absolute == absolute,
            r@.components == str_views(components@),
    {
        FsPath { absolute, components }
    }

    /// The portable string of the whole path.
    pub fn render(&self) -> (r: String)
        ensures
            r@ == spec_render(self@),
    {
        let tail = join_from(&self.components, 0);
        proof {
            assert(str_views(self.components@).skip(0) =~= str_views(self.components@));
        }
        if self.absolute {
            let mut buf: Vec<char> = Vec::new();
            buf.push('/');
            let n = tail.len();
            let mut k: usize = 0;
            while k < n
                invariant
                    n == tail@.len(),
                    k <= n,
                    buf@ == seq!['/'] + tail@.take(k as int),
                decreases n - k,
            {
                buf.push(tail[k]);
                proof {
                    assert(buf@ =~= seq!['/'] + tail@.take(k as int + 1));
                }
                k += 1;
            }
            proof {
                assert(tail@.take(n as int) =~= tail@);
            }
            chars_to_string(&buf)
        } else {
            chars_to_string(&tail)
        }
    }

    /// Whether two paths are the same value.
    pub fn same_as(&self, other: &FsPath) -> (r: bool)
        ensures
            r == (self@ == other@),
    {
        if self.absolute != other.absolute {
            return false;
        }
        let n = self.components.len();
        if n != other.components.len() {
            assert(self@.components.len() != other@.components.len());
            return false;
        }
        let mut k: usize = 0;
        while k < n
            invariant
                n == self.components@.len(),
                n == other.components@.len(),
                k <= n,
                self.absolute == other.absolute,
                forall|j: int|
                    0 <= j < k ==> #[trigger] self.components@[j]@ == other.components@[j]@,
            decreases n - k,
        {
            if !str_eq(self.components[k].as_str(), other.components[k].as_str()) {
                assert(self@.components[k as int] != other@.components[k as int]);
                return false;
            }
            k += 1;
        }
        proof {
            assert(self@.components =~= other@.components);
        }
        true
    }
}

impl Clone for FsPath {
    fn clone(&self) -> (r: Self)
        ensures
            r@ == self@,
    {
        let n = self.components.len();
        let mut comps: Vec<String> = Vec::new();
        let mut k: usize = 0;
        while k < n
            invariant
                n == self.components@.len(),
                k <= n,
                comps@.len() == k,
                forall|j: int| 0 <= j < k ==> #[trigger] comps@[j] == self.components@[j],
            decreases n - k,
        {
            comps.push(self.components[k].clone());
            k += 1;
        }
        let r = FsPath { absolute: self.absolute, components: comps };
        proof {
            assert(r@.components =~= self@.components);
        }
        r
    }
}

/// Strict character order: shorter prefixes first, otherwise the first
/// differing character decides by its Unicode scalar value.
pub open spec fn chars_lt(a: Seq<char>, b: Seq<char>) -> bool
    decreases a.len(),
{
    if b.len() == 0 {
        false
    } else if a.len() == 0 {
        true
    } else if a[0] != b[0] {
        (a[0] as u32) < (b[0] as u32)
    } else {
        chars_lt(a.drop_first(), b.drop_first())
    }
}

/// Strict component-list order: elementwise, by `chars_lt`.
pub open spec fn strs_lt(a: Seq<Seq<char>>, b: Seq<Seq<char>>) -> bool
    decreases a.len(),
{
    if b.len() == 0 {
        false
    } else if a.len() == 0 {
        true
    } else if a[0] != b[0] {
        chars_lt(a[0], b[0])
    } else {
        strs_lt(a.drop_first(), b.drop_first())
    }
}

/// Strict path order: absolute paths first, then component order.
pub open spec fn spec_path_lt(a: PathView, b: PathView) -> bool {
    if a.absolute != b.absolute {
        a.absolute
    } else {
        strs_lt(a.components, b.components)
    }
}

proof fn lemma_chars_lt_skip(a: Seq<char>, b: Seq<char>, i: int)
    requires
        0 <= i <= a.len(),
        i <= b.len(),
        forall|j: int| 0 <= j < i ==> a[j] == b[j],
    ensures
        chars_lt(a, b) == chars_lt(a.skip(i), b.skip(i)),
    decreases i,
{
    if i == 0 {
        assert(a.skip(0) =~= a);
        assert(b.skip(0) =~= b);
    } else {
        assert(a[0] == b[0]);
        assert(a.drop_first() =~= a.skip(1));
        assert(b.drop_first() =~= b.skip(1));
        assert(chars_lt(a, b) == chars_lt(a.drop_first(), b.drop_first()));
        lemma_chars_lt_skip(a.drop_first(), b.drop_first(), i - 1);
        assert(a.drop_first().skip(i - 1) =~= a.skip(i));
        assert(b.drop_first().skip(i - 1) =~= b.skip(i));
    }
}

pub proof fn lemma_chars_lt_connected(a: Seq<char>, b: Seq<char>)
    ensures
        a != b ==> (chars_lt(a, b) || chars_lt(b, a)),
        !(chars_lt(a, b) && chars_lt(b, a)),
    decreases a.len(),
{
    if a.len() == 0 || b.len() == 0 {
        if a.len() == 0 && b.len() == 0 {
            assert(a =~= b);
        }
    } else if a[0] != b[0] {
        vstd::utf8::char_u32_cast(a[0], a[0] as u32);
        vstd::utf8::char_u32_cast(b[0], b[0] as u32);
        assert((a[0] as u32) != (b[0] as u32));
    } else {
        lemma_chars_lt_connected(a.drop_first(), b.drop_first());
        if a != b {
            if a.drop_first() == b.drop_first() {
                assert forall|k: int| 0 <= k < a.len() implies a[k] == b[k] by {
                    if k >= 1 {
                        assert(a.drop_first()[k - 1] == b.drop_first()[k - 1]);
                    }
                }
                assert(a =~= b);
            }
        }
    }
}

pub proof fn lemma_chars_lt_trans(a: Seq<char>, b: Seq<char>, c: Seq<char>)
    requires
        chars_lt(a, b),
        chars_lt(b, c),
    ensures
        chars_lt(a, c),
    decreases a.len(),
{
    if c.len() == 0 {
        assert(!chars_lt(b, c));
    } else if a.len() == 0 {
    } else {
        assert(b.len() > 0);
        if a[0] == b[0] && b[0] == c[0] {
            lemma_chars_lt_trans(a.drop_first(), b.drop_first(), c.drop_first());
        }
    }
}

pub proof fn lemma_strs_lt_connected(a: Seq<Seq<char>>, b: Seq<Seq<char>>)
    ensures
        a != b ==> (strs_lt(a, b) || strs_lt(b, a)),
        !(strs_lt(a, b) && strs_lt(b, a)),
    decreases a.len(),
{
    if a.len() == 0 || b.len() == 0 {
        if a.len() == 0 && b.len() == 0 {
            assert(a =~= b);
        }
    } else if a[0] != b[0] {
        lemma_chars_lt_connected(a[0], b[0]);
    } else {
        lemma_strs_lt_connected(a.drop_first(), b.drop_first());
        if a != b {
            if a.drop_first() == b.drop_first() {
                assert forall|k: int| 0 <= k < a.len() implies a[k] == b[k] by {
                    if k >= 1 {
                        assert(a.drop_first()[k - 1] == b.drop_first()[k - 1]);
                    }
                }
                assert(a =~= b);
            }
        }
    }
}

pub proof fn lemma_strs_lt_trans(a: Seq<Seq<char>>, b: Seq<Seq<char>>, c: Seq<Seq<char>>)
    requires
        strs_lt(a, b),
        strs_lt(b, c),
    ensures
        strs_lt(a, c),
    decreases a.len(),
{
    if c.len() == 0 {
        assert(!strs_lt(b, c));
    } else if a.len() == 0 {
    } else {
        assert(b.len() > 0);
        if a[0] == b[0] && b[0] == c[0] {
            lemma_strs_lt_trans(a.drop_first(), b.drop_first(), c.drop_first());
        } else if a[0] == b[0] {
            // order decided between b and c
        } else if b[0] == c[0] {
        } else {
            lemma_chars_lt_trans(a[0], b[0], c[0]);
            lemma_chars_lt_connected(a[0], c[0]);
        }
    }
}

/// The path order is connected: distinct paths compare one way or the
/// other, never both.
pub proof fn lemma_path_lt_connected(a: PathView, b: PathView)
    ensures
        a != b ==> (spec_path_lt(a, b) || spec_path_lt(b, a)),
        !(spec_path_lt(a, b) && spec_path_lt(b, a)),
{
    if a.absolute == b.absolute {
        lemma_strs_lt_connected(a.components, b.components);
    }
}

/// The path order is transitive.
pub proof fn lemma_path_lt_trans(a: PathView, b: PathView, c: PathView)
    requires
        spec_path_lt(a, b),
        spec_path_lt(b, c),
    ensures
        spec_path_lt(a, c),
{
    if a.absolute == b.absolute && b.absolute == c.absolute {
        lemma_strs_lt_trans(a.components, b.components, c.components);
    }
}

proof fn lemma_strs_lt_skip(a: Seq<Seq<char>>, b: Seq<Seq<char>>, i: int)
    requires
        0 <= i <= a.len(),
        i <= b.len(),
        forall|j: int| 0 <= j < i ==> a[j] == b[j],
    ensures
        strs_lt(a, b) == strs_lt(a.skip(i), b.skip(i)),
    decreases i,
{
    if i == 0 {
        assert(a.skip(0) =~= a);
        assert(b.skip(0) =~= b);
    } else {
        assert(a[0] == b[0]);
        assert(strs_lt(a, b) == strs_lt(a.drop_first(), b.drop_first()));
        lemma_strs_lt_skip(a.drop_first(), b.drop_first(), i - 1);
        assert(a.drop_first().skip(i - 1) =~= a.skip(i));
        assert(b.drop_first().skip(i - 1) =~= b.skip(i));
    }
}

/// Strict character-order comparison of two strings.
pub fn str_lt(a: &str, b: &str) -> (r: bool)
    ensures
        r == chars_lt(a@, b@),
{
    let alen = a.unicode_len();
    let blen = b.unicode_len();
    let min = if alen < blen {
        alen
    } else {
        blen
    };
    let mut i: usize = 0;
    while i < min
        invariant
            alen == a@.len(),
            blen == b@.len(),
            min == if alen < blen {
                alen
            } else {
                blen
            },
            i <= min,
            forall|j: int| 0 <= j < i ==> a@[j] == b@[j],
        decreases min - i,
    {
        let ca = a.get_char(i);
        let cb = b.get_char(i);
        if ca != cb {
            proof {
                lemma_chars_lt_skip(a@, b@, i as int);
                assert(a@.skip(i as int)[0] == a@[i as int]);
                assert(b@.skip(i as int)[0] == b@[i as int]);
            }
            return (ca as u32) < (cb as u32);
        }
        i += 1;
    }
    proof {
        lemma_chars_lt_skip(a@, b@, min as int);
        if alen < blen {
            assert(a@.skip(min as int).len() == 0);
            assert(b@.skip(min as int).len() > 0);
        } else {
            assert(b@.skip(min as int).len() == 0);
        }
    }
    alen < blen
}

/// Strict path-order comparison.
pub fn path_lt(a: &FsPath, b: &FsPath) -> (r: bool)
    ensures
        r == spec_path_lt(a@, b@),
{
    if a.absolute != b.absolute {
        return a.absolute;
    }
    let alen = a.components.len();
    let blen = b.components.len();
    let min = if alen < blen {
        alen
    } else {
        blen
    };
    let mut i: usize = 0;
    while i < min
        invariant
            a.absolute == b.absolute,
            alen == a.components@.len(),
            blen == b.components@.len(),
            min == if alen < blen {
                alen
            } else {
                blen
            },
            i <= min,
            forall|j: int| 0 <= j < i ==> a@.components[j] == b@.components[j],
        decreases min - i,
    {
        if !str_eq(a.components[i].as_str(), b.components[i].as_str()) {
            proof {
                lemma_strs_lt_skip(a@.components, b@.components, i as int);
                assert(a@.components[i as int] == a.components@[i as int]@);
                assert(b@.components[i as int] == b.components@[i as int]@);
                assert(a@.components.skip(i as int)[0] == a@.components[i as int]);
                assert(b@.components.skip(i as int)[0] == b@.components[i as int]);
                assert(strs_lt(a@.components, b@.components) == chars_lt(
                    a@.components[i as int],
                    b@.components[i as int],
                ));
            }
            return str_lt(a.components[i].as_str(), b.components[i].as_str());
        }
        i += 1;
    }
    proof {
        lemma_strs_lt_skip(a@.components, b@.components, min as int);
        if alen < blen {
            assert(a@.components.skip(min as int).len() == 0);
            assert(b@.components.skip(min as int).len() > 0);
        } else {
            assert(b@.components.skip(min as int).len() == 0);
        }
    }
    alen < blen
}

/// Converts an absolute source path to the relative string recorded in
/// the output, with separate rules for workspace and dependency files.
pub fn normalize_file_path(file_path: &FsPath, project_dir: &FsPath, is_external: bool) -> (r:
    String)
    ensures
        r@ == spec_normalize(file_path@, project_dir@, is_external),
{
    if !is_external {
        let plen = project_dir.components.len();
        let flen = file_path.components.len();
        let mut is_pref: bool = file_path.absolute == project_dir.absolute && plen <= flen;
        let mut k: usize = 0;
        while k < plen && is_pref
            invariant
                plen == project_dir.components@.len(),
                flen == file_path.components@.len(),
                k <= plen,
                is_pref ==> (file_path.absolute == project_dir.absolute && plen <= flen),
                is_pref ==> (forall|j: int|
                    0 <= j < k ==> file_path@.components[j] == #[trigger] project_dir@.components[j]),
                !is_pref ==> !(file_path@.absolute == project_dir@.absolute && is_prefix_of(
                    project_dir@.components,
                    file_path@.components,
                )),
            decreases plen - k,
        {
            if !str_eq(file_path.components[k].as_str(), project_dir.components[k].as_str()) {
                assert(file_path@.components[k as int] != project_dir@.components[k as int]);
                is_pref = false;
            }
            k += 1;
        }
        if is_pref {
            let tail = join_from(&file_path.components, plen);
            chars_to_string(&tail)
        } else {
            file_path.render()
        }
    } else {
        let n = file_path.components.len();
        let mut idx: usize = n;
        let mut k: usize = 0;
        while k < n
            invariant
                n == file_path.components@.len(),
                k <= n,
                idx <= n,
                idx == n ==> (forall|j: int|
                    0 <= j < k ==> #[trigger] file_path@.components[j] != "src"@),
                idx < n ==> first_src_at(file_path@.components, idx as int),
            decreases n - k,
        {
            if idx == n && str_eq(file_path.components[k].as_str(), "src") {
                idx = k;
            }
            k += 1;
        }
        if idx < n && idx > 0 {
            proof {
                let ghost comps = file_path@.components;
                assert(first_src_at(comps, idx as int) && idx > 0);
                let ci = choose|i: int| first_src_at(comps, i) && i > 0;
                if ci != idx {
                    if ci < idx {
                        assert(comps[ci] != "src"@);
                    } else {
                        assert(comps[idx as int] != "src"@);
                    }
                    assert(false);
                }
            }
            let tail = join_from(&file_path.components, idx - 1);
            chars_to_string(&tail)
        } else {
            proof {
                let ghost comps = file_path@.components;
                if exists|i: int| first_src_at(comps, i) && i > 0 {
                    let ci = choose|i: int| first_src_at(comps, i) && i > 0;
                    if idx == n {
                        assert(comps[ci] != "src"@);
                        assert(false);
                    } else {
                        assert(comps[idx as int] == "src"@);
                        assert(comps[0] != "src"@);
                        assert(false);
                    }
                }
            }
            file_path.render()
        }
    }
}

} // verus!
