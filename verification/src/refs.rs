//! The reference set: capitalized identifiers seen in local source.
//!
//! During the local phase every rendered type string and every import path
//! feeds this set; during the external phase it is the sole gate deciding
//! which dependency items are kept.  The set only ever grows within a run.

use vstd::prelude::*;
use vstd::string::*;
use crate::text::{char_alphanumeric, char_uppercase, is_alphanumeric_char, is_uppercase_char,
    str_eq, str_to_chars, str_views, chars_to_string};

verus! {

/// A character that can stand inside an identifier-like token.
pub open spec fn is_word_char(c: char) -> bool {
    char_alphanumeric(c) || c == '_'
}

/// The token occupying positions `i..j` of `s` is a maximal run of word
/// characters.
pub open spec fn word_at(s: Seq<char>, i: int, j: int) -> bool {
    &&& 0 <= i < j <= s.len()
    &&& (forall|k: int| i <= k < j ==> is_word_char(#[trigger] s[k]))
    &&& (i == 0 || !is_word_char(s[i - 1]))
    &&& (j == s.len() || !is_word_char(s[j]))
}

/// The maximal word-character runs of `s` that end at or before position
/// `m` and start with an uppercase letter.
pub open spec fn cap_words_upto(s: Seq<char>, m: int) -> Set<Seq<char>> {
    Set::new(
        |w: Seq<char>|
            exists|i: int, j: int|
                word_at(s, i, j) && j <= m && char_uppercase(s[i]) && w == s.subrange(i, j),
    )
}

/// The maximal word-character runs of `s` that start with an uppercase
/// letter: the candidate type names of a rendered type string.
pub open spec fn cap_words(s: Seq<char>) -> Set<Seq<char>> {
    cap_words_upto(s, s.len() as int)
}

/// The set of capitalized identifiers collected from local code.
pub struct RefSet {
    names: Vec<String>,
}

impl View for RefSet {
    type V = Set<Seq<char>>;

    closed spec fn view(&self) -> Set<Seq<char>> {
        Set::new(|w: Seq<char>| exists|k: int| 0 <= k < self.names@.len() && self.names@[k]@ == w)
    }
}

impl RefSet {
    pub fn new() -> (r: RefSet)
        ensures
            r@ == Set::<Seq<char>>::empty(),
    {
        let r = RefSet { names: Vec::new() };
        proof {
            assert(r@ =~= Set::<Seq<char>>::empty());
        }
        r
    }

    /// Whether `name` has been recorded.
    pub fn contains(&self, name: &str) -> (r: bool)
        ensures
            r == self@.contains(name@),
    {
        let n = self.names.len();
        let mut k: usize = 0;
        while k < n
            invariant
                n == self.names@.len(),
                k <= n,
                forall|j: int| 0 <= j < k ==> self.names@[j]@ != name@,
            decreases n - k,
        {
            if str_eq(self.names[k].as_str(), name) {
                return true;
            }
            k += 1;
        }
        false
    }

    /// Record `name`; recording an already-present name changes nothing.
    pub fn insert(&mut self, name: String)
        ensures
            final(self)@ == old(self)@.insert(name@),
    {
        if !self.contains(name.as_str()) {
            let ghost before = self@;
            let ghost w = name@;
            let ghost old_names = self.names@;
            self.names.push(name);
            proof {
                assert(self.names@ == old_names.push(name));
                assert forall|w2: Seq<char>| #[trigger] before.insert(w).contains(w2)
                    implies self@.contains(w2) by {
                    if w2 == w {
                        assert(self.names@[old_names.len() as int]@ == w2);
                    } else {
                        let k = choose|k: int| 0 <= k < old_names.len() && old_names[k]@ == w2;
                        assert(self.names@[k]@ == w2);
                    }
                }
                assert forall|w2: Seq<char>| self@.contains(w2) implies before.insert(w).contains(
                    w2,
                ) by {
                    let k = choose|k: int|
                        0 <= k < self.names@.len() && self.names@[k]@ == w2;
                    if k < old_names.len() {
                        assert(old_names[k]@ == w2);
                        assert(before.contains(w2));
                    } else {
                        assert(w2 == w);
                    }
                }
                assert(self@ =~= before.insert(w));
            }
        } else {
            proof {
                assert(self@ =~= old(self)@.insert(name@));
            }
        }
    }
}

/// The characters of `cs` between `start` and `end`, as a string.
fn word_of(cs: &Vec<char>, start: usize, end: usize) -> (r: String)
    requires
        start <= end <= cs@.len(),
    ensures
        r@ == cs@.subrange(start as int, end as int),
{
    let mut w: Vec<char> = Vec::new();
    let mut k: usize = start;
    while k < end
        invariant
            start <= k <= end <= cs@.len(),
            w@ == cs@.subrange(start as int, k as int),
        decreases end - k,
    {
        w.push(cs[k]);
        proof {
            assert(w@ =~= cs@.subrange(start as int, k as int + 1));
        }
        k += 1;
    }
    chars_to_string(&w)
}

/// Splits a rendered type string at every character that is neither
/// alphanumeric nor an underscore and records each non-empty token that
/// starts with an uppercase letter.
pub fn extract_type_names(type_str: &str, referenced_types: &mut RefSet)
    ensures
        final(referenced_types)@ == old(referenced_types)@.union(cap_words(type_str@)),
{
    let ghost s = type_str@;
    let ghost before = referenced_types@;
    let cs = str_to_chars(type_str);
    let n = cs.len();
    let mut i: usize = 0;
    let mut start: usize = 0;
    let mut in_word: bool = false;
    while i < n
        invariant
            cs@ == s,
            n == s.len(),
            i <= n,
            in_word ==> start < i,
            in_word ==> (forall|k: int| start <= k < i ==> is_word_char(#[trigger] s[k])),
            in_word ==> (start == 0 || !is_word_char(s[start as int - 1])),
            !in_word ==> (i == 0 || !is_word_char(s[i as int - 1])),
            in_word ==> referenced_types@ == before.union(cap_words_upto(s, start as int)),
            !in_word ==> referenced_types@ == before.union(cap_words_upto(s, i as int)),
        decreases n - i,
    {
        let c = cs[i];
        let word_char = is_alphanumeric_char(c) || c == '_';
        if word_char {
            if !in_word {
                start = i;
                in_word = true;
                proof {
                    assert(cap_words_upto(s, start as int) =~= cap_words_upto(s, i as int));
                }
            }
        } else {
            if in_word {
                if is_uppercase_char(cs[start]) {
                    let w = word_of(&cs, start, i);
                    referenced_types.insert(w);
                }
                in_word = false;
                proof {
                    lemma_close_run(s, start as int, i as int);
                    assert(referenced_types@ =~= before.union(cap_words_upto(s, i as int + 1)));
                }
            } else {
                proof {
                    lemma_no_new_word(s, i as int);
                    assert(cap_words_upto(s, i as int + 1) =~= cap_words_upto(s, i as int));
                }
            }
        }
        i += 1;
    }
    if in_word {
        if is_uppercase_char(cs[start]) {
            let w = word_of(&cs, start, n);
            referenced_types.insert(w);
        }
        proof {
            lemma_close_run(s, start as int, n as int);
            assert(referenced_types@ =~= before.union(cap_words(s)));
        }
    } else {
        proof {
            assert(referenced_types@ =~= before.union(cap_words(s)));
        }
    }
}

/// A maximal run `start..j` closed at `j` (by the string's end or a
/// non-word character) is the only word ending in `(start, j]`.
proof fn lemma_close_run(s: Seq<char>, start: int, j: int)
    requires
        0 <= start < j <= s.len(),
        forall|k: int| start <= k < j ==> is_word_char(#[trigger] s[k]),
        start == 0 || !is_word_char(s[start - 1]),
        j == s.len() || !is_word_char(s[j]),
    ensures
        word_at(s, start, j),
        forall|i0: int, j0: int|
            word_at(s, i0, j0) && start < j0 <= j ==> i0 == start && j0 == j,
{
    assert forall|i0: int, j0: int|
        word_at(s, i0, j0) && start < j0 <= j implies i0 == start && j0 == j by {
        if j0 < j {
            assert(is_word_char(s[j0]));
            assert(false);
        }
        if i0 < start {
            assert(is_word_char(s[start - 1]));
            assert(false);
        }
        if i0 > start {
            assert(is_word_char(s[i0 - 1]));
            assert(false);
        }
    }
}

/// One `use`-tree node as the syntax tree shows it: the segment names of
/// its path, and the path segments of each sub-tree inside a trailing
/// group list such as `{Serialize, Deserialize}`.
pub struct UseTreeSyntax {
    pub segments: Vec<String>,
    pub group: Vec<Vec<String>>,
}

/// A name that looks like a type: non-empty and starting uppercase.
pub open spec fn cap_name(w: Seq<char>) -> bool {
    w.len() > 0 && char_uppercase(w[0])
}

/// The names among `names` that look like types.
pub open spec fn cap_names(names: Seq<Seq<char>>) -> Set<Seq<char>> {
    Set::new(|w: Seq<char>| cap_name(w) && names.contains(w))
}


/// All path segment names inside a group list, in order.
pub open spec fn group_names(g: Seq<Vec<String>>) -> Seq<Seq<char>>
    decreases g.len(),
{
    if g.len() == 0 {
        Seq::empty()
    } else {
        group_names(g.drop_last()) + str_views(g.last()@)
    }
}

/// The type-looking names that one `use`-tree node contributes.
pub open spec fn use_tree_refs(t: UseTreeSyntax) -> Set<Seq<char>> {
    cap_names(str_views(t.segments@) + group_names(t.group@))
}

/// The type-looking names contributed by all `use`-tree nodes of a file.
pub open spec fn import_refs(trees: Seq<UseTreeSyntax>) -> Set<Seq<char>>
    decreases trees.len(),
{
    if trees.len() == 0 {
        Set::empty()
    } else {
        import_refs(trees.drop_last()).union(use_tree_refs(trees.last()))
    }
}

proof fn lemma_cap_names_push(names: Seq<Seq<char>>, x: Seq<char>)
    ensures
        cap_name(x) ==> cap_names(names.push(x)) =~= cap_names(names).insert(x),
        !cap_name(x) ==> cap_names(names.push(x)) =~= cap_names(names),
{
    assert forall|w: Seq<char>| #[trigger] cap_names(names.push(x)).contains(w)
        implies cap_names(names).contains(w) || w == x by {
        let k = choose|k: int| 0 <= k < names.push(x).len() && names.push(x)[k] == w;
        if k < names.len() {
            assert(names[k] == w);
            assert(names.contains(w));
        }
    }
    assert forall|w: Seq<char>| cap_names(names).contains(w) implies cap_names(
        names.push(x),
    ).contains(w) by {
        let k = choose|k: int| 0 <= k < names.len() && names[k] == w;
        assert(names.push(x)[k] == w);
        assert(names.push(x).contains(w));
    }
    if cap_name(x) {
        assert(names.push(x)[names.len() as int] == x);
        assert(names.push(x).contains(x));
    }
}

proof fn lemma_cap_names_concat(a: Seq<Seq<char>>, b: Seq<Seq<char>>)
    ensures
        cap_names(a + b) =~= cap_names(a).union(cap_names(b)),
{
    assert forall|w: Seq<char>| #[trigger] (a + b).contains(w) implies a.contains(w)
        || b.contains(w) by {
        let k = choose|k: int| 0 <= k < (a + b).len() && (a + b)[k] == w;
        if k < a.len() {
            assert(a[k] == w);
        } else {
            assert(b[k - a.len()] == w);
        }
    }
    assert forall|w: Seq<char>| a.contains(w) || b.contains(w) implies #[trigger] (a
        + b).contains(w) by {
        if a.contains(w) {
            let k = choose|k: int| 0 <= k < a.len() && a[k] == w;
            assert((a + b)[k] == w);
        } else {
            let k = choose|k: int| 0 <= k < b.len() && b[k] == w;
            assert((a + b)[a.len() + k] == w);
        }
    }
}

/// Records every name in `names` that is non-empty and starts uppercase.
fn insert_cap_names(names: &Vec<String>, referenced_types: &mut RefSet)
    ensures
        final(referenced_types)@ == old(referenced_types)@.union(cap_names(str_views(names@))),
{
    let ghost before = referenced_types@;
    let n = names.len();
    let mut k: usize = 0;
    while k < n
        invariant
            n == names@.len(),
            k <= n,
            referenced_types@ == before.union(cap_names(str_views(names@.take(k as int)))),
        decreases n - k,
    {
        let name = &names[k];
        let mut is_cap = false;
        if !name.as_str().is_empty() {
            if is_uppercase_char(name.as_str().get_char(0)) {
                is_cap = true;
            }
        }
        proof {
            assert(str_views(names@.take(k as int + 1)) =~= str_views(names@.take(k as int)).push(
                names@[k as int]@,
            ));
            lemma_cap_names_push(str_views(names@.take(k as int)), names@[k as int]@);
        }
        if is_cap {
            referenced_types.insert(name.clone());
            proof {
                assert(referenced_types@ =~= before.union(
                    cap_names(str_views(names@.take(k as int + 1))),
                ));
            }
        } else {
            proof {
                assert(referenced_types@ =~= before.union(
                    cap_names(str_views(names@.take(k as int + 1))),
                ));
            }
        }
        k += 1;
    }
    proof {
        assert(names@.take(n as int) =~= names@);
    }
}

/// Records the type-looking names of one `use`-tree node: every segment
/// of its path, and every segment of each path in its group list.
pub fn extract_use_tree_types(use_tree: &UseTreeSyntax, referenced_types: &mut RefSet)
    ensures
        final(referenced_types)@ == old(referenced_types)@.union(use_tree_refs(*use_tree)),
{
    let ghost before = referenced_types@;
    insert_cap_names(&use_tree.segments, referenced_types);
    let n = use_tree.group.len();
    let mut g: usize = 0;
    while g < n
        invariant
            n == use_tree.group@.len(),
            g <= n,
            referenced_types@ == before.union(cap_names(str_views(use_tree.segments@))).union(
                cap_names(group_names(use_tree.group@.take(g as int))),
            ),
        decreases n - g,
    {
        insert_cap_names(&use_tree.group[g], referenced_types);
        proof {
            let pre = use_tree.group@.take(g as int);
            let post = use_tree.group@.take(g as int + 1);
            assert(post.drop_last() =~= pre);
            assert(post.last() == use_tree.group@[g as int]);
            assert(group_names(post) == group_names(pre) + str_views(
                use_tree.group@[g as int]@,
            ));
            lemma_cap_names_concat(group_names(pre), str_views(use_tree.group@[g as int]@));
            assert(referenced_types@ =~= before.union(cap_names(str_views(use_tree.segments@))).union(
                cap_names(group_names(post)),
            ));
        }
        g += 1;
    }
    proof {
        assert(use_tree.group@.take(n as int) =~= use_tree.group@);
        lemma_cap_names_concat(str_views(use_tree.segments@), group_names(use_tree.group@));
        assert(referenced_types@ =~= before.union(use_tree_refs(*use_tree)));
    }
}

/// Records the import references of every `use`-tree node of one parsed
/// file, in order.
pub fn extract_imports_from_file(trees: &Vec<UseTreeSyntax>, referenced_types: &mut RefSet)
    ensures
        final(referenced_types)@ == old(referenced_types)@.union(import_refs(trees@)),
{
    let ghost before = referenced_types@;
    let n = trees.len();
    let mut i: usize = 0;
    while i < n
        invariant
            n == trees@.len(),
            i <= n,
            referenced_types@ == before.union(import_refs(trees@.take(i as int))),
        decreases n - i,
    {
        extract_use_tree_types(&trees[i], referenced_types);
        proof {
            let post = trees@.take(i as int + 1);
            assert(post.drop_last() =~= trees@.take(i as int));
            assert(post.last() == trees@[i as int]);
            assert(referenced_types@ =~= before.union(import_refs(post)));
        }
        i += 1;
    }
    proof {
        assert(trees@.take(n as int) =~= trees@);
    }
}

/// No word ends just past a non-word character.
proof fn lemma_no_new_word(s: Seq<char>, i: int)
    requires
        0 <= i < s.len(),
        !is_word_char(s[i]),
    ensures
        forall|i0: int, j0: int| word_at(s, i0, j0) ==> j0 != i + 1,
{
    assert forall|i0: int, j0: int| word_at(s, i0, j0) implies j0 != i + 1 by {
        if j0 == i + 1 {
            assert(is_word_char(s[i]));
        }
    }
}

} // verus!
