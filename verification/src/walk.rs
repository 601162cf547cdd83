//! The module walker and the file-keyed output map.
//!
//! The walker visits a module's declarations in order, recurses into
//! submodules depth-first, filters external declarations by the
//! reference set, and appends each kept declaration's record to the
//! output entry of its defining file.  The map keeps its entries in
//! strictly ascending path order, so the assembled file list is ordered
//! and free of duplicate paths.

use vstd::prelude::*;
use vstd::string::*;
use crate::model::{DeclModel, ModuleModel, VfsModel, file_id_to_path, spec_decl_file,
    spec_decl_name, spec_vfs_path};
use crate::output::{FileTypeInfo, FileView, ItemView};
use crate::paths::{FsPath, PathView, spec_normalize, spec_path_lt, path_lt, normalize_file_path,
    lemma_path_lt_connected, lemma_path_lt_trans};
use crate::refs::RefSet;
use crate::extract::{extract_item, spec_decl_item, spec_decl_refs};

verus! {

/// One entry of the output map: the absolute path it is keyed by, and
/// the record built for that file.
pub struct FileEntry {
    pub key: FsPath,
    pub info: FileTypeInfo,
}

pub ghost struct FileEntryView {
    pub key: PathView,
    pub info: FileView,
}

impl View for FileEntry {
    type V = FileEntryView;

    open spec fn view(&self) -> FileEntryView {
        FileEntryView { key: self.key@, info: self.info@ }
    }
}

/// Entries stand in strictly ascending path order.
pub open spec fn entries_sorted(es: Seq<FileEntryView>) -> bool {
    forall|i: int, j: int|
        0 <= i < j < es.len() ==> spec_path_lt(#[trigger] es[i].key, #[trigger] es[j].key)
}

/// The output records so far, keyed and ordered by absolute path.
pub struct FileMap {
    pub entries: Vec<FileEntry>,
}

impl View for FileMap {
    type V = Seq<FileEntryView>;

    open spec fn view(&self) -> Seq<FileEntryView> {
        self.entries@.map_values(|e: FileEntry| e@)
    }
}

/// Where `key` stands, or would be inserted, in ascending order.
pub open spec fn spec_lower_bound(es: Seq<FileEntryView>, key: PathView) -> int
    decreases es.len(),
{
    if es.len() == 0 {
        0
    } else if spec_path_lt(es[0].key, key) {
        1 + spec_lower_bound(es.drop_first(), key)
    } else {
        0
    }
}

/// The map after looking up `key`, creating its entry if absent, and the
/// position of that entry.
pub open spec fn spec_get_or_create(es: Seq<FileEntryView>, key: PathView, path_str: Seq<char>) -> (
    Seq<FileEntryView>,
    int,
) {
    let idx = spec_lower_bound(es, key);
    if idx < es.len() && es[idx].key == key {
        (es, idx)
    } else {
        (es.insert(idx, FileEntryView { key, info: FileView { path: path_str, items: Seq::empty() } }),
        idx)
    }
}

proof fn lemma_lower_bound_at(es: Seq<FileEntryView>, key: PathView, k: int)
    requires
        0 <= k <= es.len(),
        forall|j: int| 0 <= j < k ==> spec_path_lt(#[trigger] es[j].key, key),
        k < es.len() ==> !spec_path_lt(es[k].key, key),
    ensures
        spec_lower_bound(es, key) == k,
    decreases k,
{
    if k == 0 {
    } else {
        assert(spec_path_lt(es[0].key, key));
        lemma_lower_bound_at(es.drop_first(), key, k - 1);
    }
}

pub proof fn lemma_lower_bound_props(es: Seq<FileEntryView>, key: PathView)
    ensures
        0 <= spec_lower_bound(es, key) <= es.len(),
        forall|j: int|
            0 <= j < spec_lower_bound(es, key) ==> spec_path_lt(#[trigger] es[j].key, key),
        spec_lower_bound(es, key) < es.len() ==> !spec_path_lt(
            es[spec_lower_bound(es, key)].key,
            key,
        ),
    decreases es.len(),
{
    if es.len() == 0 {
    } else if spec_path_lt(es[0].key, key) {
        lemma_lower_bound_props(es.drop_first(), key);
        let lb = spec_lower_bound(es, key);
        assert forall|j: int| 0 <= j < lb implies spec_path_lt(#[trigger] es[j].key, key) by {
            if j > 0 {
                assert(spec_path_lt(es.drop_first()[j - 1].key, key));
            }
        }
        if lb < es.len() {
            assert(es.drop_first()[lb - 1] == es[lb]);
        }
    } else {
    }
}

impl FileMap {
    pub fn new() -> (r: FileMap)
        ensures
            r@ == Seq::<FileEntryView>::empty(),
            entries_sorted(r@),
    {
        let r = FileMap { entries: Vec::new() };
        proof {
            assert(r@ =~= Seq::<FileEntryView>::empty());
        }
        r
    }

    fn lower_bound(&self, key: &FsPath) -> (idx: usize)
        ensures
            idx as int == spec_lower_bound(self@, key@),
    {
        let n = self.entries.len();
        let mut idx: usize = 0;
        while idx < n && path_lt(&self.entries[idx].key, key)
            invariant
                n == self.entries@.len(),
                n == self@.len(),
                idx <= n,
                forall|j: int| 0 <= j < idx ==> spec_path_lt(#[trigger] self@[j].key, key@),
            decreases n - idx,
        {
            idx += 1;
        }
        proof {
            lemma_lower_bound_at(self@, key@, idx as int);
        }
        idx
    }

    /// The position of `key`'s entry, after creating it if it was
    /// absent; a created entry records the normalized path and no items.
    pub fn get_or_create(&mut self, key: &FsPath, project_dir: &FsPath, is_external: bool) -> (idx:
        usize)
        requires
            entries_sorted(old(self)@),
        ensures
            entries_sorted(final(self)@),
            (final(self)@, idx as int) == spec_get_or_create(
                old(self)@,
                key@,
                spec_normalize(key@, project_dir@, is_external),
            ),
            idx < final(self)@.len(),
            final(self)@[idx as int].key == key@,
    {
        let idx = self.lower_bound(key);
        proof {
            lemma_lower_bound_props(self@, key@);
        }
        if idx < self.entries.len() && self.entries[idx].key.same_as(key) {
            idx
        } else {
            let ghost before = self@;
            let info = FileTypeInfo {
                source_file: normalize_file_path(key, project_dir, is_external),
                items: Vec::new(),
            };
            let entry = FileEntry { key: key.clone(), info };
            let ghost ev = entry;
            self.entries.insert(idx, entry);
            proof {
                assert(ev@.info.items =~= Seq::<ItemView>::empty());
                assert(ev@ == FileEntryView {
                    key: key@,
                    info: FileView {
                        path: spec_normalize(key@, project_dir@, is_external),
                        items: Seq::empty(),
                    },
                });
                assert(self@ =~= before.insert(idx as int, ev@));
                if idx < before.len() {
                    lemma_path_lt_connected(before[idx as int].key, key@);
                    assert(spec_path_lt(key@, before[idx as int].key));
                }
                assert forall|i: int, j: int| 0 <= i < j < self@.len() implies spec_path_lt(
                    #[trigger] self@[i].key,
                    #[trigger] self@[j].key,
                ) by {
                    if j < idx {
                        assert(spec_path_lt(before[i].key, before[j].key));
                    } else if i < idx && j == idx {
                        assert(spec_path_lt(before[i].key, key@));
                    } else if i < idx && j > idx {
                        if j - 1 == idx {
                            lemma_path_lt_trans(before[i].key, key@, before[idx as int].key);
                        } else {
                            assert(spec_path_lt(before[i].key, before[j - 1].key));
                        }
                    } else if i == idx && j > idx {
                        if j - 1 == idx {
                        } else {
                            lemma_path_lt_trans(
                                key@,
                                before[idx as int].key,
                                before[j - 1].key,
                            );
                        }
                    } else {
                        assert(spec_path_lt(before[i - 1].key, before[j - 1].key));
                    }
                }
            }
            idx
        }
    }
}

/// Whether a declaration is extracted: local declarations always,
/// submodules always (they must be traversed), and any other external
/// declaration only when its display name is already referenced.
pub open spec fn spec_should_extract(d: DeclModel, is_external: bool, refs: Set<Seq<char>>) -> bool {
    if !is_external {
        true
    } else {
        match d {
            DeclModel::Module(_) => true,
            _ => match spec_decl_name(d) {
                Some(n) => refs.contains(n),
                None => false,
            },
        }
    }
}

/// Decides whether to extract a declaration, by the reachability filter.
pub fn should_extract_def(referenced_types: &RefSet, def: &DeclModel, is_external: bool) -> (r:
    bool)
    ensures
        r == spec_should_extract(*def, is_external, referenced_types@),
{
    if !is_external {
        return true;
    }
    if let DeclModel::Module(_) = def {
        return true;
    }
    match def.display_name() {
        Some(name) => referenced_types.contains(name.as_str()),
        None => false,
    }
}

/// The two pieces of state the walker threads along: the reference set
/// and the file-keyed output map.
pub ghost struct WalkState {
    pub refs: Set<Seq<char>>,
    pub files: Seq<FileEntryView>,
}

/// The map after appending `item`, if any, to the entry at `idx`.
pub open spec fn spec_push_entry_item(
    es: Seq<FileEntryView>,
    idx: int,
    item: Option<ItemView>,
) -> Seq<FileEntryView> {
    match item {
        None => es,
        Some(iv) => es.update(
            idx,
            FileEntryView {
                key: es[idx].key,
                info: FileView { path: es[idx].info.path, items: es[idx].info.items.push(iv) },
            },
        ),
    }
}

/// The walker's step for one declaration: filter, recurse into a
/// submodule, or resolve the defining file and extract the record.
pub open spec fn spec_walk_decl(
    d: DeclModel,
    st: WalkState,
    is_external: bool,
    vfs: VfsModel,
    proj: PathView,
) -> WalkState
    decreases d,
{
    if !spec_should_extract(d, is_external, st.refs) {
        st
    } else {
        match d {
            DeclModel::Module(m) => spec_walk_decls(m.decls@, st, is_external, vfs, proj),
            _ => match spec_decl_file(d) {
                None => st,
                Some(fid) => match spec_vfs_path(vfs, fid) {
                    None => st,
                    Some(p) => {
                        let r = spec_get_or_create(
                            st.files,
                            p@,
                            spec_normalize(p@, proj, is_external),
                        );
                        WalkState {
                            refs: st.refs.union(spec_decl_refs(d)),
                            files: spec_push_entry_item(r.0, r.1, spec_decl_item(d, is_external)),
                        }
                    },
                },
            },
        }
    }
}

/// The walker over a declaration list, left to right.
pub open spec fn spec_walk_decls(
    decls: Seq<DeclModel>,
    st: WalkState,
    is_external: bool,
    vfs: VfsModel,
    proj: PathView,
) -> WalkState
    decreases decls,
{
    if decls.len() == 0 {
        st
    } else {
        spec_walk_decl(
            decls.last(),
            spec_walk_decls(decls.drop_last(), st, is_external, vfs, proj),
            is_external,
            vfs,
            proj,
        )
    }
}

/// Walks a module's declarations in order, depth-first through
/// submodules, extracting each kept declaration into the record of its
/// defining file.
#[verifier::rlimit(50)]
pub fn extract_module_items_by_file(
    referenced_types: &mut RefSet,
    module: &ModuleModel,
    file_infos: &mut FileMap,
    is_external: bool,
    vfs: &VfsModel,
    project_dir: &FsPath,
)
    requires
        entries_sorted(old(file_infos)@),
    ensures
        entries_sorted(final(file_infos)@),
        final(referenced_types)@ == spec_walk_decls(
            module.decls@,
            WalkState { refs: old(referenced_types)@, files: old(file_infos)@ },
            is_external,
            *vfs,
            project_dir@,
        ).refs,
        final(file_infos)@ == spec_walk_decls(
            module.decls@,
            WalkState { refs: old(referenced_types)@, files: old(file_infos)@ },
            is_external,
            *vfs,
            project_dir@,
        ).files,
    decreases *module,
{
    let ghost st0 = WalkState { refs: referenced_types@, files: file_infos@ };
    let n = module.decls.len();
    let mut i: usize = 0;
    while i < n
        invariant
            n == module.decls@.len(),
            i <= n,
            entries_sorted(file_infos@),
            referenced_types@ == spec_walk_decls(
                module.decls@.take(i as int),
                st0,
                is_external,
                *vfs,
                project_dir@,
            ).refs,
            file_infos@ == spec_walk_decls(
                module.decls@.take(i as int),
                st0,
                is_external,
                *vfs,
                project_dir@,
            ).files,
        decreases n - i,
    {
        let ghost pre_st = spec_walk_decls(
            module.decls@.take(i as int),
            st0,
            is_external,
            *vfs,
            project_dir@,
        );
        proof {
            let post = module.decls@.take(i as int + 1);
            assert(post.drop_last() =~= module.decls@.take(i as int));
            assert(post.last() == module.decls@[i as int]);
            assert(spec_walk_decls(post, st0, is_external, *vfs, project_dir@) == spec_walk_decl(
                module.decls@[i as int],
                pre_st,
                is_external,
                *vfs,
                project_dir@,
            ));
        }
        let def = &module.decls[i];
        if should_extract_def(referenced_types, def, is_external) {
            match def {
                DeclModel::Module(m) => {
                    proof {
                        assert(decreases_to!(*module => module.decls));
                        assert(decreases_to!(module.decls => module.decls@));
                        assert(decreases_to!(module.decls@ => module.decls@[i as int]));
                        assert(decreases_to!(module.decls@[i as int] => *m));
                    }
                    extract_module_items_by_file(
                        referenced_types,
                        m,
                        file_infos,
                        is_external,
                        vfs,
                        project_dir,
                    );
                },
                _ => {
                    match def.file_id() {
                        None => {},
                        Some(fid) => {
                            match file_id_to_path(vfs, fid) {
                                None => {},
                                Some(file_path) => {
                                    let idx = file_infos.get_or_create(
                                        &file_path,
                                        project_dir,
                                        is_external,
                                    );
                                    let ghost files1 = file_infos@;
                                    let mut entry = file_infos.entries.remove(idx);
                                    extract_item(
                                        referenced_types,
                                        def,
                                        &mut entry.info,
                                        is_external,
                                    );
                                    let ghost ev2 = entry@;
                                    file_infos.entries.insert(idx, entry);
                                    proof {
                                        assert(file_infos@ =~= files1.update(idx as int, ev2));
                                        assert(file_infos@ =~= spec_push_entry_item(
                                            files1,
                                            idx as int,
                                            spec_decl_item(
                                                module.decls@[i as int],
                                                is_external,
                                            ),
                                        ));
                                        assert forall|a: int, b: int|
                                            0 <= a < b < file_infos@.len() implies spec_path_lt(
                                            #[trigger] file_infos@[a].key,
                                            #[trigger] file_infos@[b].key,
                                        ) by {
                                            assert(file_infos@[a].key == files1[a].key);
                                            assert(file_infos@[b].key == files1[b].key);
                                        }
                                    }
                                },
                            }
                        },
                    }
                },
            }
        }
        proof {
            assert(referenced_types@ == spec_walk_decls(
                module.decls@.take(i as int + 1),
                st0,
                is_external,
                *vfs,
                project_dir@,
            ).refs);
            assert(file_infos@ == spec_walk_decls(
                module.decls@.take(i as int + 1),
                st0,
                is_external,
                *vfs,
                project_dir@,
            ).files);
        }
        i += 1;
    }
    proof {
        assert(module.decls@.take(n as int) =~= module.decls@);
    }
}

} // verus!
