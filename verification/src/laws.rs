//! Properties of the extraction pipeline, stated and proved over the
//! specification functions that the executable contracts use.

use vstd::prelude::*;
use crate::model::{DeclModel, LetSyntax, PatSyntax, VfsModel, WorkspaceModel, spec_decl_file,
    spec_decl_name, spec_vfs_path};
use crate::output::{CrateMetaView, ItemView, spec_inferred};
use crate::orchestrate::{OrchState, spec_analyze, spec_crate_name, spec_extract, spec_has_crate,
    spec_phase1, spec_phase2, spec_register};
use crate::extract::{spec_decl_item, spec_local_view};
use crate::paths::PathView;
use crate::serialize::{json_string, local_json, output_json};
use crate::text::dec_str;
use crate::walk::{FileEntryView, WalkState, spec_get_or_create, spec_should_extract,
    spec_walk_decl, spec_walk_decls};
use crate::workspace::PackageView;

verus! {

/// Idempotence: the output document, and with it its serialized text,
/// is a function of the workspace snapshot, the manifest data, the file
/// table and the project directory alone.  Running extraction twice
/// over unchanged inputs yields byte-identical artifacts.
pub proof fn lemma_extraction_idempotent(
    w1: WorkspaceModel,
    w2: WorkspaceModel,
    cargo1: Seq<PackageView>,
    cargo2: Seq<PackageView>,
    vfs1: VfsModel,
    vfs2: VfsModel,
    proj1: PathView,
    proj2: PathView,
)
    requires
        w1 == w2,
        cargo1 == cargo2,
        vfs1 == vfs2,
        proj1 == proj2,
    ensures
        spec_analyze(w1, cargo1, vfs1, proj1) == spec_analyze(w2, cargo2, vfs2, proj2),
        output_json(spec_analyze(w1, cargo1, vfs1, proj1)) == output_json(
            spec_analyze(w2, cargo2, vfs2, proj2),
        ),
{
}

/// Sentinel correctness: a local binding without an explicit type
/// annotation carries the sentinel and its record serializes without a
/// `ty` field; one with an explicit annotation carries the annotation
/// text itself, and, unless that text happens to equal the sentinel,
/// its record serializes with a `ty` field holding exactly that text.
pub proof fn lemma_sentinel_correctness(l: LetSyntax, p: PatSyntax, id: int)
    requires
        id >= 0,
    ensures
        l.ty_annotation is None ==> spec_local_view(l, p, id).ty == spec_inferred(),
        l.ty_annotation is None ==> local_json(spec_local_view(l, p, id)) == "{"@ + (match
            spec_local_view(l, p, id).name {
            Some(n) => "\"name\":"@ + json_string(n) + ","@,
            None => Seq::empty(),
        }) + "\"id\":"@ + dec_str(id as nat) + ",\"mut\":"@ + (if spec_local_view(
            l,
            p,
            id,
        ).mutable {
            "1"@
        } else {
            "0"@
        }) + "}"@,
        l.ty_annotation matches Some(t) ==> spec_local_view(l, p, id).ty == t@,
        (l.ty_annotation matches Some(t) && t@ != spec_inferred()) ==> local_json(
            spec_local_view(l, p, id),
        ) == "{"@ + (match spec_local_view(l, p, id).name {
            Some(n) => "\"name\":"@ + json_string(n) + ","@,
            None => Seq::empty(),
        }) + ("\"ty\":"@ + json_string(spec_local_view(l, p, id).ty) + ","@) + "\"id\":"@
            + dec_str(id as nat) + ",\"mut\":"@ + (if spec_local_view(l, p, id).mutable {
            "1"@
        } else {
            "0"@
        }) + "}"@,
{
    let lv = spec_local_view(l, p, id);
    if l.ty_annotation is None {
        assert(local_json(lv) =~= "{"@ + (match lv.name {
            Some(n) => "\"name\":"@ + json_string(n) + ","@,
            None => Seq::empty(),
        }) + "\"id\":"@ + dec_str(id as nat) + ",\"mut\":"@ + (if lv.mutable {
            "1"@
        } else {
            "0"@
        }) + "}"@);
    } else {
        let t = l.ty_annotation->0;
        if t@ != spec_inferred() {
            assert(local_json(lv) =~= "{"@ + (match lv.name {
                Some(n) => "\"name\":"@ + json_string(n) + ","@,
                None => Seq::empty(),
            }) + ("\"ty\":"@ + json_string(lv.ty) + ","@) + "\"id\":"@ + dec_str(id as nat)
                + ",\"mut\":"@ + (if lv.mutable {
                "1"@
            } else {
                "0"@
            }) + "}"@);
        }
    }
}

/// No two metadata entries share a name.
pub open spec fn metadata_names_unique(cs: Seq<CrateMetaView>) -> bool {
    forall|i: int, j: int|
        0 <= i < j < cs.len() ==> (#[trigger] cs[i].name) != (#[trigger] cs[j].name)
}

proof fn lemma_register_unique(
    cs: Seq<CrateMetaView>,
    name: Seq<char>,
    cargo: Seq<PackageView>,
    is_local: bool,
)
    requires
        metadata_names_unique(cs),
    ensures
        metadata_names_unique(spec_register(cs, name, cargo, is_local)),
{
    if !spec_has_crate(cs, name) {
        let post = spec_register(cs, name, cargo, is_local);
        assert forall|i: int, j: int| 0 <= i < j < post.len() implies (#[trigger] post[i].name)
            != (#[trigger] post[j].name) by {
            if j == cs.len() {
                assert(post[i].name == cs[i].name);
                if cs[i].name == name {
                    assert(spec_has_crate(cs, name));
                }
            }
        }
    }
}

proof fn lemma_phase1_unique(
    crates: Seq<crate::model::CrateModel>,
    st: OrchState,
    cargo: Seq<PackageView>,
    vfs: VfsModel,
    proj: PathView,
)
    requires
        metadata_names_unique(st.metadata),
    ensures
        metadata_names_unique(spec_phase1(crates, st, cargo, vfs, proj).metadata),
    decreases crates.len(),
{
    if crates.len() > 0 {
        lemma_phase1_unique(crates.drop_last(), st, cargo, vfs, proj);
        let st1 = spec_phase1(crates.drop_last(), st, cargo, vfs, proj);
        if crates.last().local {
            lemma_register_unique(st1.metadata, spec_crate_name(crates.last()), cargo, true);
        }
    }
}

proof fn lemma_phase2_unique(
    crates: Seq<crate::model::CrateModel>,
    st: OrchState,
    cargo: Seq<PackageView>,
    vfs: VfsModel,
    proj: PathView,
)
    requires
        metadata_names_unique(st.metadata),
    ensures
        metadata_names_unique(spec_phase2(crates, st, cargo, vfs, proj).metadata),
    decreases crates.len(),
{
    if crates.len() > 0 {
        lemma_phase2_unique(crates.drop_last(), st, cargo, vfs, proj);
        let st1 = spec_phase2(crates.drop_last(), st, cargo, vfs, proj);
        if !crates.last().local && !crate::orchestrate::spec_is_std_crate(crates.last()) {
            lemma_register_unique(st1.metadata, spec_crate_name(crates.last()), cargo, false);
        }
    }
}

/// Metadata dedup: however many times a crate name is seen across both
/// phases, the output holds exactly one metadata entry per name.
pub proof fn lemma_metadata_dedup(
    w: WorkspaceModel,
    cargo: Seq<PackageView>,
    vfs: VfsModel,
    proj: PathView,
)
    ensures
        metadata_names_unique(spec_extract(w, cargo, vfs, proj).metadata),
{
    let st0 = OrchState { metadata: Seq::empty(), refs: Set::empty(), files: Seq::empty() };
    lemma_phase1_unique(w.crates@, st0, cargo, vfs, proj);
    lemma_phase2_unique(w.crates@, spec_phase1(w.crates@, st0, cargo, vfs, proj), cargo, vfs, proj);
}

// --- Local completeness ---

/// The items in the whole map, across all files.
pub open spec fn total_items(es: Seq<FileEntryView>) -> int
    decreases es.len(),
{
    if es.len() == 0 {
        0
    } else {
        total_items(es.drop_last()) + es.last().info.items.len()
    }
}

proof fn lemma_total_items_insert(es: Seq<FileEntryView>, idx: int, e: FileEntryView)
    requires
        0 <= idx <= es.len(),
        e.info.items.len() == 0,
    ensures
        total_items(es.insert(idx, e)) == total_items(es),
    decreases es.len(),
{
    let post = es.insert(idx, e);
    if idx == es.len() {
        assert(post.drop_last() =~= es);
        assert(post.last() == e);
    } else {
        assert(post.drop_last() =~= es.drop_last().insert(idx, e));
        assert(post.last() == es.last());
        lemma_total_items_insert(es.drop_last(), idx, e);
    }
}

proof fn lemma_total_items_update(es: Seq<FileEntryView>, idx: int, e2: FileEntryView)
    requires
        0 <= idx < es.len(),
    ensures
        total_items(es.update(idx, e2)) == total_items(es) - es[idx].info.items.len()
            + e2.info.items.len(),
    decreases es.len(),
{
    let post = es.update(idx, e2);
    if idx == es.len() - 1 {
        assert(post.drop_last() =~= es.drop_last());
        assert(post.last() == e2);
    } else {
        assert(post.drop_last() =~= es.drop_last().update(idx, e2));
        assert(post.last() == es.last());
        lemma_total_items_update(es.drop_last(), idx, e2);
    }
}

/// How many records one declaration contributes in the local phase: one
/// for each schema-kind declaration whose defining file resolves to a
/// path; submodules contribute what their own declarations contribute.
pub open spec fn local_decl_count(d: DeclModel, vfs: VfsModel) -> int
    decreases d,
{
    match d {
        DeclModel::Module(m) => local_decls_count(m.decls@, vfs),
        _ => if spec_decl_item(d, false) is Some && (match spec_decl_file(d) {
            Some(fid) => spec_vfs_path(vfs, fid) is Some,
            None => false,
        }) {
            1
        } else {
            0
        },
    }
}

pub open spec fn local_decls_count(decls: Seq<DeclModel>, vfs: VfsModel) -> int
    decreases decls,
{
    if decls.len() == 0 {
        0
    } else {
        local_decls_count(decls.drop_last(), vfs) + local_decl_count(decls.last(), vfs)
    }
}

proof fn lemma_local_walk_decl_count(d: DeclModel, st: WalkState, vfs: VfsModel, proj: PathView)
    ensures
        total_items(spec_walk_decl(d, st, false, vfs, proj).files) == total_items(st.files)
            + local_decl_count(d, vfs),
    decreases d,
{
    match d {
        DeclModel::Module(m) => {
            lemma_local_walk_decls_count(m.decls@, st, vfs, proj);
        },
        _ => {
            match spec_decl_file(d) {
                None => {},
                Some(fid) => match spec_vfs_path(vfs, fid) {
                    None => {},
                    Some(p) => {
                        let r = spec_get_or_create(
                            st.files,
                            p@,
                            crate::paths::spec_normalize(p@, proj, false),
                        );
                        crate::walk::lemma_lower_bound_props(st.files, p@);
                        if !(crate::walk::spec_lower_bound(st.files, p@) < st.files.len()
                            && st.files[crate::walk::spec_lower_bound(st.files, p@)].key == p@) {
                            lemma_total_items_insert(
                                st.files,
                                crate::walk::spec_lower_bound(st.files, p@),
                                FileEntryView {
                                    key: p@,
                                    info: crate::output::FileView {
                                        path: crate::paths::spec_normalize(p@, proj, false),
                                        items: Seq::empty(),
                                    },
                                },
                            );
                        }
                        match spec_decl_item(d, false) {
                            Some(iv) => {
                                lemma_total_items_update(
                                    r.0,
                                    r.1,
                                    FileEntryView {
                                        key: r.0[r.1].key,
                                        info: crate::output::FileView {
                                            path: r.0[r.1].info.path,
                                            items: r.0[r.1].info.items.push(iv),
                                        },
                                    },
                                );
                            },
                            None => {},
                        }
                    },
                },
            }
        },
    }
}

proof fn lemma_local_walk_decls_count(
    decls: Seq<DeclModel>,
    st: WalkState,
    vfs: VfsModel,
    proj: PathView,
)
    ensures
        total_items(spec_walk_decls(decls, st, false, vfs, proj).files) == total_items(st.files)
            + local_decls_count(decls, vfs),
    decreases decls,
{
    if decls.len() > 0 {
        lemma_local_walk_decls_count(decls.drop_last(), st, vfs, proj);
        lemma_local_walk_decl_count(
            decls.last(),
            spec_walk_decls(decls.drop_last(), st, false, vfs, proj),
            vfs,
            proj,
        );
    }
}

/// Local completeness, counted: walking a local module tree appends
/// exactly one record for every declaration of a schema kind whose
/// defining file resolves, and its record stands under the entry of
/// that file's path, which the walker resolves per declaration.
/// Unions, unnamed kinds and declarations without a resolvable file
/// contribute nothing, as the output contract says.
pub proof fn lemma_local_completeness(
    decls: Seq<DeclModel>,
    st: WalkState,
    vfs: VfsModel,
    proj: PathView,
)
    ensures
        total_items(spec_walk_decls(decls, st, false, vfs, proj).files) == total_items(st.files)
            + local_decls_count(decls, vfs),
{
    lemma_local_walk_decls_count(decls, st, vfs, proj);
}


/// How many records the local phase contributes over a whole crate
/// list.
pub open spec fn local_crates_count(
    crates: Seq<crate::model::CrateModel>,
    vfs: VfsModel,
) -> int
    decreases crates.len(),
{
    if crates.len() == 0 {
        0
    } else {
        local_crates_count(crates.drop_last(), vfs) + if crates.last().local {
            local_decls_count(crates.last().root.decls@, vfs)
        } else {
            0
        }
    }
}

proof fn lemma_phase1_total(
    crates: Seq<crate::model::CrateModel>,
    st: OrchState,
    cargo: Seq<PackageView>,
    vfs: VfsModel,
    proj: PathView,
)
    ensures
        total_items(spec_phase1(crates, st, cargo, vfs, proj).files) == total_items(st.files)
            + local_crates_count(crates, vfs),
    decreases crates.len(),
{
    if crates.len() > 0 {
        lemma_phase1_total(crates.drop_last(), st, cargo, vfs, proj);
        let st1 = spec_phase1(crates.drop_last(), st, cargo, vfs, proj);
        if crates.last().local {
            lemma_local_walk_decls_count(
                crates.last().root.decls@,
                WalkState {
                    refs: st1.refs.union(crate::orchestrate::module_imports_refs(
                        crates.last().root,
                    )),
                    files: st1.files,
                },
                vfs,
                proj,
            );
        }
    }
}

/// Local completeness over a whole run: after the local phase the
/// output holds exactly one record per qualifying local declaration.
pub proof fn lemma_local_completeness_run(
    w: WorkspaceModel,
    cargo: Seq<PackageView>,
    vfs: VfsModel,
    proj: PathView,
)
    ensures
        total_items(
            spec_phase1(
                w.crates@,
                OrchState { metadata: Seq::empty(), refs: Set::empty(), files: Seq::empty() },
                cargo,
                vfs,
                proj,
            ).files,
        ) == local_crates_count(w.crates@, vfs),
{
    let st0 = OrchState { metadata: Seq::empty(), refs: Set::empty(), files: Seq::empty() };
    lemma_phase1_total(w.crates@, st0, cargo, vfs, proj);
}

// --- External filtering soundness ---

/// The name of an item record.
pub open spec fn item_name(iv: ItemView) -> Seq<char> {
    match iv {
        ItemView::Function { name, .. } => name,
        ItemView::Struct { name, .. } => name,
        ItemView::Enum { name, .. } => name,
        ItemView::Trait { name, .. } => name,
        ItemView::TypeAlias { name, .. } => name,
        ItemView::Const { name, .. } => name,
        ItemView::Static { name, .. } => name,
    }
}

/// The item at position `k` of `key`'s entry was already there in
/// `before`.
pub open spec fn from_before(
    before: Seq<FileEntryView>,
    key: PathView,
    k: int,
    iv: ItemView,
) -> bool {
    exists|j: int|
        0 <= j < before.len() && before[j].key == key && 0 <= k < before[j].info.items.len()
            && before[j].info.items[k] == iv
}

/// Every item of `after` either stood in `before` already, at the same
/// position under the same path, or bears a name in `refs`.
pub open spec fn new_items_named_in(
    before: Seq<FileEntryView>,
    after: Seq<FileEntryView>,
    refs: Set<Seq<char>>,
) -> bool {
    forall|i: int, k: int|
        0 <= i < after.len() && 0 <= k < after[i].info.items.len() ==> {
            ||| from_before(before, after[i].key, k, #[trigger] after[i].info.items[k])
            ||| refs.contains(item_name(after[i].info.items[k]))
        }
}

proof fn lemma_sound_weaken(
    before: Seq<FileEntryView>,
    files: Seq<FileEntryView>,
    refs1: Set<Seq<char>>,
    refs2: Set<Seq<char>>,
)
    requires
        new_items_named_in(before, files, refs1),
        refs1.subset_of(refs2),
    ensures
        new_items_named_in(before, files, refs2),
{
    assert forall|i: int, k: int|
        0 <= i < files.len() && 0 <= k < files[i].info.items.len() implies {
        ||| from_before(before, files[i].key, k, #[trigger] files[i].info.items[k])
        ||| refs2.contains(item_name(files[i].info.items[k]))
    } by {
        assert(from_before(before, files[i].key, k, files[i].info.items[k]) || refs1.contains(
            item_name(files[i].info.items[k]),
        ));
    }
}

/// A record carries the display name of the declaration it was built
/// from.
proof fn lemma_decl_item_name(d: DeclModel, is_external: bool)
    ensures
        spec_decl_name(d) matches Some(n) ==> (spec_decl_item(d, is_external) matches Some(iv)
            ==> item_name(iv) == n),
{
}

proof fn lemma_external_walk_sound_decl(
    d: DeclModel,
    before: Seq<FileEntryView>,
    st: WalkState,
    vfs: VfsModel,
    proj: PathView,
)
    requires
        new_items_named_in(before, st.files, st.refs),
    ensures
        new_items_named_in(
            before,
            spec_walk_decl(d, st, true, vfs, proj).files,
            spec_walk_decl(d, st, true, vfs, proj).refs,
        ),
        st.refs.subset_of(spec_walk_decl(d, st, true, vfs, proj).refs),
    decreases d,
{
    if !spec_should_extract(d, true, st.refs) {
    } else {
        match d {
            DeclModel::Module(m) => {
                lemma_external_walk_sound_decls(m.decls@, before, st, vfs, proj);
            },
            _ => {
                match spec_decl_file(d) {
                    None => {},
                    Some(fid) => {
                        match spec_vfs_path(vfs, fid) {
                            None => {},
                            Some(p) => {
                                let key = p@;
                                let r = spec_get_or_create(
                                    st.files,
                                    key,
                                    crate::paths::spec_normalize(key, proj, true),
                                );
                                let files1 = r.0;
                                let idx = r.1;
                                let lb = crate::walk::spec_lower_bound(st.files, key);
                                crate::walk::lemma_lower_bound_props(st.files, key);
                                assert(new_items_named_in(before, files1, st.refs)) by {
                                    if !(lb < st.files.len() && st.files[lb].key == key) {
                                        let e = FileEntryView {
                                            key,
                                            info: crate::output::FileView {
                                                path: crate::paths::spec_normalize(
                                                    key,
                                                    proj,
                                                    true,
                                                ),
                                                items: Seq::empty(),
                                            },
                                        };
                                        st.files.insert_ensures(lb, e);
                                        assert(files1 == st.files.insert(lb, e));
                                        assert forall|i: int, k: int|
                                            0 <= i < files1.len() && 0 <= k
                                                < files1[i].info.items.len() implies {
                                            ||| from_before(
                                                before,
                                                files1[i].key,
                                                k,
                                                #[trigger] files1[i].info.items[k],
                                            )
                                            ||| st.refs.contains(
                                                item_name(files1[i].info.items[k]),
                                            )
                                        } by {
                                            if i < lb {
                                                assert(st.files.insert(lb, e)[i] == st.files[i]);
                                                assert(st.files[i].info.items[k]
                                                    == files1[i].info.items[k]);
                                            } else if i > lb {
                                                assert(st.files.insert(lb, e)[(i - 1) + 1]
                                                    == st.files[i - 1]);
                                                assert(st.files[i - 1].info.items[k]
                                                    == files1[i].info.items[k]);
                                            }
                                        }
                                    }
                                }
                                let w = spec_walk_decl(d, st, true, vfs, proj);
                                match spec_decl_item(d, true) {
                                    Some(iv) => {
                                        let e2 = FileEntryView {
                                            key: files1[idx].key,
                                            info: crate::output::FileView {
                                                path: files1[idx].info.path,
                                                items: files1[idx].info.items.push(iv),
                                            },
                                        };
                                        let files2 = files1.update(idx, e2);
                                        lemma_decl_item_name(d, true);
                                        assert(w.refs.contains(item_name(iv)));
                                        assert forall|i: int, k: int|
                                            0 <= i < files2.len() && 0 <= k
                                                < files2[i].info.items.len() implies {
                                            ||| from_before(
                                                before,
                                                files2[i].key,
                                                k,
                                                #[trigger] files2[i].info.items[k],
                                            )
                                            ||| w.refs.contains(
                                                item_name(files2[i].info.items[k]),
                                            )
                                        } by {
                                            if i != idx {
                                                assert(files2[i] == files1[i]);
                                                assert(from_before(
                                                    before,
                                                    files1[i].key,
                                                    k,
                                                    files1[i].info.items[k],
                                                ) || st.refs.contains(
                                                    item_name(files1[i].info.items[k]),
                                                ));
                                            } else {
                                                if k < files1[idx].info.items.len() {
                                                    assert(files2[i].info.items[k]
                                                        == files1[idx].info.items[k]);
                                                    assert(from_before(
                                                        before,
                                                        files1[idx].key,
                                                        k,
                                                        files1[idx].info.items[k],
                                                    ) || st.refs.contains(
                                                        item_name(files1[idx].info.items[k]),
                                                    ));
                                                } else {
                                                    assert(files2[i].info.items[k] == iv);
                                                }
                                            }
                                        }
                                    },
                                    None => {
                                        lemma_sound_weaken(before, files1, st.refs, w.refs);
                                    },
                                }
                            },
                        }
                    },
                }
            },
        }
    }
}

proof fn lemma_external_walk_sound_decls(
    decls: Seq<DeclModel>,
    before: Seq<FileEntryView>,
    st: WalkState,
    vfs: VfsModel,
    proj: PathView,
)
    requires
        new_items_named_in(before, st.files, st.refs),
    ensures
        new_items_named_in(
            before,
            spec_walk_decls(decls, st, true, vfs, proj).files,
            spec_walk_decls(decls, st, true, vfs, proj).refs,
        ),
        st.refs.subset_of(spec_walk_decls(decls, st, true, vfs, proj).refs),
    decreases decls,
{
    if decls.len() > 0 {
        lemma_external_walk_sound_decls(decls.drop_last(), before, st, vfs, proj);
        lemma_external_walk_sound_decl(
            decls.last(),
            before,
            spec_walk_decls(decls.drop_last(), st, true, vfs, proj),
            vfs,
            proj,
        );
    }
}

proof fn lemma_phase2_sound(
    crates: Seq<crate::model::CrateModel>,
    before: Seq<FileEntryView>,
    st: OrchState,
    cargo: Seq<PackageView>,
    vfs: VfsModel,
    proj: PathView,
)
    requires
        new_items_named_in(before, st.files, st.refs),
    ensures
        new_items_named_in(
            before,
            spec_phase2(crates, st, cargo, vfs, proj).files,
            spec_phase2(crates, st, cargo, vfs, proj).refs,
        ),
    decreases crates.len(),
{
    if crates.len() > 0 {
        lemma_phase2_sound(crates.drop_last(), before, st, cargo, vfs, proj);
        let st1 = spec_phase2(crates.drop_last(), st, cargo, vfs, proj);
        if !crates.last().local && !crate::orchestrate::spec_is_std_crate(crates.last()) {
            lemma_external_walk_sound_decls(
                crates.last().root.decls@,
                before,
                WalkState { refs: st1.refs, files: st1.files },
                vfs,
                proj,
            );
        }
    }
}

/// External filtering soundness: every item the external phase adds to
/// the output bears a name in the reference set as it stands at the end
/// of the run; an external item whose name the set never holds is
/// absent.
pub proof fn lemma_external_filtering_sound(
    w: WorkspaceModel,
    cargo: Seq<PackageView>,
    vfs: VfsModel,
    proj: PathView,
)
    ensures
        new_items_named_in(
            spec_phase1(
                w.crates@,
                OrchState { metadata: Seq::empty(), refs: Set::empty(), files: Seq::empty() },
                cargo,
                vfs,
                proj,
            ).files,
            spec_extract(w, cargo, vfs, proj).files,
            spec_extract(w, cargo, vfs, proj).refs,
        ),
{
    let st0 = OrchState { metadata: Seq::empty(), refs: Set::empty(), files: Seq::empty() };
    let ph1 = spec_phase1(w.crates@, st0, cargo, vfs, proj);
    assert(new_items_named_in(ph1.files, ph1.files, ph1.refs)) by {
        assert forall|i: int, k: int|
            0 <= i < ph1.files.len() && 0 <= k < ph1.files[i].info.items.len() implies {
            ||| from_before(ph1.files, ph1.files[i].key, k, #[trigger] ph1.files[i].info.items[k])
            ||| ph1.refs.contains(item_name(ph1.files[i].info.items[k]))
        } by {
            assert(0 <= i < ph1.files.len() && ph1.files[i].key == ph1.files[i].key && 0 <= k
                < ph1.files[i].info.items.len() && ph1.files[i].info.items[k]
                == ph1.files[i].info.items[k]);
        }
    }
    lemma_phase2_sound(w.crates@, ph1.files, ph1, cargo, vfs, proj);
}

/// The strict reading: on runs where the external phase discovers no
/// new names, every external item's name already stood in the set as
/// computed from local imports and local type positions alone.
pub proof fn lemma_external_filtering_sound_strict(
    w: WorkspaceModel,
    cargo: Seq<PackageView>,
    vfs: VfsModel,
    proj: PathView,
)
    requires
        spec_extract(w, cargo, vfs, proj).refs == spec_phase1(
            w.crates@,
            OrchState { metadata: Seq::empty(), refs: Set::empty(), files: Seq::empty() },
            cargo,
            vfs,
            proj,
        ).refs,
    ensures
        new_items_named_in(
            spec_phase1(
                w.crates@,
                OrchState { metadata: Seq::empty(), refs: Set::empty(), files: Seq::empty() },
                cargo,
                vfs,
                proj,
            ).files,
            spec_extract(w, cargo, vfs, proj).files,
            spec_phase1(
                w.crates@,
                OrchState { metadata: Seq::empty(), refs: Set::empty(), files: Seq::empty() },
                cargo,
                vfs,
                proj,
            ).refs,
        ),
{
    lemma_external_filtering_sound(w, cargo, vfs, proj);
}

} // verus!
