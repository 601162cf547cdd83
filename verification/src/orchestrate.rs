//! The extraction orchestrator: metadata registration, the import scan
//! over local module trees, the two extraction phases, and the assembly
//! of the output document.
//!
//! Phase one walks every local crate unfiltered while the reference set
//! accumulates; phase two walks every external crate outside the
//! standard-library family, keeping only referenced items.

use vstd::prelude::*;
use vstd::string::*;
use crate::model::{CrateModel, DeclModel, ModuleModel, VfsModel, WorkspaceModel};
use crate::output::{CrateMetadata, CrateMetaView, ForgenOutput, FileTypeInfo, OutputView};
use crate::paths::{FsPath, PathView};
use crate::refs::{RefSet, extract_imports_from_file, import_refs};
use crate::text::str_eq;
use crate::walk::{FileEntryView, FileMap, WalkState, entries_sorted, extract_module_items_by_file,
    spec_walk_decls};
use crate::workspace::{CargoInfo, PackageView, spec_cargo_lookup};

verus! {

/// The mutable state of one extraction run.
pub struct ExtractionState {
    pub file_infos: FileMap,
    pub crate_metadata: Vec<CrateMetadata>,
    pub referenced_types: RefSet,
}

impl ExtractionState {
    pub fn new() -> (r: ExtractionState)
        ensures
            r.file_infos@ == Seq::<FileEntryView>::empty(),
            entries_sorted(r.file_infos@),
            r.crate_metadata@.map_values(|c: CrateMetadata| c@) == Seq::<CrateMetaView>::empty(),
            r.referenced_types@ == Set::<Seq<char>>::empty(),
    {
        let r = ExtractionState {
            file_infos: FileMap::new(),
            crate_metadata: Vec::new(),
            referenced_types: RefSet::new(),
        };
        proof {
            assert(r.crate_metadata@.map_values(|c: CrateMetadata| c@) =~= Seq::<
                CrateMetaView,
            >::empty());
        }
        r
    }
}

/// The name a crate is registered under: its display name, or the
/// stand-in when the engine reports none.
pub open spec fn spec_crate_name(c: CrateModel) -> Seq<char> {
    match c.display_name {
        Some(n) => n@,
        None => "<unnamed>"@,
    }
}

/// Whether the metadata list already holds an entry under `name`.
pub open spec fn spec_has_crate(cs: Seq<CrateMetaView>, name: Seq<char>) -> bool {
    exists|k: int| 0 <= k < cs.len() && cs[k].name == name
}

/// The metadata list after registering a crate: the first sighting of a
/// name wins, later ones change nothing.
pub open spec fn spec_register(
    cs: Seq<CrateMetaView>,
    name: Seq<char>,
    cargo: Seq<PackageView>,
    is_local: bool,
) -> Seq<CrateMetaView> {
    if spec_has_crate(cs, name) {
        cs
    } else {
        cs.push(
            CrateMetaView {
                name,
                version: match spec_cargo_lookup(cargo, name) {
                    Some(p) => Some(p.version),
                    None => None,
                },
                features: match spec_cargo_lookup(cargo, name) {
                    Some(p) => p.features,
                    None => Seq::empty(),
                },
                local: is_local,
            },
        )
    }
}

/// Registers a crate's metadata; an already-registered name is left
/// untouched.
pub fn register_crate_metadata(
    krate: &CrateModel,
    cargo_info: &CargoInfo,
    is_local: bool,
    crate_metadata: &mut Vec<CrateMetadata>,
)
    ensures
        final(crate_metadata)@.map_values(|c: CrateMetadata| c@) == spec_register(
            old(crate_metadata)@.map_values(|c: CrateMetadata| c@),
            spec_crate_name(*krate),
            cargo_info@,
            is_local,
        ),
{
    let display_name = match &krate.display_name {
        Some(n) => n.clone(),
        None => "<unnamed>".to_owned(),
    };
    let ghost before = crate_metadata@.map_values(|c: CrateMetadata| c@);
    let n = crate_metadata.len();
    let mut k: usize = 0;
    let mut found = false;
    while k < n && !found
        invariant
            n == crate_metadata@.len(),
            k <= n,
            display_name@ == spec_crate_name(*krate),
            before == crate_metadata@.map_values(|c: CrateMetadata| c@),
            !found ==> (forall|j: int| 0 <= j < k ==> #[trigger] before[j].name != display_name@),
            found ==> spec_has_crate(before, display_name@),
        decreases n - k,
    {
        if str_eq(crate_metadata[k].name.as_str(), display_name.as_str()) {
            proof {
                assert(before[k as int].name == display_name@);
            }
            found = true;
        }
        k += 1;
    }
    if !found {
        proof {
            if spec_has_crate(before, display_name@) {
                let j = choose|j: int| 0 <= j < before.len() && before[j].name == display_name@;
                assert(before[j].name != display_name@);
                assert(false);
            }
        }
        let (version, features) = match cargo_info.lookup(display_name.as_str()) {
            Some(pair) => (Some(pair.0), pair.1),
            None => (None, Vec::new()),
        };
        let entry = CrateMetadata::new(display_name, version, features, is_local);
        let ghost ev = entry;
        let ghost pre = crate_metadata@;
        crate_metadata.push(entry);
        proof {
            pre.lemma_push_map_commute(|c: CrateMetadata| c@, ev);
            let looked = spec_cargo_lookup(cargo_info@, spec_crate_name(*krate));
            assert(ev@.name == spec_crate_name(*krate));
            assert(ev@.version == match looked {
                Some(p) => Some(p.version),
                None => None::<Seq<char>>,
            });
            if looked is None {
                assert(ev@.features =~= Seq::<Seq<char>>::empty());
            }
            assert(ev@.features == match looked {
                Some(p) => p.features,
                None => Seq::<Seq<char>>::empty(),
            });
            assert(ev@ == spec_register(
                before,
                spec_crate_name(*krate),
                cargo_info@,
                is_local,
            ).last());
            assert(crate_metadata@.map_values(|c: CrateMetadata| c@) =~= spec_register(
                before,
                spec_crate_name(*krate),
                cargo_info@,
                is_local,
            ));
        }
    }
}

/// The import references of a module tree: the `use`-tree names of the
/// module's own file, and those of every submodule, recursively.
pub open spec fn module_imports_refs(m: ModuleModel) -> Set<Seq<char>>
    decreases m,
{
    import_refs(m.imports@).union(decls_imports_refs(m.decls@))
}

pub open spec fn decls_imports_refs(decls: Seq<DeclModel>) -> Set<Seq<char>>
    decreases decls,
{
    if decls.len() == 0 {
        Set::empty()
    } else {
        decls_imports_refs(decls.drop_last()).union(
            match decls.last() {
                DeclModel::Module(m) => module_imports_refs(m),
                _ => Set::empty(),
            },
        )
    }
}

/// Records the import references of a module and, depth-first, of its
/// submodules.
pub fn extract_module_imports(referenced_types: &mut RefSet, module: &ModuleModel)
    ensures
        final(referenced_types)@ == old(referenced_types)@.union(module_imports_refs(*module)),
    decreases *module,
{
    let ghost before = referenced_types@;
    extract_imports_from_file(&module.imports, referenced_types);
    let n = module.decls.len();
    let mut i: usize = 0;
    while i < n
        invariant
            n == module.decls@.len(),
            i <= n,
            referenced_types@ == before.union(import_refs(module.imports@)).union(
                decls_imports_refs(module.decls@.take(i as int)),
            ),
        decreases n - i,
    {
        proof {
            let post = module.decls@.take(i as int + 1);
            assert(post.drop_last() =~= module.decls@.take(i as int));
            assert(post.last() == module.decls@[i as int]);
        }
        match &module.decls[i] {
            DeclModel::Module(m) => {
                proof {
                    assert(decreases_to!(*module => module.decls));
                    assert(decreases_to!(module.decls => module.decls@));
                    assert(decreases_to!(module.decls@ => module.decls@[i as int]));
                    assert(decreases_to!(module.decls@[i as int] => *m));
                }
                extract_module_imports(referenced_types, m);
                proof {
                    assert(referenced_types@ =~= before.union(import_refs(module.imports@)).union(
                        decls_imports_refs(module.decls@.take(i as int + 1)),
                    ));
                }
            },
            _ => {
                proof {
                    assert(referenced_types@ =~= before.union(import_refs(module.imports@)).union(
                        decls_imports_refs(module.decls@.take(i as int + 1)),
                    ));
                }
            },
        }
        i += 1;
    }
    proof {
        assert(module.decls@.take(n as int) =~= module.decls@);
        assert(before.union(import_refs(module.imports@)).union(
            decls_imports_refs(module.decls@),
        ) =~= before.union(module_imports_refs(*module)));
    }
}

/// The orchestrator's state: registered metadata, the reference set,
/// and the file-keyed output map.
pub ghost struct OrchState {
    pub metadata: Seq<CrateMetaView>,
    pub refs: Set<Seq<char>>,
    pub files: Seq<FileEntryView>,
}

/// Processing one crate: register its metadata; for a local crate, scan
/// its imports; then walk its root module.
pub open spec fn spec_process_crate(
    c: CrateModel,
    st: OrchState,
    cargo: Seq<PackageView>,
    vfs: VfsModel,
    proj: PathView,
    is_local: bool,
) -> OrchState {
    let metadata = spec_register(st.metadata, spec_crate_name(c), cargo, is_local);
    let refs1 = if is_local {
        st.refs.union(module_imports_refs(c.root))
    } else {
        st.refs
    };
    let w = spec_walk_decls(
        c.root.decls@,
        WalkState { refs: refs1, files: st.files },
        !is_local,
        vfs,
        proj,
    );
    OrchState { metadata, refs: w.refs, files: w.files }
}

/// Processes a single crate, local or external.
pub fn process_crate(
    krate: &CrateModel,
    cargo_info: &CargoInfo,
    vfs: &VfsModel,
    project_dir: &FsPath,
    state: &mut ExtractionState,
    is_local: bool,
)
    requires
        entries_sorted(old(state).file_infos@),
    ensures
        entries_sorted(final(state).file_infos@),
        ({
            let post = spec_process_crate(
                *krate,
                OrchState {
                    metadata: old(state).crate_metadata@.map_values(|c: CrateMetadata| c@),
                    refs: old(state).referenced_types@,
                    files: old(state).file_infos@,
                },
                cargo_info@,
                *vfs,
                project_dir@,
                is_local,
            );
            &&& final(state).crate_metadata@.map_values(|c: CrateMetadata| c@) == post.metadata
            &&& final(state).referenced_types@ == post.refs
            &&& final(state).file_infos@ == post.files
        }),
{
    register_crate_metadata(krate, cargo_info, is_local, &mut state.crate_metadata);
    if is_local {
        extract_module_imports(&mut state.referenced_types, &krate.root);
    }
    extract_module_items_by_file(
        &mut state.referenced_types,
        &krate.root,
        &mut state.file_infos,
        !is_local,
        vfs,
        project_dir,
    );
}

/// A crate of the standard-library family, excluded from the external
/// phase.
pub open spec fn spec_is_std_name(n: Seq<char>) -> bool {
    n == "std"@ || n == "core"@ || n == "alloc"@ || n == "proc_macro"@ || n == "test"@
}

pub open spec fn spec_is_std_crate(c: CrateModel) -> bool {
    match c.display_name {
        Some(n) => spec_is_std_name(n@),
        None => false,
    }
}

/// Whether a crate belongs to the excluded standard-library family.
pub fn is_std_crate(krate: &CrateModel) -> (r: bool)
    ensures
        r == spec_is_std_crate(*krate),
{
    match &krate.display_name {
        Some(n) => str_eq(n.as_str(), "std") || str_eq(n.as_str(), "core") || str_eq(
            n.as_str(),
            "alloc",
        ) || str_eq(n.as_str(), "proc_macro") || str_eq(n.as_str(), "test"),
        None => false,
    }
}

/// Phase one: every local crate, in order, unfiltered.
pub open spec fn spec_phase1(
    crates: Seq<CrateModel>,
    st: OrchState,
    cargo: Seq<PackageView>,
    vfs: VfsModel,
    proj: PathView,
) -> OrchState
    decreases crates.len(),
{
    if crates.len() == 0 {
        st
    } else {
        let st1 = spec_phase1(crates.drop_last(), st, cargo, vfs, proj);
        if crates.last().local {
            spec_process_crate(crates.last(), st1, cargo, vfs, proj, true)
        } else {
            st1
        }
    }
}

/// Phase two: every external crate outside the standard-library family,
/// in order, filtered by the reference set.
pub open spec fn spec_phase2(
    crates: Seq<CrateModel>,
    st: OrchState,
    cargo: Seq<PackageView>,
    vfs: VfsModel,
    proj: PathView,
) -> OrchState
    decreases crates.len(),
{
    if crates.len() == 0 {
        st
    } else {
        let st1 = spec_phase2(crates.drop_last(), st, cargo, vfs, proj);
        if !crates.last().local && !spec_is_std_crate(crates.last()) {
            spec_process_crate(crates.last(), st1, cargo, vfs, proj, false)
        } else {
            st1
        }
    }
}

/// A whole extraction run over a workspace snapshot, from empty state.
pub open spec fn spec_extract(
    w: WorkspaceModel,
    cargo: Seq<PackageView>,
    vfs: VfsModel,
    proj: PathView,
) -> OrchState {
    let st0 = OrchState {
        metadata: Seq::empty(),
        refs: Set::empty(),
        files: Seq::empty(),
    };
    spec_phase2(w.crates@, spec_phase1(w.crates@, st0, cargo, vfs, proj), cargo, vfs, proj)
}

/// Runs both extraction phases over the workspace snapshot and returns
/// the file-keyed records and the crate metadata.
pub fn extract_type_info_by_file(
    workspace: &WorkspaceModel,
    vfs: &VfsModel,
    project_dir: &FsPath,
    cargo_info: &CargoInfo,
) -> (r: (FileMap, Vec<CrateMetadata>))
    ensures
        entries_sorted(r.0@),
        r.0@ == spec_extract(*workspace, cargo_info@, *vfs, project_dir@).files,
        r.1@.map_values(|c: CrateMetadata| c@) == spec_extract(
            *workspace,
            cargo_info@,
            *vfs,
            project_dir@,
        ).metadata,
{
    let mut state = ExtractionState::new();
    let ghost st0 = OrchState {
        metadata: Seq::empty(),
        refs: Set::empty(),
        files: Seq::empty(),
    };
    let n = workspace.crates.len();
    let mut i: usize = 0;
    while i < n
        invariant
            n == workspace.crates@.len(),
            i <= n,
            entries_sorted(state.file_infos@),
            ({
                let st = spec_phase1(
                    workspace.crates@.take(i as int),
                    st0,
                    cargo_info@,
                    *vfs,
                    project_dir@,
                );
                &&& state.crate_metadata@.map_values(|c: CrateMetadata| c@) == st.metadata
                &&& state.referenced_types@ == st.refs
                &&& state.file_infos@ == st.files
            }),
        decreases n - i,
    {
        proof {
            let post = workspace.crates@.take(i as int + 1);
            assert(post.drop_last() =~= workspace.crates@.take(i as int));
            assert(post.last() == workspace.crates@[i as int]);
        }
        if workspace.crates[i].local {
            process_crate(&workspace.crates[i], cargo_info, vfs, project_dir, &mut state, true);
        }
        i += 1;
    }
    proof {
        assert(workspace.crates@.take(n as int) =~= workspace.crates@);
    }
    let ghost st1 = spec_phase1(workspace.crates@, st0, cargo_info@, *vfs, project_dir@);
    let mut i: usize = 0;
    while i < n
        invariant
            n == workspace.crates@.len(),
            i <= n,
            entries_sorted(state.file_infos@),
            ({
                let st = spec_phase2(
                    workspace.crates@.take(i as int),
                    st1,
                    cargo_info@,
                    *vfs,
                    project_dir@,
                );
                &&& state.crate_metadata@.map_values(|c: CrateMetadata| c@) == st.metadata
                &&& state.referenced_types@ == st.refs
                &&& state.file_infos@ == st.files
            }),
        decreases n - i,
    {
        proof {
            let post = workspace.crates@.take(i as int + 1);
            assert(post.drop_last() =~= workspace.crates@.take(i as int));
            assert(post.last() == workspace.crates@[i as int]);
        }
        if !workspace.crates[i].local && !is_std_crate(&workspace.crates[i]) {
            process_crate(&workspace.crates[i], cargo_info, vfs, project_dir, &mut state, false);
        }
        i += 1;
    }
    proof {
        assert(workspace.crates@.take(n as int) =~= workspace.crates@);
    }
    (state.file_infos, state.crate_metadata)
}

/// The assembled document of one run: the registered metadata and the
/// per-file records in ascending path order.
pub open spec fn spec_analyze(
    w: WorkspaceModel,
    cargo: Seq<PackageView>,
    vfs: VfsModel,
    proj: PathView,
) -> OutputView {
    let st = spec_extract(w, cargo, vfs, proj);
    OutputView { crates: st.metadata, files: st.files.map_values(|e: FileEntryView| e.info) }
}

/// Runs a full extraction and assembles the output document.
pub fn analyze(
    workspace: &WorkspaceModel,
    vfs: &VfsModel,
    project_dir: &FsPath,
    cargo_info: &CargoInfo,
) -> (r: ForgenOutput)
    ensures
        r@ == spec_analyze(*workspace, cargo_info@, *vfs, project_dir@),
{
    let (file_infos, crate_metadata) = extract_type_info_by_file(
        workspace,
        vfs,
        project_dir,
        cargo_info,
    );
    let ghost entry_views = file_infos@;
    let mut entries = file_infos.entries;
    let mut files: Vec<FileTypeInfo> = Vec::new();
    proof {
        assert(files@.map_values(|f: FileTypeInfo| f@) =~= entry_views.map_values(
            |e: FileEntryView| e.info,
        ).take(0));
    }
    while entries.len() > 0
        invariant
            files@.len() + entries@.len() == entry_views.len(),
            files@.map_values(|f: FileTypeInfo| f@) == entry_views.map_values(
                |e: FileEntryView| e.info,
            ).take(files@.len() as int),
            forall|j: int|
                0 <= j < entries@.len() ==> #[trigger] entries@[j]@ == entry_views[files@.len()
                    + j],
        decreases entries@.len(),
    {
        let ghost pre_files = files@;
        let ghost pre_entries = entries@;
        let entry = entries.remove(0);
        proof {
            assert(pre_entries[0]@ == entry_views[pre_files.len() as int]);
            assert(entry@ == entry_views[pre_files.len() as int]);
            assert forall|j: int| 0 <= j < entries@.len() implies #[trigger] entries@[j]@
                == entry_views[pre_files.len() + 1 + j] by {
                assert(entries@[j] == pre_entries[j + 1]);
                assert(pre_entries[j + 1]@ == entry_views[pre_files.len() + (j + 1)]);
            }
        }
        let ghost fv = entry.info;
        files.push(entry.info);
        proof {
            pre_files.lemma_push_map_commute(|f: FileTypeInfo| f@, fv);
            assert(fv@ == entry_views[pre_files.len() as int].info);
            assert(files@.map_values(|f: FileTypeInfo| f@) =~= entry_views.map_values(
                |e: FileEntryView| e.info,
            ).take(files@.len() as int));
        }
    }
    proof {
        assert(entry_views.map_values(|e: FileEntryView| e.info).take(files@.len() as int)
            =~= entry_views.map_values(|e: FileEntryView| e.info));
    }
    let output = ForgenOutput { crates: crate_metadata, files };
    proof {
        assert(output@ == spec_analyze(*workspace, cargo_info@, *vfs, project_dir@));
    }
    output
}

} // verus!
