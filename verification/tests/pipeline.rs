use forgen::extract::{extract_function_body, extract_local_var, format_id};
use forgen::model::{BodyNode, BodySyntax, ClosureParamSyntax, ClosureSyntax, CrateModel,
    DeclModel, FieldDecl, FunctionDecl, LetSyntax, ModuleModel, ParamDecl, PatSyntax, StructDecl,
    VfsModel};
use forgen::orchestrate::analyze;
use forgen::output::{ForgenOutput, ItemInfo};
use forgen::paths::{normalize_file_path, FsPath};
use forgen::refs::{extract_imports_from_file, extract_type_names, extract_use_tree_types, RefSet,
    UseTreeSyntax};
use forgen::serialize::to_json;
use forgen::workspace::{cargo_info_from_packages, CargoInfo, PackageMeta};

fn s(t: &str) -> String {
    t.to_string()
}

fn abs(parts: &[&str]) -> FsPath {
    FsPath { absolute: true, components: parts.iter().map(|p| s(p)).collect() }
}

fn rel(parts: &[&str]) -> FsPath {
    FsPath { absolute: false, components: parts.iter().map(|p| s(p)).collect() }
}

fn leaf_module(decls: Vec<DeclModel>) -> ModuleModel {
    ModuleModel { imports: Vec::new(), decls }
}

fn point_struct(file: Option<usize>) -> DeclModel {
    DeclModel::Struct(StructDecl {
        name: s("Point"),
        id: s("Struct ( 0 )"),
        fields: vec![
            FieldDecl { name: s("x"), ty: s("f64") },
            FieldDecl { name: s("y"), ty: s("f64") },
        ],
        file,
    })
}

fn distance_fn(file: Option<usize>) -> DeclModel {
    DeclModel::Function(FunctionDecl {
        name: s("distance"),
        id: s("Function ( 1 )"),
        params: vec![
            ParamDecl { name: Some(s("p1")), ty: s("&Point") },
            ParamDecl { name: Some(s("p2")), ty: s("&Point") },
        ],
        ret_ty: s("f64"),
        body: Some(BodySyntax { nodes: Vec::new() }),
        file,
    })
}

fn one_crate_workspace(krate: CrateModel) -> forgen::model::WorkspaceModel {
    forgen::model::WorkspaceModel { crates: vec![krate] }
}

fn empty_cargo() -> CargoInfo {
    CargoInfo::new()
}

#[test]
fn collects_capitalized_words_from_type_strings() {
    let mut set = RefSet::new();
    extract_type_names("Vec<String>", &mut set);
    assert!(set.contains("Vec"));
    assert!(set.contains("String"));
    assert!(!set.contains("Vec<String>"));
    extract_type_names("&Option<Foo>", &mut set);
    assert!(set.contains("Option"));
    assert!(set.contains("Foo"));
    assert!(!set.contains("foo"));
}

#[test]
fn lowercase_and_empty_tokens_are_not_collected() {
    let mut set = RefSet::new();
    extract_type_names("", &mut set);
    extract_type_names("foo_bar baz", &mut set);
    assert!(!set.contains("foo_bar"));
    assert!(!set.contains("baz"));
    assert!(!set.contains(""));
}

#[test]
fn underscores_stay_inside_one_token() {
    let mut set = RefSet::new();
    extract_type_names("Foo_Bar", &mut set);
    assert!(set.contains("Foo_Bar"));
    assert!(!set.contains("Foo"));
    assert!(!set.contains("Bar"));
}

#[test]
fn use_tree_segments_and_groups_are_collected() {
    let mut set = RefSet::new();
    let tree = UseTreeSyntax {
        segments: vec![s("serde"), s("Serialize")],
        group: vec![vec![s("Deserialize")], vec![s("de"), s("Error")]],
    };
    extract_use_tree_types(&tree, &mut set);
    assert!(set.contains("Serialize"));
    assert!(set.contains("Deserialize"));
    assert!(set.contains("Error"));
    assert!(!set.contains("serde"));
    assert!(!set.contains("de"));
}

#[test]
fn imports_of_a_file_are_collected_in_order() {
    let mut set = RefSet::new();
    let trees = vec![
        UseTreeSyntax { segments: vec![s("std"), s("fmt"), s("Debug")], group: vec![] },
        UseTreeSyntax { segments: vec![s("crate"), s("Config")], group: vec![] },
    ];
    extract_imports_from_file(&trees, &mut set);
    assert!(set.contains("Debug"));
    assert!(set.contains("Config"));
    assert!(!set.contains("std"));
}

#[test]
fn local_path_is_stripped_of_the_project_prefix() {
    let file = abs(&["home", "u", "proj", "src", "main.rs"]);
    let proj = abs(&["home", "u", "proj"]);
    assert_eq!(normalize_file_path(&file, &proj, false), "src/main.rs");
}

#[test]
fn local_path_outside_the_project_falls_back_to_itself() {
    let file = abs(&["opt", "x", "lib.rs"]);
    let proj = abs(&["home", "u", "proj"]);
    assert_eq!(normalize_file_path(&file, &proj, false), "/opt/x/lib.rs");
}

#[test]
fn external_path_keeps_the_crate_directory_before_src() {
    let file = abs(&["reg", "cache", "serde-1.0.0", "src", "lib.rs"]);
    let proj = abs(&["home", "u", "proj"]);
    assert_eq!(normalize_file_path(&file, &proj, true), "serde-1.0.0/src/lib.rs");
}

#[test]
fn external_path_with_leading_src_falls_back_to_itself() {
    let file = rel(&["src", "lib.rs"]);
    let proj = abs(&["home", "u", "proj"]);
    assert_eq!(normalize_file_path(&file, &proj, true), "src/lib.rs");
}

#[test]
fn external_path_without_src_falls_back_to_itself() {
    let file = abs(&["build", "out", "gen.rs"]);
    let proj = abs(&["home", "u", "proj"]);
    assert_eq!(normalize_file_path(&file, &proj, true), "/build/out/gen.rs");
}

#[test]
fn first_src_component_decides_the_external_suffix() {
    let file = abs(&["cache", "dep-2.0", "src", "nested", "src", "a.rs"]);
    let proj = abs(&["home"]);
    assert_eq!(normalize_file_path(&file, &proj, true), "dep-2.0/src/nested/src/a.rs");
}

#[test]
fn format_id_strips_every_space() {
    assert_eq!(format_id("Struct ( StructId { id: 42 } )"), "Struct(StructId{id:42})");
    assert_eq!(format_id("nospace"), "nospace");
}

#[test]
fn local_without_annotation_gets_the_sentinel() {
    let stmt = LetSyntax {
        pat: Some(PatSyntax::Ident { mutable: true, name: Some(s("count")) }),
        ty_annotation: None,
    };
    let lv = extract_local_var(&stmt, 0).unwrap();
    assert_eq!(lv.ty, "<inferred>");
    assert_eq!(lv.name.as_deref(), Some("count"));
    assert!(lv.mutable);
    assert_eq!(lv.id, 0);
}

#[test]
fn local_with_annotation_keeps_the_annotation_text() {
    let stmt = LetSyntax {
        pat: Some(PatSyntax::Ident { mutable: false, name: Some(s("x")) }),
        ty_annotation: Some(s("Vec<u8>")),
    };
    let lv = extract_local_var(&stmt, 3).unwrap();
    assert_eq!(lv.ty, "Vec<u8>");
    assert!(!lv.mutable);
    assert_eq!(lv.id, 3);
}

#[test]
fn destructuring_pattern_yields_no_name() {
    let stmt = LetSyntax { pat: Some(PatSyntax::Other), ty_annotation: None };
    let lv = extract_local_var(&stmt, 1).unwrap();
    assert!(lv.name.is_none());
    assert!(!lv.mutable);
}

#[test]
fn body_scan_numbers_locals_and_closures_separately() {
    let body = BodySyntax {
        nodes: vec![
            BodyNode::Let(LetSyntax {
                pat: Some(PatSyntax::Ident { mutable: false, name: Some(s("a")) }),
                ty_annotation: None,
            }),
            BodyNode::Closure(ClosureSyntax {
                params: Some(vec![ClosureParamSyntax { name: None, ty_annotation: None }]),
                ret_annotation: Some(s("i32")),
            }),
            BodyNode::Let(LetSyntax { pat: None, ty_annotation: None }),
            BodyNode::Let(LetSyntax {
                pat: Some(PatSyntax::Ident { mutable: true, name: Some(s("b")) }),
                ty_annotation: Some(s("u8")),
            }),
        ],
    };
    let func = FunctionDecl {
        name: s("f"),
        id: s("Function(9)"),
        params: vec![],
        ret_ty: s("()"),
        body: Some(body),
        file: Some(0),
    };
    let info = extract_function_body(&func).unwrap();
    assert_eq!(info.locals.len(), 2);
    assert_eq!(info.locals[0].id, 0);
    assert_eq!(info.locals[0].name.as_deref(), Some("a"));
    assert_eq!(info.locals[1].id, 1);
    assert_eq!(info.locals[1].name.as_deref(), Some("b"));
    assert_eq!(info.locals[1].ty, "u8");
    assert_eq!(info.closures.len(), 1);
    assert_eq!(info.closures[0].id, 0);
    assert_eq!(info.closures[0].params[0].name, "_0");
    assert_eq!(info.closures[0].params[0].ty, "<inferred>");
    assert_eq!(info.closures[0].return_type, "i32");
}

#[test]
fn point_and_distance_are_extracted_into_one_file() {
    let krate = CrateModel {
        display_name: Some(s("demo")),
        local: true,
        root: leaf_module(vec![point_struct(Some(0)), distance_fn(Some(0))]),
    };
    let vfs = VfsModel { files: vec![Some(abs(&["proj", "src", "lib.rs"]))] };
    let proj = abs(&["proj"]);
    let out = analyze(&one_crate_workspace(krate), &vfs, &proj, &empty_cargo());
    assert_eq!(out.files.len(), 1);
    assert_eq!(out.files[0].source_file, "src/lib.rs");
    assert_eq!(out.files[0].items.len(), 2);
    match &out.files[0].items[0] {
        ItemInfo::Struct { name, fields, .. } => {
            assert_eq!(name, "Point");
            assert_eq!(fields.len(), 2);
            assert_eq!(fields[0].name, "x");
            assert_eq!(fields[0].ty, "f64");
            assert_eq!(fields[1].name, "y");
            assert_eq!(fields[1].ty, "f64");
        },
        _ => panic!("expected a struct record first"),
    }
    match &out.files[0].items[1] {
        ItemInfo::Function { name, params, return_type, .. } => {
            assert_eq!(name, "distance");
            assert_eq!(params.len(), 2);
            assert_eq!(params[0].name, "p1");
            assert_eq!(params[0].ty, "&Point");
            assert_eq!(params[1].ty, "&Point");
            assert_eq!(return_type, "f64");
        },
        _ => panic!("expected a function record second"),
    }
}

fn item_names(out: &ForgenOutput) -> Vec<String> {
    let mut names = Vec::new();
    for f in &out.files {
        for item in &f.items {
            let n = match item {
                ItemInfo::Function { name, .. } => name,
                ItemInfo::Struct { name, .. } => name,
                ItemInfo::Enum { name, .. } => name,
                ItemInfo::Trait { name, .. } => name,
                ItemInfo::TypeAlias { name, .. } => name,
                ItemInfo::Const { name, .. } => name,
                ItemInfo::Static { name, .. } => name,
            };
            names.push(n.clone());
        }
    }
    names
}

fn serde_like_workspace() -> (forgen::model::WorkspaceModel, VfsModel) {
    let local = CrateModel {
        display_name: Some(s("app")),
        local: true,
        root: ModuleModel {
            imports: vec![UseTreeSyntax { segments: vec![s("dep"), s("Serialize")], group: vec![] }],
            decls: vec![DeclModel::Function(FunctionDecl {
                name: s("run"),
                id: s("Function(0)"),
                params: vec![],
                ret_ty: s("()"),
                body: None,
                file: Some(0),
            })],
        },
    };
    let external = CrateModel {
        display_name: Some(s("dep")),
        local: false,
        root: leaf_module(vec![
            DeclModel::Struct(StructDecl {
                name: s("Serialize"),
                id: s("Struct(7)"),
                fields: vec![],
                file: Some(1),
            }),
            DeclModel::Struct(StructDecl {
                name: s("Helper"),
                id: s("Struct(8)"),
                fields: vec![],
                file: Some(1),
            }),
        ]),
    };
    let vfs = VfsModel {
        files: vec![
            Some(abs(&["proj", "src", "main.rs"])),
            Some(abs(&["cache", "dep-1.0", "src", "lib.rs"])),
        ],
    };
    (forgen::model::WorkspaceModel { crates: vec![local, external] }, vfs)
}

#[test]
fn referenced_external_item_is_kept_and_unreferenced_is_dropped() {
    let (w, vfs) = serde_like_workspace();
    let out = analyze(&w, &vfs, &abs(&["proj"]), &empty_cargo());
    let names = item_names(&out);
    assert!(names.iter().any(|n| n == "Serialize"));
    assert!(!names.iter().any(|n| n == "Helper"));
    let dep_file = out.files.iter().find(|f| f.source_file == "dep-1.0/src/lib.rs").unwrap();
    assert_eq!(dep_file.items.len(), 1);
}

#[test]
fn external_items_reached_only_through_submodules_are_still_found() {
    let local = CrateModel {
        display_name: Some(s("app")),
        local: true,
        root: ModuleModel {
            imports: vec![UseTreeSyntax { segments: vec![s("Deep")], group: vec![] }],
            decls: vec![],
        },
    };
    let external = CrateModel {
        display_name: Some(s("dep")),
        local: false,
        root: leaf_module(vec![DeclModel::Module(leaf_module(vec![DeclModel::Struct(
            StructDecl { name: s("Deep"), id: s("Struct(3)"), fields: vec![], file: Some(0) },
        )]))]),
    };
    let vfs = VfsModel { files: vec![Some(abs(&["cache", "dep-1.0", "src", "deep.rs"]))] };
    let w = forgen::model::WorkspaceModel { crates: vec![local, external] };
    let out = analyze(&w, &vfs, &abs(&["proj"]), &empty_cargo());
    assert!(item_names(&out).iter().any(|n| n == "Deep"));
}

#[test]
fn std_family_crates_are_excluded_from_the_external_phase() {
    let local = CrateModel {
        display_name: Some(s("app")),
        local: true,
        root: ModuleModel {
            imports: vec![UseTreeSyntax { segments: vec![s("Vec")], group: vec![] }],
            decls: vec![],
        },
    };
    let std_crate = CrateModel {
        display_name: Some(s("alloc")),
        local: false,
        root: leaf_module(vec![DeclModel::Struct(StructDecl {
            name: s("Vec"),
            id: s("Struct(1)"),
            fields: vec![],
            file: Some(0),
        })]),
    };
    let vfs = VfsModel { files: vec![Some(abs(&["toolchain", "alloc", "src", "vec.rs"]))] };
    let w = forgen::model::WorkspaceModel { crates: vec![local, std_crate] };
    let out = analyze(&w, &vfs, &abs(&["proj"]), &empty_cargo());
    assert!(item_names(&out).is_empty());
    assert!(out.crates.iter().all(|c| c.name != "alloc"));
}

#[test]
fn re_extraction_after_a_change_has_the_new_function_without_duplicates() {
    let make = |with_new_fn: bool| {
        let mut decls = vec![distance_fn(Some(0))];
        if with_new_fn {
            decls.push(DeclModel::Function(FunctionDecl {
                name: s("midpoint"),
                id: s("Function(2)"),
                params: vec![],
                ret_ty: s("Point"),
                body: None,
                file: Some(0),
            }));
        }
        let krate = CrateModel {
            display_name: Some(s("demo")),
            local: true,
            root: leaf_module(decls),
        };
        forgen::model::WorkspaceModel { crates: vec![krate] }
    };
    let vfs = VfsModel { files: vec![Some(abs(&["proj", "src", "lib.rs"]))] };
    let proj = abs(&["proj"]);
    let before = analyze(&make(false), &vfs, &proj, &empty_cargo());
    let after = analyze(&make(true), &vfs, &proj, &empty_cargo());
    assert_eq!(before.files[0].items.len(), 1);
    assert_eq!(after.files.len(), 1);
    assert_eq!(after.files[0].items.len(), 2);
    let names = item_names(&after);
    assert_eq!(names.iter().filter(|n| *n == "distance").count(), 1);
    assert_eq!(names.iter().filter(|n| *n == "midpoint").count(), 1);
}

#[test]
fn extraction_twice_over_the_same_snapshot_is_byte_identical() {
    let (w, vfs) = serde_like_workspace();
    let proj = abs(&["proj"]);
    let cargo = empty_cargo();
    let out1 = analyze(&w, &vfs, &proj, &cargo);
    let out2 = analyze(&w, &vfs, &proj, &cargo);
    assert_eq!(to_json(&out1), to_json(&out2));
}

#[test]
fn crate_names_are_registered_once_with_first_writer_winning() {
    let local = CrateModel {
        display_name: Some(s("shared")),
        local: true,
        root: leaf_module(vec![]),
    };
    let external = CrateModel {
        display_name: Some(s("shared")),
        local: false,
        root: leaf_module(vec![]),
    };
    let w = forgen::model::WorkspaceModel { crates: vec![local, external] };
    let vfs = VfsModel { files: vec![] };
    let out = analyze(&w, &vfs, &abs(&["proj"]), &empty_cargo());
    assert_eq!(out.crates.len(), 1);
    assert_eq!(out.crates[0].name, "shared");
    assert!(out.crates[0].local);
}

#[test]
fn unnamed_crates_register_under_the_stand_in_name() {
    let krate = CrateModel { display_name: None, local: true, root: leaf_module(vec![]) };
    let out = analyze(
        &one_crate_workspace(krate),
        &VfsModel { files: vec![] },
        &abs(&["proj"]),
        &empty_cargo(),
    );
    assert_eq!(out.crates.len(), 1);
    assert_eq!(out.crates[0].name, "<unnamed>");
}

#[test]
fn files_come_out_sorted_by_path() {
    let krate = CrateModel {
        display_name: Some(s("demo")),
        local: true,
        root: leaf_module(vec![point_struct(Some(1)), distance_fn(Some(0))]),
    };
    let vfs = VfsModel {
        files: vec![
            Some(abs(&["proj", "src", "zz.rs"])),
            Some(abs(&["proj", "src", "aa.rs"])),
        ],
    };
    let out = analyze(&one_crate_workspace(krate), &vfs, &abs(&["proj"]), &empty_cargo());
    assert_eq!(out.files.len(), 2);
    assert_eq!(out.files[0].source_file, "src/aa.rs");
    assert_eq!(out.files[1].source_file, "src/zz.rs");
}

#[test]
fn declarations_without_a_resolvable_file_are_skipped() {
    let krate = CrateModel {
        display_name: Some(s("demo")),
        local: true,
        root: leaf_module(vec![
            point_struct(None),
            DeclModel::Opaque,
            distance_fn(Some(5)),
        ]),
    };
    let vfs = VfsModel { files: vec![Some(abs(&["proj", "a.rs"]))] };
    let out = analyze(&one_crate_workspace(krate), &vfs, &abs(&["proj"]), &empty_cargo());
    assert!(out.files.is_empty());
}

#[test]
fn cargo_metadata_is_found_under_the_underscore_name() {
    let packages = vec![PackageMeta {
        name: s("my-dep"),
        version: s("1.2.3"),
        features: vec![s("std"), s("extra")],
    }];
    let info = cargo_info_from_packages(&packages);
    let (version, features) = info.lookup("my_dep").unwrap();
    assert_eq!(version, "1.2.3");
    assert_eq!(features, vec![s("std"), s("extra")]);
    let (version2, _) = info.lookup("my-dep").unwrap();
    assert_eq!(version2, "1.2.3");
    assert!(info.lookup("other").is_none());
}

#[test]
fn crate_metadata_carries_version_and_features_from_the_manifest() {
    let packages = vec![PackageMeta {
        name: s("demo"),
        version: s("0.3.1"),
        features: vec![s("derive")],
    }];
    let cargo = cargo_info_from_packages(&packages);
    let krate = CrateModel {
        display_name: Some(s("demo")),
        local: true,
        root: leaf_module(vec![]),
    };
    let out = analyze(
        &one_crate_workspace(krate),
        &VfsModel { files: vec![] },
        &abs(&["proj"]),
        &cargo,
    );
    assert_eq!(out.crates[0].version.as_deref(), Some("0.3.1"));
    assert_eq!(out.crates[0].features, vec![s("derive")]);
}

#[test]
fn rust_files_are_selected_from_a_change_batch() {
    let batch = vec![
        abs(&["proj", "src", "lib.rs"]),
        abs(&["proj", "notes.txt"]),
        abs(&["proj", "src", "rs"]),
        abs(&["proj", "src", "mod.rs"]),
    ];
    let picked = forgen::workspace::select_rust_files(&batch);
    assert_eq!(picked.len(), 2);
    assert_eq!(picked[0].render(), "/proj/src/lib.rs");
    assert_eq!(picked[1].render(), "/proj/src/mod.rs");
}

#[test]
fn unions_create_their_file_entry_but_no_record() {
    let krate = CrateModel {
        display_name: Some(s("demo")),
        local: true,
        root: leaf_module(vec![DeclModel::Union(forgen::model::UnionDecl {
            name: s("Raw"),
            file: Some(0),
        })]),
    };
    let vfs = VfsModel { files: vec![Some(abs(&["proj", "src", "raw.rs"]))] };
    let out = analyze(&one_crate_workspace(krate), &vfs, &abs(&["proj"]), &empty_cargo());
    assert_eq!(out.files.len(), 1);
    assert_eq!(out.files[0].source_file, "src/raw.rs");
    assert!(out.files[0].items.is_empty());
}

#[test]
fn unicode_uppercase_names_are_collected() {
    let mut set = RefSet::new();
    extract_type_names("Vec<Über>", &mut set);
    assert!(set.contains("Über"));
    extract_type_names("über", &mut set);
    assert!(!set.contains("über"));
}
