use forgen::model::{BodyNode, BodySyntax, CrateModel, DeclModel, EnumDecl, FieldDecl,
    FunctionDecl, LetSyntax, ModuleModel, PatSyntax, TraitDecl, AssocDecl, ConstDecl, ParamDecl,
    VariantDecl, VfsModel};
use forgen::orchestrate::analyze;
use forgen::output::{ClosureInfo, CrateMetadata, FileTypeInfo, ForgenOutput, FunctionBodyInfo,
    ItemInfo, LocalVarInfo, ParamInfo};
use forgen::paths::FsPath;
use forgen::serialize::to_json;

fn s(t: &str) -> String {
    t.to_string()
}

fn abs(parts: &[&str]) -> FsPath {
    FsPath { absolute: true, components: parts.iter().map(|p| s(p)).collect() }
}

#[test]
fn minimal_document_serializes_exactly() {
    let out = ForgenOutput {
        crates: vec![CrateMetadata::new(s("demo"), None, Vec::new(), true)],
        files: vec![FileTypeInfo {
            source_file: s("src/lib.rs"),
            items: vec![ItemInfo::Const { name: s("MAX"), id: s("Const(1)"), ty: s("u32") }],
        }],
    };
    assert_eq!(
        to_json(&out),
        "{\"crates\":[{\"name\":\"demo\",\"local\":1}],\"files\":[{\"path\":\"src/lib.rs\",\
         \"items\":[{\"kind\":\"const\",\"name\":\"MAX\",\"id\":\"Const(1)\",\"ty\":\"u32\"}]}]}"
    );
}

#[test]
fn empty_document_serializes_exactly() {
    let out = ForgenOutput { crates: Vec::new(), files: Vec::new() };
    assert_eq!(to_json(&out), "{\"crates\":[],\"files\":[]}");
}

#[test]
fn version_and_features_appear_only_when_present() {
    let out = ForgenOutput {
        crates: vec![
            CrateMetadata::new(s("a"), Some(s("1.0.0")), vec![s("std")], false),
            CrateMetadata::new(s("b"), None, Vec::new(), false),
        ],
        files: Vec::new(),
    };
    assert_eq!(
        to_json(&out),
        "{\"crates\":[{\"name\":\"a\",\"version\":\"1.0.0\",\"features\":[\"std\"]},\
         {\"name\":\"b\"}],\"files\":[]}"
    );
}

#[test]
fn string_contents_are_escaped_like_json_demands() {
    let out = ForgenOutput {
        crates: Vec::new(),
        files: vec![FileTypeInfo {
            source_file: s("a\"b\\c\nd\te\u{1}f"),
            items: Vec::new(),
        }],
    };
    assert_eq!(
        to_json(&out),
        "{\"crates\":[],\"files\":[{\"path\":\"a\\\"b\\\\c\\nd\\te\\u0001f\",\"items\":[]}]}"
    );
}

#[test]
fn inferred_types_and_empty_lists_are_omitted() {
    let body = FunctionBodyInfo {
        locals: vec![LocalVarInfo { name: None, ty: s("<inferred>"), id: 0, mutable: false }],
        closures: Vec::new(),
    };
    let item = ItemInfo::Function {
        name: s("f"),
        id: s("F0"),
        params: vec![ParamInfo { name: s("x"), ty: s("<inferred>"), type_ref: None }],
        return_type: s("()"),
        body: Some(body),
    };
    let out = ForgenOutput {
        crates: Vec::new(),
        files: vec![FileTypeInfo { source_file: s("l.rs"), items: vec![item] }],
    };
    assert_eq!(
        to_json(&out),
        "{\"crates\":[],\"files\":[{\"path\":\"l.rs\",\"items\":[{\"kind\":\"function\",\
         \"name\":\"f\",\"id\":\"F0\",\"params\":[{\"name\":\"x\"}],\"ret\":\"()\",\
         \"body\":{\"locals\":[{\"id\":0,\"mut\":0}]}}]}]}"
    );
}

#[test]
fn empty_function_body_is_omitted_entirely() {
    let item = ItemInfo::Function {
        name: s("g"),
        id: s("F1"),
        params: Vec::new(),
        return_type: s("u8"),
        body: Some(FunctionBodyInfo { locals: Vec::new(), closures: Vec::new() }),
    };
    let out = ForgenOutput {
        crates: Vec::new(),
        files: vec![FileTypeInfo { source_file: s("l.rs"), items: vec![item] }],
    };
    assert_eq!(
        to_json(&out),
        "{\"crates\":[],\"files\":[{\"path\":\"l.rs\",\"items\":[{\"kind\":\"function\",\
         \"name\":\"g\",\"id\":\"F1\",\"ret\":\"u8\"}]}]}"
    );
}

#[test]
fn closures_serialize_with_id_first_and_optional_parts() {
    let body = FunctionBodyInfo {
        locals: Vec::new(),
        closures: vec![
            ClosureInfo { id: 0, params: Vec::new(), return_type: s("<inferred>") },
            ClosureInfo {
                id: 1,
                params: vec![ParamInfo { name: s("a"), ty: s("i32"), type_ref: None }],
                return_type: s("i32"),
            },
        ],
    };
    let item = ItemInfo::Function {
        name: s("h"),
        id: s("F2"),
        params: Vec::new(),
        return_type: s("()"),
        body: Some(body),
    };
    let out = ForgenOutput {
        crates: Vec::new(),
        files: vec![FileTypeInfo { source_file: s("l.rs"), items: vec![item] }],
    };
    assert_eq!(
        to_json(&out),
        "{\"crates\":[],\"files\":[{\"path\":\"l.rs\",\"items\":[{\"kind\":\"function\",\
         \"name\":\"h\",\"id\":\"F2\",\"ret\":\"()\",\"body\":{\"closures\":[{\"id\":0},\
         {\"id\":1,\"params\":[{\"name\":\"a\",\"ty\":\"i32\"}],\"ret\":\"i32\"}]}}]}]}"
    );
}

fn sample_workspace_output() -> ForgenOutput {
    let body = BodySyntax {
        nodes: vec![
            BodyNode::Let(LetSyntax {
                pat: Some(PatSyntax::Ident { mutable: true, name: Some(s("total")) }),
                ty_annotation: None,
            }),
            BodyNode::Let(LetSyntax {
                pat: Some(PatSyntax::Ident { mutable: false, name: Some(s("label")) }),
                ty_annotation: Some(s("String")),
            }),
        ],
    };
    let decls = vec![
        DeclModel::Function(FunctionDecl {
            name: s("tally"),
            id: s("Function ( 4 )"),
            params: vec![ParamDecl { name: None, ty: s("u32") }],
            ret_ty: s("u32"),
            body: Some(body),
            file: Some(0),
        }),
        DeclModel::Enum(EnumDecl {
            name: s("Role"),
            id: s("Enum(5)"),
            variants: vec![
                VariantDecl { name: s("Guest"), fields: vec![] },
                VariantDecl {
                    name: s("Admin"),
                    fields: vec![FieldDecl { name: s("0"), ty: s("Admin") }],
                },
            ],
            file: Some(0),
        }),
        DeclModel::Trait(TraitDecl {
            name: s("Greet"),
            id: s("Trait(6)"),
            items: vec![
                AssocDecl::Function { name: s("greet"), params: vec![], ret_ty: s("String") },
                AssocDecl::TypeAlias { name: s("Out") },
                AssocDecl::Const { name: None, ty: s("usize") },
            ],
            file: Some(0),
        }),
        DeclModel::Const(ConstDecl {
            name: None,
            id: s("Const(7)"),
            ty: s("()"),
            file: Some(0),
        }),
    ];
    let krate = CrateModel {
        display_name: Some(s("demo")),
        local: true,
        root: ModuleModel { imports: vec![], decls },
    };
    let vfs = VfsModel { files: vec![Some(abs(&["proj", "src", "main.rs"]))] };
    analyze(
        &forgen::model::WorkspaceModel { crates: vec![krate] },
        &vfs,
        &abs(&["proj"]),
        &forgen::workspace::CargoInfo::new(),
    )
}

#[test]
fn artifact_parses_as_json_with_the_expected_shape() {
    let out = sample_workspace_output();
    let text = to_json(&out);
    let v: serde_json::Value = serde_json::from_str(&text).unwrap();
    assert_eq!(v["crates"][0]["name"], "demo");
    assert_eq!(v["crates"][0]["local"], 1);
    assert!(v["crates"][0].get("version").is_none());
    assert!(v["crates"][0].get("features").is_none());
    let file = &v["files"][0];
    assert_eq!(file["path"], "src/main.rs");
    let items = file["items"].as_array().unwrap();
    assert_eq!(items.len(), 4);
    assert_eq!(items[0]["kind"], "function");
    assert_eq!(items[0]["name"], "tally");
    assert_eq!(items[0]["id"], "Function(4)");
    assert_eq!(items[0]["params"][0]["name"], "_0");
    assert_eq!(items[0]["params"][0]["ty"], "u32");
    assert_eq!(items[0]["ret"], "u32");
    assert_eq!(items[1]["kind"], "enum");
    assert_eq!(items[1]["variants"].as_array().unwrap().len(), 2);
    assert!(items[1]["variants"][0].get("fields").is_none());
    assert_eq!(items[1]["variants"][1]["fields"][0]["ty"], "Admin");
    assert_eq!(items[2]["kind"], "trait");
    assert_eq!(items[2]["items"][0]["kind"], "function");
    assert_eq!(items[2]["items"][1]["kind"], "type_alias");
    assert_eq!(items[2]["items"][2]["name"], "_");
    assert_eq!(items[3]["kind"], "const");
    assert_eq!(items[3]["name"], "_");
}

#[test]
fn local_bindings_serialize_with_and_without_ty() {
    let out = sample_workspace_output();
    let text = to_json(&out);
    let v: serde_json::Value = serde_json::from_str(&text).unwrap();
    let body = &v["files"][0]["items"][0]["body"];
    let locals = body["locals"].as_array().unwrap();
    assert_eq!(locals.len(), 2);
    assert_eq!(locals[0]["name"], "total");
    assert!(locals[0].get("ty").is_none());
    assert_eq!(locals[0]["id"], 0);
    assert_eq!(locals[0]["mut"], 1);
    assert_eq!(locals[1]["name"], "label");
    assert_eq!(locals[1]["ty"], "String");
    assert_eq!(locals[1]["mut"], 0);
    assert!(body.get("closures").is_none());
}

#[test]
fn external_functions_carry_no_body_detail() {
    let local = CrateModel {
        display_name: Some(s("app")),
        local: true,
        root: ModuleModel {
            imports: vec![forgen::refs::UseTreeSyntax {
                segments: vec![s("Helper")],
                group: vec![],
            }],
            decls: vec![],
        },
    };
    let body = BodySyntax {
        nodes: vec![BodyNode::Let(LetSyntax {
            pat: Some(PatSyntax::Ident { mutable: false, name: Some(s("x")) }),
            ty_annotation: None,
        })],
    };
    let external = CrateModel {
        display_name: Some(s("dep")),
        local: false,
        root: ModuleModel {
            imports: vec![],
            decls: vec![DeclModel::Function(FunctionDecl {
                name: s("Helper"),
                id: s("Function(3)"),
                params: vec![],
                ret_ty: s("()"),
                body: Some(body),
                file: Some(0),
            })],
        },
    };
    let vfs = VfsModel { files: vec![Some(abs(&["cache", "dep-0.1", "src", "lib.rs"]))] };
    let out = analyze(
        &forgen::model::WorkspaceModel { crates: vec![local, external] },
        &vfs,
        &abs(&["proj"]),
        &forgen::workspace::CargoInfo::new(),
    );
    let text = to_json(&out);
    let v: serde_json::Value = serde_json::from_str(&text).unwrap();
    let item = &v["files"][0]["items"][0];
    assert_eq!(item["name"], "Helper");
    assert!(item.get("body").is_none());
}

#[test]
fn type_alias_and_static_records_serialize_exactly() {
    let out = ForgenOutput {
        crates: Vec::new(),
        files: vec![FileTypeInfo {
            source_file: s("l.rs"),
            items: vec![
                ItemInfo::TypeAlias { name: s("Id"), id: s("T1"), target: s("u64") },
                ItemInfo::Static { name: s("COUNT"), id: s("S1"), ty: s("u32") },
            ],
        }],
    };
    assert_eq!(
        to_json(&out),
        "{\"crates\":[],\"files\":[{\"path\":\"l.rs\",\"items\":[{\"kind\":\"type_alias\",\
         \"name\":\"Id\",\"id\":\"T1\",\"target\":\"u64\"},{\"kind\":\"static\",\
         \"name\":\"COUNT\",\"id\":\"S1\",\"ty\":\"u32\"}]}]}"
    );
}

#[test]
fn reserved_item_references_serialize_when_present() {
    let item = ItemInfo::Function {
        name: s("f"),
        id: s("F3"),
        params: vec![ParamInfo {
            name: s("x"),
            ty: s("Point"),
            type_ref: Some(forgen::output::ItemRef {
                path: s("crate::geo::Point"),
                id: s("P1"),
                defined_in: Some(s("src/geo.rs")),
            }),
        }],
        return_type: s("()"),
        body: None,
    };
    let out = ForgenOutput {
        crates: Vec::new(),
        files: vec![FileTypeInfo { source_file: s("l.rs"), items: vec![item] }],
    };
    assert_eq!(
        to_json(&out),
        "{\"crates\":[],\"files\":[{\"path\":\"l.rs\",\"items\":[{\"kind\":\"function\",\
         \"name\":\"f\",\"id\":\"F3\",\"params\":[{\"name\":\"x\",\"ty\":\"Point\",\
         \"ref\":{\"path\":\"crate::geo::Point\",\"id\":\"P1\",\
         \"defined_in\":\"src/geo.rs\"}}],\"ret\":\"()\"}]}]}"
    );
}

#[test]
fn non_ascii_text_passes_through_unescaped() {
    let out = ForgenOutput {
        crates: Vec::new(),
        files: vec![FileTypeInfo { source_file: s("src/naïve.rs"), items: Vec::new() }],
    };
    let text = to_json(&out);
    assert_eq!(text, "{\"crates\":[],\"files\":[{\"path\":\"src/naïve.rs\",\"items\":[]}]}");
    let v: serde_json::Value = serde_json::from_str(&text).unwrap();
    assert_eq!(v["files"][0]["path"], "src/naïve.rs");
}
