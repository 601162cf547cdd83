//! Item extractors: one per declaration kind, each turning a resolved
//! declaration into an output record and feeding every rendered type
//! string it reads into the reference set.
//!
//! Extraction of a single item never fails: a missing name or annotation
//! degrades to a sentinel value.

use vstd::prelude::*;
use vstd::string::*;
use crate::model::{AssocDecl, BodyNode, BodySyntax, ClosureParamSyntax, ClosureSyntax, ConstDecl,
    DeclModel,
    EnumDecl, FieldDecl, FunctionDecl, LetSyntax, ParamDecl, PatSyntax, StaticDecl, StructDecl,
    TraitDecl, TypeAliasDecl, VariantDecl};
use crate::output::{BodyView, ClosureInfo, ClosureView, FieldInfo, FieldView, FunctionBodyInfo,
    ItemInfo, ItemView, LocalVarInfo, LocalView, ParamInfo, ParamView, TraitItemInfo,
    TraitItemView, VariantInfo, VariantView, FileTypeInfo, inferred_type, spec_inferred};
use crate::refs::{RefSet, cap_words, extract_type_names};
use crate::text::{dec_str, strip_spaces, strip_spaces_exec, push_dec, chars_to_string};

verus! {

// --- What each record must hold, as a function of the declaration ---

/// The record of one function parameter: a synthetic `_<index>` name
/// stands in when the engine reports none.
pub open spec fn spec_param_view(p: ParamDecl, idx: int) -> ParamView {
    ParamView {
        name: match p.name {
            Some(n) => n@,
            None => seq!['_'] + dec_str(idx as nat),
        },
        ty: p.ty@,
        type_ref: None,
    }
}

pub open spec fn spec_params(params: Seq<ParamDecl>) -> Seq<ParamView> {
    Seq::new(params.len(), |i: int| spec_param_view(params[i], i))
}

pub open spec fn spec_field_view(f: FieldDecl) -> FieldView {
    FieldView { name: f.name@, ty: f.ty@, type_ref: None }
}

pub open spec fn spec_fields(fields: Seq<FieldDecl>) -> Seq<FieldView> {
    Seq::new(fields.len(), |i: int| spec_field_view(fields[i]))
}

pub open spec fn spec_variant_view(v: VariantDecl) -> VariantView {
    VariantView { name: v.name@, fields: spec_fields(v.fields@) }
}

pub open spec fn spec_variants(vs: Seq<VariantDecl>) -> Seq<VariantView> {
    Seq::new(vs.len(), |i: int| spec_variant_view(vs[i]))
}

pub open spec fn spec_assoc_view(a: AssocDecl) -> TraitItemView {
    match a {
        AssocDecl::Function { name, params, ret_ty } => TraitItemView::Function {
            name: name@,
            params: spec_params(params@),
            return_type: ret_ty@,
        },
        AssocDecl::TypeAlias { name } => TraitItemView::TypeAlias { name: name@ },
        AssocDecl::Const { name, ty } => TraitItemView::Const {
            name: match name {
                Some(n) => n@,
                None => "_"@,
            },
            ty: ty@,
        },
    }
}

pub open spec fn spec_assoc_items(items: Seq<AssocDecl>) -> Seq<TraitItemView> {
    Seq::new(items.len(), |i: int| spec_assoc_view(items[i]))
}

/// The record of one local binding.  The name is kept only for a simple
/// identifier pattern; a missing annotation becomes the sentinel.
pub open spec fn spec_local_view(l: LetSyntax, p: PatSyntax, id: int) -> LocalView {
    LocalView {
        name: match p {
            PatSyntax::Ident { name: Some(n), .. } => Some(n@),
            _ => None,
        },
        ty: match l.ty_annotation {
            Some(t) => t@,
            None => spec_inferred(),
        },
        id: id,
        mutable: match p {
            PatSyntax::Ident { mutable, .. } => mutable,
            PatSyntax::Other => false,
        },
    }
}

/// The locals of a body scan: `let` statements with a pattern, numbered
/// by order of encounter.
pub open spec fn spec_locals(nodes: Seq<BodyNode>) -> Seq<LocalView>
    decreases nodes.len(),
{
    if nodes.len() == 0 {
        Seq::empty()
    } else {
        let pre = spec_locals(nodes.drop_last());
        match nodes.last() {
            BodyNode::Let(l) => match l.pat {
                Some(p) => pre.push(spec_local_view(l, p, pre.len() as int)),
                None => pre,
            },
            BodyNode::Closure(_) => pre,
        }
    }
}

pub open spec fn spec_closure_param_view(p: ClosureParamSyntax, idx: int) -> ParamView {
    ParamView {
        name: match p.name {
            Some(n) => n@,
            None => seq!['_'] + dec_str(idx as nat),
        },
        ty: match p.ty_annotation {
            Some(t) => t@,
            None => spec_inferred(),
        },
        type_ref: None,
    }
}

pub open spec fn spec_closure_params(ps: Option<Vec<ClosureParamSyntax>>) -> Seq<ParamView> {
    match ps {
        Some(v) => Seq::new(v@.len(), |i: int| spec_closure_param_view(v@[i], i)),
        None => Seq::empty(),
    }
}

pub open spec fn spec_closure_view(c: ClosureSyntax, id: int) -> ClosureView {
    ClosureView {
        id: id,
        params: spec_closure_params(c.params),
        return_type: match c.ret_annotation {
            Some(t) => t@,
            None => spec_inferred(),
        },
    }
}

/// The closures of a body scan, numbered by order of encounter.
pub open spec fn spec_closures(nodes: Seq<BodyNode>) -> Seq<ClosureView>
    decreases nodes.len(),
{
    if nodes.len() == 0 {
        Seq::empty()
    } else {
        let pre = spec_closures(nodes.drop_last());
        match nodes.last() {
            BodyNode::Closure(c) => pre.push(spec_closure_view(c, pre.len() as int)),
            BodyNode::Let(_) => pre,
        }
    }
}

pub open spec fn spec_body_view(b: BodySyntax) -> BodyView {
    BodyView { locals: spec_locals(b.nodes@), closures: spec_closures(b.nodes@) }
}

// --- The type names each declaration feeds into the reference set ---

pub open spec fn params_refs(params: Seq<ParamDecl>) -> Set<Seq<char>>
    decreases params.len(),
{
    if params.len() == 0 {
        Set::empty()
    } else {
        params_refs(params.drop_last()).union(cap_words(params.last().ty@))
    }
}

pub open spec fn fields_refs(fields: Seq<FieldDecl>) -> Set<Seq<char>>
    decreases fields.len(),
{
    if fields.len() == 0 {
        Set::empty()
    } else {
        fields_refs(fields.drop_last()).union(cap_words(fields.last().ty@))
    }
}

pub open spec fn variants_refs(vs: Seq<VariantDecl>) -> Set<Seq<char>>
    decreases vs.len(),
{
    if vs.len() == 0 {
        Set::empty()
    } else {
        variants_refs(vs.drop_last()).union(fields_refs(vs.last().fields@))
    }
}

pub open spec fn assoc_refs(items: Seq<AssocDecl>) -> Set<Seq<char>>
    decreases items.len(),
{
    if items.len() == 0 {
        Set::empty()
    } else {
        assoc_refs(items.drop_last()).union(
            match items.last() {
                AssocDecl::Function { params, ret_ty, .. } => cap_words(ret_ty@).union(
                    params_refs(params@),
                ),
                AssocDecl::TypeAlias { .. } => Set::empty(),
                AssocDecl::Const { ty, .. } => cap_words(ty@),
            },
        )
    }
}

pub open spec fn function_refs(f: FunctionDecl) -> Set<Seq<char>> {
    cap_words(f.ret_ty@).union(params_refs(f.params@))
}

// --- The record each declaration kind produces ---

pub open spec fn spec_function_item(f: FunctionDecl, is_external: bool) -> ItemView {
    ItemView::Function {
        name: f.name@,
        id: strip_spaces(f.id@),
        params: spec_params(f.params@),
        return_type: f.ret_ty@,
        body: if is_external {
            None
        } else {
            match f.body {
                Some(b) => Some(spec_body_view(b)),
                None => None,
            }
        },
    }
}

pub open spec fn spec_struct_item(s: StructDecl) -> ItemView {
    ItemView::Struct { name: s.name@, id: strip_spaces(s.id@), fields: spec_fields(s.fields@) }
}

pub open spec fn spec_enum_item(e: EnumDecl) -> ItemView {
    ItemView::Enum { name: e.name@, id: strip_spaces(e.id@), variants: spec_variants(e.variants@) }
}

pub open spec fn spec_trait_item(t: TraitDecl) -> ItemView {
    ItemView::Trait { name: t.name@, id: strip_spaces(t.id@), items: spec_assoc_items(t.items@) }
}

pub open spec fn spec_type_alias_item(t: TypeAliasDecl) -> ItemView {
    ItemView::TypeAlias { name: t.name@, id: strip_spaces(t.id@), target: t.target@ }
}

pub open spec fn spec_const_item(c: ConstDecl) -> ItemView {
    ItemView::Const {
        name: match c.name {
            Some(n) => n@,
            None => "_"@,
        },
        id: strip_spaces(c.id@),
        ty: c.ty@,
    }
}

pub open spec fn spec_static_item(s: StaticDecl) -> ItemView {
    ItemView::Static { name: s.name@, id: strip_spaces(s.id@), ty: s.ty@ }
}

/// The record a declaration contributes, if any: modules are traversed
/// rather than recorded, unions are recognized but skipped, and other
/// unnamed declaration kinds are passed over.
pub open spec fn spec_decl_item(d: DeclModel, is_external: bool) -> Option<ItemView> {
    match d {
        DeclModel::Function(f) => Some(spec_function_item(f, is_external)),
        DeclModel::Struct(s) => Some(spec_struct_item(s)),
        DeclModel::Enum(e) => Some(spec_enum_item(e)),
        DeclModel::Trait(t) => Some(spec_trait_item(t)),
        DeclModel::TypeAlias(t) => Some(spec_type_alias_item(t)),
        DeclModel::Const(c) => Some(spec_const_item(c)),
        DeclModel::Static(s) => Some(spec_static_item(s)),
        DeclModel::Union(_) => None,
        DeclModel::Module(_) => None,
        DeclModel::Opaque => None,
    }
}

/// The type names a declaration's extraction feeds into the reference
/// set.
pub open spec fn spec_decl_refs(d: DeclModel) -> Set<Seq<char>> {
    match d {
        DeclModel::Function(f) => function_refs(f),
        DeclModel::Struct(s) => fields_refs(s.fields@),
        DeclModel::Enum(e) => variants_refs(e.variants@),
        DeclModel::Trait(t) => assoc_refs(t.items@),
        DeclModel::TypeAlias(t) => cap_words(t.target@),
        DeclModel::Const(c) => cap_words(c.ty@),
        DeclModel::Static(s) => cap_words(s.ty@),
        DeclModel::Union(_) => Set::empty(),
        DeclModel::Module(_) => Set::empty(),
        DeclModel::Opaque => Set::empty(),
    }
}

// --- Small helpers ---

/// Minifies an engine identifier by removing its spaces.
pub fn format_id(raw_id: &str) -> (r: String)
    ensures
        r@ == strip_spaces(raw_id@),
{
    let cs = strip_spaces_exec(raw_id);
    chars_to_string(&cs)
}

/// The synthetic name `_<idx>` for an unnamed parameter.
fn synthetic_name(idx: usize) -> (r: String)
    ensures
        r@ == seq!['_'] + dec_str(idx as nat),
{
    let mut v: Vec<char> = Vec::new();
    v.push('_');
    push_dec(idx, &mut v);
    proof {
        assert(v@ =~= seq!['_'] + dec_str(idx as nat));
    }
    chars_to_string(&v)
}

// --- Sub-extractors ---

/// The parameter records of a function, recording each parameter's type
/// names.
pub fn extract_function_params(referenced_types: &mut RefSet, params: &Vec<ParamDecl>) -> (r: Vec<
    ParamInfo,
>)
    ensures
        r@.map_values(|p: ParamInfo| p@) == spec_params(params@),
        final(referenced_types)@ == old(referenced_types)@.union(params_refs(params@)),
{
    let ghost before = referenced_types@;
    let n = params.len();
    let mut r: Vec<ParamInfo> = Vec::new();
    let mut i: usize = 0;
    while i < n
        invariant
            n == params@.len(),
            i <= n,
            r@.map_values(|p: ParamInfo| p@) == spec_params(params@.take(i as int)),
            referenced_types@ == before.union(params_refs(params@.take(i as int))),
        decreases n - i,
    {
        let ty = params[i].ty.clone();
        extract_type_names(ty.as_str(), referenced_types);
        let name = match &params[i].name {
            Some(n) => n.clone(),
            None => synthetic_name(i),
        };
        let info = ParamInfo { name, ty, type_ref: None };
        let ghost pv = info;
        let ghost pre_r = r@;
        r.push(info);
        proof {
            pre_r.lemma_push_map_commute(|p: ParamInfo| p@, pv);
            let post = params@.take(i as int + 1);
            assert(post.drop_last() =~= params@.take(i as int));
            assert(post.last() == params@[i as int]);
            assert(pv@ == spec_param_view(params@[i as int], i as int));
            assert(r@.map_values(|p: ParamInfo| p@) =~= spec_params(post));
            assert(referenced_types@ =~= before.union(params_refs(post)));
        }
        i += 1;
    }
    proof {
        assert(params@.take(n as int) =~= params@);
    }
    r
}

/// The field records of a struct or variant, recording each field's type
/// names.
pub fn extract_struct_fields(referenced_types: &mut RefSet, fields: &Vec<FieldDecl>) -> (r: Vec<
    FieldInfo,
>)
    ensures
        r@.map_values(|f: FieldInfo| f@) == spec_fields(fields@),
        final(referenced_types)@ == old(referenced_types)@.union(fields_refs(fields@)),
{
    let ghost before = referenced_types@;
    let n = fields.len();
    let mut r: Vec<FieldInfo> = Vec::new();
    let mut i: usize = 0;
    while i < n
        invariant
            n == fields@.len(),
            i <= n,
            r@.map_values(|f: FieldInfo| f@) == spec_fields(fields@.take(i as int)),
            referenced_types@ == before.union(fields_refs(fields@.take(i as int))),
        decreases n - i,
    {
        let ty = fields[i].ty.clone();
        extract_type_names(ty.as_str(), referenced_types);
        let info = FieldInfo { name: fields[i].name.clone(), ty, type_ref: None };
        let ghost fv = info;
        let ghost pre_r = r@;
        r.push(info);
        proof {
            pre_r.lemma_push_map_commute(|f: FieldInfo| f@, fv);
            let post = fields@.take(i as int + 1);
            assert(post.drop_last() =~= fields@.take(i as int));
            assert(post.last() == fields@[i as int]);
            assert(fv@ == spec_field_view(fields@[i as int]));
            assert(r@.map_values(|f: FieldInfo| f@) =~= spec_fields(post));
            assert(referenced_types@ =~= before.union(fields_refs(post)));
        }
        i += 1;
    }
    proof {
        assert(fields@.take(n as int) =~= fields@);
    }
    r
}

/// The variant records of an enum, recording every variant field's type
/// names.
pub fn extract_enum_variants(referenced_types: &mut RefSet, variants: &Vec<VariantDecl>) -> (r: Vec<
    VariantInfo,
>)
    ensures
        r@.map_values(|v: VariantInfo| v@) == spec_variants(variants@),
        final(referenced_types)@ == old(referenced_types)@.union(variants_refs(variants@)),
{
    let ghost before = referenced_types@;
    let n = variants.len();
    let mut r: Vec<VariantInfo> = Vec::new();
    let mut i: usize = 0;
    while i < n
        invariant
            n == variants@.len(),
            i <= n,
            r@.map_values(|v: VariantInfo| v@) == spec_variants(variants@.take(i as int)),
            referenced_types@ == before.union(variants_refs(variants@.take(i as int))),
        decreases n - i,
    {
        let fields = extract_struct_fields(referenced_types, &variants[i].fields);
        let info = VariantInfo { name: variants[i].name.clone(), fields };
        let ghost vv = info;
        let ghost pre_r = r@;
        r.push(info);
        proof {
            pre_r.lemma_push_map_commute(|v: VariantInfo| v@, vv);
            let post = variants@.take(i as int + 1);
            assert(post.drop_last() =~= variants@.take(i as int));
            assert(post.last() == variants@[i as int]);
            assert(vv@ == spec_variant_view(variants@[i as int]));
            assert(r@.map_values(|v: VariantInfo| v@) =~= spec_variants(post));
            assert(referenced_types@ =~= before.union(variants_refs(post)));
        }
        i += 1;
    }
    proof {
        assert(variants@.take(n as int) =~= variants@);
    }
    r
}

/// The associated-item records of a trait, recording the type names of
/// method signatures and associated constants.
pub fn extract_trait_items(referenced_types: &mut RefSet, items: &Vec<AssocDecl>) -> (r: Vec<
    TraitItemInfo,
>)
    ensures
        r@.map_values(|t: TraitItemInfo| t@) == spec_assoc_items(items@),
        final(referenced_types)@ == old(referenced_types)@.union(assoc_refs(items@)),
{
    let ghost before = referenced_types@;
    let n = items.len();
    let mut r: Vec<TraitItemInfo> = Vec::new();
    let mut i: usize = 0;
    while i < n
        invariant
            n == items@.len(),
            i <= n,
            r@.map_values(|t: TraitItemInfo| t@) == spec_assoc_items(items@.take(i as int)),
            referenced_types@ == before.union(assoc_refs(items@.take(i as int))),
        decreases n - i,
    {
        let info = match &items[i] {
            AssocDecl::Function { name, params, ret_ty } => {
                let return_type = ret_ty.clone();
                extract_type_names(return_type.as_str(), referenced_types);
                let params = extract_function_params(referenced_types, params);
                TraitItemInfo::Function { name: name.clone(), params, return_type }
            },
            AssocDecl::TypeAlias { name } => TraitItemInfo::TypeAlias { name: name.clone() },
            AssocDecl::Const { name, ty } => {
                let ty = ty.clone();
                extract_type_names(ty.as_str(), referenced_types);
                TraitItemInfo::Const {
                    name: match name {
                        Some(n) => n.clone(),
                        None => "_".to_owned(),
                    },
                    ty,
                }
            },
        };
        let ghost tv = info;
        let ghost pre_r = r@;
        r.push(info);
        proof {
            pre_r.lemma_push_map_commute(|t: TraitItemInfo| t@, tv);
            let post = items@.take(i as int + 1);
            assert(post.drop_last() =~= items@.take(i as int));
            assert(post.last() == items@[i as int]);
            assert(tv@ == spec_assoc_view(items@[i as int]));
            assert(r@.map_values(|t: TraitItemInfo| t@) =~= spec_assoc_items(post));
            assert(referenced_types@ =~= before.union(assoc_refs(post)));
        }
        i += 1;
    }
    proof {
        assert(items@.take(n as int) =~= items@);
    }
    r
}

/// One local binding record, from a `let` statement with a pattern.
pub fn extract_local_var(let_stmt: &LetSyntax, id: usize) -> (r: Option<LocalVarInfo>)
    ensures
        match let_stmt.pat {
            Some(p) => r matches Some(lv) && lv@ == spec_local_view(*let_stmt, p, id as int),
            None => r is None,
        },
{
    let (mutable, name) = match &let_stmt.pat {
        Some(PatSyntax::Ident { mutable, name }) => (
            *mutable,
            match name {
                Some(n) => Some(n.clone()),
                None => None,
            },
        ),
        Some(PatSyntax::Other) => (false, None),
        None => {
            return None;
        },
    };
    Some(
        LocalVarInfo {
            name,
            ty: match &let_stmt.ty_annotation {
                Some(t) => t.clone(),
                None => inferred_type(),
            },
            id,
            mutable,
        },
    )
}

/// The local bindings of a body, numbered in order of encounter.
pub fn extract_locals(nodes: &Vec<BodyNode>) -> (r: Vec<LocalVarInfo>)
    ensures
        r@.map_values(|l: LocalVarInfo| l@) == spec_locals(nodes@),
{
    let n = nodes.len();
    let mut locals: Vec<LocalVarInfo> = Vec::new();
    let mut i: usize = 0;
    while i < n
        invariant
            n == nodes@.len(),
            i <= n,
            locals@.map_values(|l: LocalVarInfo| l@) == spec_locals(nodes@.take(i as int)),
        decreases n - i,
    {
        proof {
            let post = nodes@.take(i as int + 1);
            assert(post.drop_last() =~= nodes@.take(i as int));
            assert(post.last() == nodes@[i as int]);
        }
        match &nodes[i] {
            BodyNode::Let(l) => {
                match extract_local_var(l, locals.len()) {
                    Some(lv) => {
                        locals.push(lv);
                        proof {
                            assert(locals@.map_values(|l: LocalVarInfo| l@) =~= spec_locals(
                                nodes@.take(i as int + 1),
                            ));
                        }
                    },
                    None => {
                        proof {
                            assert(locals@.map_values(|l: LocalVarInfo| l@) =~= spec_locals(
                                nodes@.take(i as int + 1),
                            ));
                        }
                    },
                }
            },
            BodyNode::Closure(_) => {
                proof {
                    assert(locals@.map_values(|l: LocalVarInfo| l@) =~= spec_locals(
                        nodes@.take(i as int + 1),
                    ));
                }
            },
        }
        i += 1;
    }
    proof {
        assert(nodes@.take(n as int) =~= nodes@);
    }
    locals
}

/// One closure record: parameters and explicit return type, sentinels
/// where annotations are missing.
pub fn extract_closure_info(closure: &ClosureSyntax, id: usize) -> (r: ClosureInfo)
    ensures
        r@ == spec_closure_view(*closure, id as int),
{
    let params: Vec<ParamInfo> = match &closure.params {
        Some(ps) => {
            let n = ps.len();
            let mut r: Vec<ParamInfo> = Vec::new();
            let mut i: usize = 0;
            while i < n
                invariant
                    n == ps@.len(),
                    i <= n,
                    r@.map_values(|p: ParamInfo| p@) == Seq::new(
                        i as nat,
                        |j: int| spec_closure_param_view(ps@[j], j),
                    ),
                decreases n - i,
            {
                let name = match &ps[i].name {
                    Some(n) => n.clone(),
                    None => synthetic_name(i),
                };
                let ty = match &ps[i].ty_annotation {
                    Some(t) => t.clone(),
                    None => inferred_type(),
                };
                let info = ParamInfo { name, ty, type_ref: None };
                let ghost pv = info;
                let ghost pre_r = r@;
                r.push(info);
                proof {
                    pre_r.lemma_push_map_commute(|p: ParamInfo| p@, pv);
                    assert(pv@ == spec_closure_param_view(ps@[i as int], i as int));
                    assert(r@.map_values(|p: ParamInfo| p@) =~= Seq::new(
                        i as nat + 1,
                        |j: int| spec_closure_param_view(ps@[j], j),
                    ));
                }
                i += 1;
            }
            r
        },
        None => Vec::new(),
    };
    let return_type = match &closure.ret_annotation {
        Some(t) => t.clone(),
        None => inferred_type(),
    };
    let r = ClosureInfo { id, params, return_type };
    proof {
        assert(r@.params =~= spec_closure_params(closure.params));
    }
    r
}

/// The closures of a body, numbered in order of encounter.
pub fn extract_closures(nodes: &Vec<BodyNode>) -> (r: Vec<ClosureInfo>)
    ensures
        r@.map_values(|c: ClosureInfo| c@) == spec_closures(nodes@),
{
    let n = nodes.len();
    let mut closures: Vec<ClosureInfo> = Vec::new();
    let mut i: usize = 0;
    while i < n
        invariant
            n == nodes@.len(),
            i <= n,
            closures@.map_values(|c: ClosureInfo| c@) == spec_closures(nodes@.take(i as int)),
        decreases n - i,
    {
        proof {
            let post = nodes@.take(i as int + 1);
            assert(post.drop_last() =~= nodes@.take(i as int));
            assert(post.last() == nodes@[i as int]);
        }
        match &nodes[i] {
            BodyNode::Closure(c) => {
                let info = extract_closure_info(c, closures.len());
                closures.push(info);
                proof {
                    assert(closures@.map_values(|c: ClosureInfo| c@) =~= spec_closures(
                        nodes@.take(i as int + 1),
                    ));
                }
            },
            BodyNode::Let(_) => {
                proof {
                    assert(closures@.map_values(|c: ClosureInfo| c@) =~= spec_closures(
                        nodes@.take(i as int + 1),
                    ));
                }
            },
        }
        i += 1;
    }
    proof {
        assert(nodes@.take(n as int) =~= nodes@);
    }
    closures
}

/// The syntactic digest of a function body: `None` when the engine has
/// no body syntax for the item.
pub fn extract_function_body(func: &FunctionDecl) -> (r: Option<FunctionBodyInfo>)
    ensures
        match func.body {
            Some(b) => r matches Some(info) && info@ == spec_body_view(b),
            None => r is None,
        },
{
    match &func.body {
        Some(b) => Some(
            FunctionBodyInfo { locals: extract_locals(&b.nodes), closures: extract_closures(
                &b.nodes,
            ) },
        ),
        None => None,
    }
}

// --- One extractor per declaration kind ---

pub struct FunctionExtractor;

pub struct StructExtractor;

pub struct EnumExtractor;

pub struct TraitExtractor;

pub struct TypeAliasExtractor;

pub struct ConstExtractor;

pub struct StaticExtractor;

impl FunctionExtractor {
    /// Appends the record of one function, recording the type names of
    /// its signature.  Body detail is produced only for local code.
    pub fn extract(
        &self,
        referenced_types: &mut RefSet,
        func: &FunctionDecl,
        file_info: &mut FileTypeInfo,
        is_external: bool,
    )
        ensures
            final(file_info)@.path == old(file_info)@.path,
            final(file_info)@.items == old(file_info)@.items.push(
                spec_function_item(*func, is_external),
            ),
            final(referenced_types)@ == old(referenced_types)@.union(function_refs(*func)),
    {
        let return_type = func.ret_ty.clone();
        extract_type_names(return_type.as_str(), referenced_types);
        let params = extract_function_params(referenced_types, &func.params);
        let body = if !is_external {
            extract_function_body(func)
        } else {
            None
        };
        let item = ItemInfo::Function {
            name: func.name.clone(),
            id: format_id(func.id.as_str()),
            params,
            return_type,
            body,
        };
        let ghost iv = item;
        let ghost pre = file_info.items@;
        file_info.items.push(item);
        proof {
            pre.lemma_push_map_commute(|i: ItemInfo| i@, iv);
            assert(iv@ == spec_function_item(*func, is_external));
            assert(file_info@.items =~= old(file_info)@.items.push(
                spec_function_item(*func, is_external),
            ));
            assert(referenced_types@ =~= old(referenced_types)@.union(function_refs(*func)));
        }
    }
}

impl StructExtractor {
    /// Appends the record of one struct, recording its field types.
    pub fn extract(
        &self,
        referenced_types: &mut RefSet,
        struct_def: &StructDecl,
        file_info: &mut FileTypeInfo,
        _is_external: bool,
    )
        ensures
            final(file_info)@.path == old(file_info)@.path,
            final(file_info)@.items == old(file_info)@.items.push(spec_struct_item(*struct_def)),
            final(referenced_types)@ == old(referenced_types)@.union(
                fields_refs(struct_def.fields@),
            ),
    {
        let fields = extract_struct_fields(referenced_types, &struct_def.fields);
        let item = ItemInfo::Struct {
            name: struct_def.name.clone(),
            id: format_id(struct_def.id.as_str()),
            fields,
        };
        let ghost iv = item;
        let ghost pre = file_info.items@;
        file_info.items.push(item);
        proof {
            pre.lemma_push_map_commute(|i: ItemInfo| i@, iv);
            assert(iv@ == spec_struct_item(*struct_def));
            assert(file_info@.items =~= old(file_info)@.items.push(spec_struct_item(*struct_def)));
        }
    }
}

impl EnumExtractor {
    /// Appends the record of one enum, recording its variant field types.
    pub fn extract(
        &self,
        referenced_types: &mut RefSet,
        enum_def: &EnumDecl,
        file_info: &mut FileTypeInfo,
        _is_external: bool,
    )
        ensures
            final(file_info)@.path == old(file_info)@.path,
            final(file_info)@.items == old(file_info)@.items.push(spec_enum_item(*enum_def)),
            final(referenced_types)@ == old(referenced_types)@.union(
                variants_refs(enum_def.variants@),
            ),
    {
        let variants = extract_enum_variants(referenced_types, &enum_def.variants);
        let item = ItemInfo::Enum {
            name: enum_def.name.clone(),
            id: format_id(enum_def.id.as_str()),
            variants,
        };
        let ghost iv = item;
        let ghost pre = file_info.items@;
        file_info.items.push(item);
        proof {
            pre.lemma_push_map_commute(|i: ItemInfo| i@, iv);
            assert(iv@ == spec_enum_item(*enum_def));
            assert(file_info@.items =~= old(file_info)@.items.push(spec_enum_item(*enum_def)));
        }
    }
}

impl TraitExtractor {
    /// Appends the record of one trait, recording the type names of its
    /// associated items.
    pub fn extract(
        &self,
        referenced_types: &mut RefSet,
        trait_def: &TraitDecl,
        file_info: &mut FileTypeInfo,
        _is_external: bool,
    )
        ensures
            final(file_info)@.path == old(file_info)@.path,
            final(file_info)@.items == old(file_info)@.items.push(spec_trait_item(*trait_def)),
            final(referenced_types)@ == old(referenced_types)@.union(assoc_refs(trait_def.items@)),
    {
        let items = extract_trait_items(referenced_types, &trait_def.items);
        let item = ItemInfo::Trait {
            name: trait_def.name.clone(),
            id: format_id(trait_def.id.as_str()),
            items,
        };
        let ghost iv = item;
        let ghost pre = file_info.items@;
        file_info.items.push(item);
        proof {
            pre.lemma_push_map_commute(|i: ItemInfo| i@, iv);
            assert(iv@ == spec_trait_item(*trait_def));
            assert(file_info@.items =~= old(file_info)@.items.push(spec_trait_item(*trait_def)));
        }
    }
}

impl TypeAliasExtractor {
    /// Appends the record of one type alias, recording the type names of
    /// its target.
    pub fn extract(
        &self,
        referenced_types: &mut RefSet,
        type_alias: &TypeAliasDecl,
        file_info: &mut FileTypeInfo,
        _is_external: bool,
    )
        ensures
            final(file_info)@.path == old(file_info)@.path,
            final(file_info)@.items == old(file_info)@.items.push(
                spec_type_alias_item(*type_alias),
            ),
            final(referenced_types)@ == old(referenced_types)@.union(
                cap_words(type_alias.target@),
            ),
    {
        let target = type_alias.target.clone();
        extract_type_names(target.as_str(), referenced_types);
        let item = ItemInfo::TypeAlias {
            name: type_alias.name.clone(),
            id: format_id(type_alias.id.as_str()),
            target,
        };
        let ghost iv = item;
        let ghost pre = file_info.items@;
        file_info.items.push(item);
        proof {
            pre.lemma_push_map_commute(|i: ItemInfo| i@, iv);
            assert(iv@ == spec_type_alias_item(*type_alias));
            assert(file_info@.items =~= old(file_info)@.items.push(
                spec_type_alias_item(*type_alias),
            ));
        }
    }
}

impl ConstExtractor {
    /// Appends the record of one constant, recording the type names of
    /// its type; an unnamed constant is recorded as `_`.
    pub fn extract(
        &self,
        referenced_types: &mut RefSet,
        const_def: &ConstDecl,
        file_info: &mut FileTypeInfo,
        _is_external: bool,
    )
        ensures
            final(file_info)@.path == old(file_info)@.path,
            final(file_info)@.items == old(file_info)@.items.push(spec_const_item(*const_def)),
            final(referenced_types)@ == old(referenced_types)@.union(cap_words(const_def.ty@)),
    {
        let ty = const_def.ty.clone();
        extract_type_names(ty.as_str(), referenced_types);
        let item = ItemInfo::Const {
            name: match &const_def.name {
                Some(n) => n.clone(),
                None => "_".to_owned(),
            },
            id: format_id(const_def.id.as_str()),
            ty,
        };
        let ghost iv = item;
        let ghost pre = file_info.items@;
        file_info.items.push(item);
        proof {
            pre.lemma_push_map_commute(|i: ItemInfo| i@, iv);
            assert(iv@ == spec_const_item(*const_def));
            assert(file_info@.items =~= old(file_info)@.items.push(spec_const_item(*const_def)));
        }
    }
}

impl StaticExtractor {
    /// Appends the record of one static, recording the type names of its
    /// type.
    pub fn extract(
        &self,
        referenced_types: &mut RefSet,
        static_def: &StaticDecl,
        file_info: &mut FileTypeInfo,
        _is_external: bool,
    )
        ensures
            final(file_info)@.path == old(file_info)@.path,
            final(file_info)@.items == old(file_info)@.items.push(spec_static_item(*static_def)),
            final(referenced_types)@ == old(referenced_types)@.union(cap_words(static_def.ty@)),
    {
        let ty = static_def.ty.clone();
        extract_type_names(ty.as_str(), referenced_types);
        let item = ItemInfo::Static {
            name: static_def.name.clone(),
            id: format_id(static_def.id.as_str()),
            ty,
        };
        let ghost iv = item;
        let ghost pre = file_info.items@;
        file_info.items.push(item);
        proof {
            pre.lemma_push_map_commute(|i: ItemInfo| i@, iv);
            assert(iv@ == spec_static_item(*static_def));
            assert(file_info@.items =~= old(file_info)@.items.push(spec_static_item(*static_def)));
        }
    }
}

/// Extracts one declaration into its file's record, dispatching on the
/// declaration kind.  A kind outside the schema leaves the record and
/// the reference set unchanged.
pub fn extract_item(
    referenced_types: &mut RefSet,
    def: &DeclModel,
    file_info: &mut FileTypeInfo,
    is_external: bool,
)
    ensures
        final(file_info)@.path == old(file_info)@.path,
        final(file_info)@.items == match spec_decl_item(*def, is_external) {
            Some(iv) => old(file_info)@.items.push(iv),
            None => old(file_info)@.items,
        },
        final(referenced_types)@ == old(referenced_types)@.union(spec_decl_refs(*def)),
{
    match def {
        DeclModel::Function(func) => {
            FunctionExtractor.extract(referenced_types, func, file_info, is_external);
        },
        DeclModel::Struct(s) => {
            StructExtractor.extract(referenced_types, s, file_info, is_external);
        },
        DeclModel::Enum(e) => {
            EnumExtractor.extract(referenced_types, e, file_info, is_external);
        },
        DeclModel::Union(_) => {
            proof {
                assert(referenced_types@ =~= old(referenced_types)@.union(Set::empty()));
            }
        },
        DeclModel::Trait(t) => {
            TraitExtractor.extract(referenced_types, t, file_info, is_external);
        },
        DeclModel::TypeAlias(t) => {
            TypeAliasExtractor.extract(referenced_types, t, file_info, is_external);
        },
        DeclModel::Const(c) => {
            ConstExtractor.extract(referenced_types, c, file_info, is_external);
        },
        DeclModel::Static(s) => {
            StaticExtractor.extract(referenced_types, s, file_info, is_external);
        },
        DeclModel::Module(_) => {
            proof {
                assert(referenced_types@ =~= old(referenced_types)@.union(Set::empty()));
            }
        },
        DeclModel::Opaque => {
            proof {
                assert(referenced_types@ =~= old(referenced_types)@.union(Set::empty()));
            }
        },
    }
}

} // verus!
