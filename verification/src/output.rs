//! The output document: the shapes that one extraction run produces and
//! that the serialized artifact encodes.
//!
//! Types are carried as rendered display strings, not as structured types;
//! a missing annotation is represented by the `<inferred>` sentinel, which
//! the serializer later omits.

use vstd::prelude::*;
use vstd::string::*;
use crate::text::str_eq;

verus! {

/// The sentinel recorded for a type that this extractor does not know.
pub open spec fn spec_inferred() -> Seq<char> {
    "<inferred>"@
}

/// The `<inferred>` sentinel as a value.
pub fn inferred_type() -> (r: String)
    ensures
        r@ == spec_inferred(),
{
    "<inferred>".to_owned()
}

/// Root of the artifact: per-crate metadata and per-file item listings.
pub struct ForgenOutput {
    pub crates: Vec<CrateMetadata>,
    pub files: Vec<FileTypeInfo>,
}

/// All items extracted from one source file, under its normalized path.
pub struct FileTypeInfo {
    pub source_file: String,
    pub items: Vec<ItemInfo>,
}

/// One crate seen during extraction: display name, manifest data if any,
/// and whether the crate belongs to the workspace.
pub struct CrateMetadata {
    pub name: String,
    pub version: Option<String>,
    pub features: Vec<String>,
    pub local: bool,
}

impl CrateMetadata {
    pub fn new(name: String, version: Option<String>, features: Vec<String>, local: bool) -> (r:
        Self)
        ensures
            r.name == name,
            r.version == version,
            r.features == features,
            r.local == local,
    {
        Self { name, version, features, local }
    }
}

/// Reference to an item defined elsewhere.  Reserved in the schema; the
/// extractors currently never fill it in.
pub struct ItemRef {
    pub path: String,
    pub id: String,
    pub defined_in: Option<String>,
}

/// One extracted declaration, tagged by kind.
pub enum ItemInfo {
    Function {
        name: String,
        id: String,
        params: Vec<ParamInfo>,
        return_type: String,
        body: Option<FunctionBodyInfo>,
    },
    Struct { name: String, id: String, fields: Vec<FieldInfo> },
    Enum { name: String, id: String, variants: Vec<VariantInfo> },
    Trait { name: String, id: String, items: Vec<TraitItemInfo> },
    TypeAlias { name: String, id: String, target: String },
    Const { name: String, id: String, ty: String },
    Static { name: String, id: String, ty: String },
}

pub struct ParamInfo {
    pub name: String,
    pub ty: String,
    pub type_ref: Option<ItemRef>,
}

pub struct FieldInfo {
    pub name: String,
    pub ty: String,
    pub type_ref: Option<ItemRef>,
}

pub struct VariantInfo {
    pub name: String,
    pub fields: Vec<FieldInfo>,
}

/// One associated item of an extracted trait.
pub enum TraitItemInfo {
    Function { name: String, params: Vec<ParamInfo>, return_type: String },
    TypeAlias { name: String },
    Const { name: String, ty: String },
}

/// Syntactic digest of a function body: its local bindings and closures.
pub struct FunctionBodyInfo {
    pub locals: Vec<LocalVarInfo>,
    pub closures: Vec<ClosureInfo>,
}

impl FunctionBodyInfo {
    pub fn is_empty(&self) -> (r: bool)
        ensures
            r == (self.locals@.len() == 0 && self.closures@.len() == 0),
    {
        self.locals.is_empty() && self.closures.is_empty()
    }
}

pub struct LocalVarInfo {
    pub name: Option<String>,
    pub ty: String,
    pub id: usize,
    pub mutable: bool,
}

pub struct ClosureInfo {
    pub id: usize,
    pub params: Vec<ParamInfo>,
    pub return_type: String,
}

/// The view of an optional string.
pub open spec fn opt_str_view(o: Option<String>) -> Option<Seq<char>> {
    match o {
        Some(s) => Some(s@),
        None => None,
    }
}

pub ghost struct RefView {
    pub path: Seq<char>,
    pub id: Seq<char>,
    pub defined_in: Option<Seq<char>>,
}

pub ghost struct ParamView {
    pub name: Seq<char>,
    pub ty: Seq<char>,
    pub type_ref: Option<RefView>,
}

pub ghost struct FieldView {
    pub name: Seq<char>,
    pub ty: Seq<char>,
    pub type_ref: Option<RefView>,
}

pub ghost struct VariantView {
    pub name: Seq<char>,
    pub fields: Seq<FieldView>,
}

pub ghost enum TraitItemView {
    Function { name: Seq<char>, params: Seq<ParamView>, return_type: Seq<char> },
    TypeAlias { name: Seq<char> },
    Const { name: Seq<char>, ty: Seq<char> },
}

pub ghost struct LocalView {
    pub name: Option<Seq<char>>,
    pub ty: Seq<char>,
    pub id: int,
    pub mutable: bool,
}

pub ghost struct ClosureView {
    pub id: int,
    pub params: Seq<ParamView>,
    pub return_type: Seq<char>,
}

pub ghost struct BodyView {
    pub locals: Seq<LocalView>,
    pub closures: Seq<ClosureView>,
}

pub ghost enum ItemView {
    Function {
        name: Seq<char>,
        id: Seq<char>,
        params: Seq<ParamView>,
        return_type: Seq<char>,
        body: Option<BodyView>,
    },
    Struct { name: Seq<char>, id: Seq<char>, fields: Seq<FieldView> },
    Enum { name: Seq<char>, id: Seq<char>, variants: Seq<VariantView> },
    Trait { name: Seq<char>, id: Seq<char>, items: Seq<TraitItemView> },
    TypeAlias { name: Seq<char>, id: Seq<char>, target: Seq<char> },
    Const { name: Seq<char>, id: Seq<char>, ty: Seq<char> },
    Static { name: Seq<char>, id: Seq<char>, ty: Seq<char> },
}

pub ghost struct FileView {
    pub path: Seq<char>,
    pub items: Seq<ItemView>,
}

pub ghost struct CrateMetaView {
    pub name: Seq<char>,
    pub version: Option<Seq<char>>,
    pub features: Seq<Seq<char>>,
    pub local: bool,
}

pub ghost struct OutputView {
    pub crates: Seq<CrateMetaView>,
    pub files: Seq<FileView>,
}

impl View for ItemRef {
    type V = RefView;

    open spec fn view(&self) -> RefView {
        RefView { path: self.path@, id: self.id@, defined_in: opt_str_view(self.defined_in) }
    }
}

impl View for ParamInfo {
    type V = ParamView;

    open spec fn view(&self) -> ParamView {
        ParamView {
            name: self.name@,
            ty: self.ty@,
            type_ref: match self.type_ref {
                Some(r) => Some(r@),
                None => None,
            },
        }
    }
}

impl View for FieldInfo {
    type V = FieldView;

    open spec fn view(&self) -> FieldView {
        FieldView {
            name: self.name@,
            ty: self.ty@,
            type_ref: match self.type_ref {
                Some(r) => Some(r@),
                None => None,
            },
        }
    }
}

impl View for VariantInfo {
    type V = VariantView;

    open spec fn view(&self) -> VariantView {
        VariantView {
            name: self.name@,
            fields: self.fields@.map_values(|f: FieldInfo| f@),
        }
    }
}

impl View for TraitItemInfo {
    type V = TraitItemView;

    open spec fn view(&self) -> TraitItemView {
        match *self {
            TraitItemInfo::Function { name, params, return_type } => TraitItemView::Function {
                name: name@,
                params: params@.map_values(|p: ParamInfo| p@),
                return_type: return_type@,
            },
            TraitItemInfo::TypeAlias { name } => TraitItemView::TypeAlias { name: name@ },
            TraitItemInfo::Const { name, ty } => TraitItemView::Const { name: name@, ty: ty@ },
        }
    }
}

impl View for LocalVarInfo {
    type V = LocalView;

    open spec fn view(&self) -> LocalView {
        LocalView {
            name: opt_str_view(self.name),
            ty: self.ty@,
            id: self.id as int,
            mutable: self.mutable,
        }
    }
}

impl View for ClosureInfo {
    type V = ClosureView;

    open spec fn view(&self) -> ClosureView {
        ClosureView {
            id: self.id as int,
            params: self.params@.map_values(|p: ParamInfo| p@),
            return_type: self.return_type@,
        }
    }
}

impl View for FunctionBodyInfo {
    type V = BodyView;

    open spec fn view(&self) -> BodyView {
        BodyView {
            locals: self.locals@.map_values(|l: LocalVarInfo| l@),
            closures: self.closures@.map_values(|c: ClosureInfo| c@),
        }
    }
}

impl View for ItemInfo {
    type V = ItemView;

    open spec fn view(&self) -> ItemView {
        match *self {
            ItemInfo::Function { name, id, params, return_type, body } => ItemView::Function {
                name: name@,
                id: id@,
                params: params@.map_values(|p: ParamInfo| p@),
                return_type: return_type@,
                body: match body {
                    Some(b) => Some(b@),
                    None => None,
                },
            },
            ItemInfo::Struct { name, id, fields } => ItemView::Struct {
                name: name@,
                id: id@,
                fields: fields@.map_values(|f: FieldInfo| f@),
            },
            ItemInfo::Enum { name, id, variants } => ItemView::Enum {
                name: name@,
                id: id@,
                variants: variants@.map_values(|v: VariantInfo| v@),
            },
            ItemInfo::Trait { name, id, items } => ItemView::Trait {
                name: name@,
                id: id@,
                items: items@.map_values(|t: TraitItemInfo| t@),
            },
            ItemInfo::TypeAlias { name, id, target } => ItemView::TypeAlias {
                name: name@,
                id: id@,
                target: target@,
            },
            ItemInfo::Const { name, id, ty } => ItemView::Const { name: name@, id: id@, ty: ty@ },
            ItemInfo::Static { name, id, ty } => ItemView::Static {
                name: name@,
                id: id@,
                ty: ty@,
            },
        }
    }
}

impl View for FileTypeInfo {
    type V = FileView;

    open spec fn view(&self) -> FileView {
        FileView {
            path: self.source_file@,
            items: self.items@.map_values(|i: ItemInfo| i@),
        }
    }
}

impl View for CrateMetadata {
    type V = CrateMetaView;

    open spec fn view(&self) -> CrateMetaView {
        CrateMetaView {
            name: self.name@,
            version: opt_str_view(self.version),
            features: self.features@.map_values(|s: String| s@),
            local: self.local,
        }
    }
}

impl View for ForgenOutput {
    type V = OutputView;

    open spec fn view(&self) -> OutputView {
        OutputView {
            crates: self.crates@.map_values(|c: CrateMetadata| c@),
            files: self.files@.map_values(|f: FileTypeInfo| f@),
        }
    }
}

/// True of a missing value: the serializer then omits the field.
pub fn skip_if_none<T>(opt: &Option<T>) -> (r: bool)
    ensures
        r == (*opt is None),
{
    opt.is_none()
}

/// True of an empty list: the serializer then omits the field.
pub fn skip_if_empty<T>(vec: &Vec<T>) -> (r: bool)
    ensures
        r == (vec@.len() == 0),
{
    vec.is_empty()
}

/// True of the `<inferred>` sentinel: the serializer then omits the field.
pub fn skip_if_inferred(s: &str) -> (r: bool)
    ensures
        r == (s@ == spec_inferred()),
{
    str_eq(s, "<inferred>")
}

/// True of `false`: the serializer then omits the flag.
pub fn skip_if_false(b: &bool) -> (r: bool)
    ensures
        r == !*b,
{
    !*b
}

/// Whether a body record is absent or carries nothing worth serializing.
pub open spec fn spec_body_skipped(body: Option<FunctionBodyInfo>) -> bool {
    match body {
        None => true,
        Some(b) => b.locals@.len() == 0 && b.closures@.len() == 0,
    }
}

/// True of a body the serializer omits: missing, or with no locals and no
/// closures.
pub fn skip_if_empty_body(body: &Option<FunctionBodyInfo>) -> (r: bool)
    ensures
        r == spec_body_skipped(*body),
{
    match body {
        None => true,
        Some(b) => b.is_empty(),
    }
}

} // verus!
