//! A snapshot of what the semantic engine and the virtual file system
//! answer about one workspace: crates with their origin, module trees,
//! resolved declarations with rendered type strings, body syntax, and the
//! file table.
//!
//! The extraction pipeline runs over these values alone.  Whatever the
//! engine could not resolve is `None` here, and the pipeline degrades as
//! the output contract says rather than failing.

use vstd::prelude::*;
use crate::refs::UseTreeSyntax;
use crate::paths::FsPath;

verus! {

/// Everything the engine reports about one workspace.
pub struct WorkspaceModel {
    pub crates: Vec<CrateModel>,
}

/// One crate: its display name if it has one, whether its origin is the
/// workspace itself, and its root module.
pub struct CrateModel {
    pub display_name: Option<String>,
    pub local: bool,
    pub root: ModuleModel,
}

/// One module: the `use`-tree nodes of its defining file (empty when the
/// file cannot be resolved) and its direct declarations, in order.
pub struct ModuleModel {
    pub imports: Vec<UseTreeSyntax>,
    pub decls: Vec<DeclModel>,
}

/// One declaration of a module, as resolved by the engine.
pub enum DeclModel {
    Module(ModuleModel),
    Function(FunctionDecl),
    Struct(StructDecl),
    Enum(EnumDecl),
    Union(UnionDecl),
    Trait(TraitDecl),
    TypeAlias(TypeAliasDecl),
    Const(ConstDecl),
    Static(StaticDecl),
    /// A declaration of another kind (a macro, a builtin): it has no
    /// display name and no defining file, and is passed over.
    Opaque,
}

pub struct FunctionDecl {
    pub name: String,
    /// The engine's identifier for the item, as rendered; it may contain
    /// spaces.
    pub id: String,
    pub params: Vec<ParamDecl>,
    pub ret_ty: String,
    /// The body syntax, when the engine finds source for the item.
    pub body: Option<BodySyntax>,
    pub file: Option<usize>,
}

pub struct ParamDecl {
    pub name: Option<String>,
    pub ty: String,
}

pub struct StructDecl {
    pub name: String,
    pub id: String,
    pub fields: Vec<FieldDecl>,
    pub file: Option<usize>,
}

pub struct FieldDecl {
    pub name: String,
    pub ty: String,
}

pub struct EnumDecl {
    pub name: String,
    pub id: String,
    pub variants: Vec<VariantDecl>,
    pub file: Option<usize>,
}

pub struct VariantDecl {
    pub name: String,
    pub fields: Vec<FieldDecl>,
}

/// Unions are resolved and traversed but deliberately not modeled in the
/// output schema.
pub struct UnionDecl {
    pub name: String,
    pub file: Option<usize>,
}

pub struct TraitDecl {
    pub name: String,
    pub id: String,
    pub items: Vec<AssocDecl>,
    pub file: Option<usize>,
}

/// One associated item of a trait.
#[allow(inconsistent_fields)]
pub enum AssocDecl {
    Function { name: String, params: Vec<ParamDecl>, ret_ty: String },
    TypeAlias { name: String },
    Const { name: Option<String>, ty: String },
}

pub struct TypeAliasDecl {
    pub name: String,
    pub id: String,
    pub target: String,
    pub file: Option<usize>,
}

pub struct ConstDecl {
    pub name: Option<String>,
    pub id: String,
    pub ty: String,
    pub file: Option<usize>,
}

pub struct StaticDecl {
    pub name: String,
    pub id: String,
    pub ty: String,
    pub file: Option<usize>,
}

/// The syntax nodes of one function or closure body that the body scan
/// reads, in the order the tree yields them.
pub struct BodySyntax {
    pub nodes: Vec<BodyNode>,
}

pub enum BodyNode {
    Let(LetSyntax),
    Closure(ClosureSyntax),
}

/// One `let` statement: its pattern, if any, and its explicit type
/// annotation text, if any.
pub struct LetSyntax {
    pub pat: Option<PatSyntax>,
    pub ty_annotation: Option<String>,
}

pub enum PatSyntax {
    Ident { mutable: bool, name: Option<String> },
    Other,
}

/// One closure expression: its parameter list, if written, and its
/// explicit return type annotation text, if any.
pub struct ClosureSyntax {
    pub params: Option<Vec<ClosureParamSyntax>>,
    pub ret_annotation: Option<String>,
}

pub struct ClosureParamSyntax {
    /// The name, when the parameter pattern is a simple identifier.
    pub name: Option<String>,
    pub ty_annotation: Option<String>,
}

/// The display name the engine reports for a declaration, if any.
pub open spec fn spec_decl_name(d: DeclModel) -> Option<Seq<char>> {
    match d {
        DeclModel::Module(_) => None,
        DeclModel::Function(f) => Some(f.name@),
        DeclModel::Struct(s) => Some(s.name@),
        DeclModel::Enum(e) => Some(e.name@),
        DeclModel::Union(u) => Some(u.name@),
        DeclModel::Trait(t) => Some(t.name@),
        DeclModel::TypeAlias(t) => Some(t.name@),
        DeclModel::Const(c) => match c.name {
            Some(n) => Some(n@),
            None => None,
        },
        DeclModel::Static(s) => Some(s.name@),
        DeclModel::Opaque => None,
    }
}

/// The defining file the engine reports for a declaration, if any.
pub open spec fn spec_decl_file(d: DeclModel) -> Option<usize> {
    match d {
        DeclModel::Module(_) => None,
        DeclModel::Function(f) => f.file,
        DeclModel::Struct(s) => s.file,
        DeclModel::Enum(e) => e.file,
        DeclModel::Union(u) => u.file,
        DeclModel::Trait(t) => t.file,
        DeclModel::TypeAlias(t) => t.file,
        DeclModel::Const(c) => c.file,
        DeclModel::Static(s) => s.file,
        DeclModel::Opaque => None,
    }
}

impl DeclModel {
    /// The display name of the declaration, if it has one.
    pub fn display_name(&self) -> (r: Option<&String>)
        ensures
            match r {
                Some(s) => spec_decl_name(*self) == Some(s@),
                None => spec_decl_name(*self) is None,
            },
    {
        match self {
            DeclModel::Module(_) => None,
            DeclModel::Function(f) => Some(&f.name),
            DeclModel::Struct(s) => Some(&s.name),
            DeclModel::Enum(e) => Some(&e.name),
            DeclModel::Union(u) => Some(&u.name),
            DeclModel::Trait(t) => Some(&t.name),
            DeclModel::TypeAlias(t) => Some(&t.name),
            DeclModel::Const(c) => match &c.name {
                Some(n) => Some(n),
                None => None,
            },
            DeclModel::Static(s) => Some(&s.name),
            DeclModel::Opaque => None,
        }
    }

    /// The defining file of the declaration, if the engine resolves one.
    pub fn file_id(&self) -> (r: Option<usize>)
        ensures
            r == spec_decl_file(*self),
    {
        match self {
            DeclModel::Module(_) => None,
            DeclModel::Function(f) => f.file,
            DeclModel::Struct(s) => s.file,
            DeclModel::Enum(e) => e.file,
            DeclModel::Union(u) => u.file,
            DeclModel::Trait(t) => t.file,
            DeclModel::TypeAlias(t) => t.file,
            DeclModel::Const(c) => c.file,
            DeclModel::Static(s) => s.file,
            DeclModel::Opaque => None,
        }
    }
}

/// The file table: the path, if any, behind each stable file identifier.
pub struct VfsModel {
    pub files: Vec<Option<FsPath>>,
}

/// The path the table holds for a file identifier.
pub open spec fn spec_vfs_path(vfs: VfsModel, file_id: usize) -> Option<FsPath> {
    if file_id < vfs.files@.len() {
        vfs.files@[file_id as int]
    } else {
        None
    }
}

/// Resolves a stable file identifier to its file-system path.
pub fn file_id_to_path(vfs: &VfsModel, file_id: usize) -> (r: Option<FsPath>)
    ensures
        match r {
            Some(p) => spec_vfs_path(*vfs, file_id) matches Some(q) && p@ == q@,
            None => spec_vfs_path(*vfs, file_id) is None,
        },
{
    if file_id < vfs.files.len() {
        match &vfs.files[file_id] {
            Some(p) => Some(p.clone()),
            None => None,
        }
    } else {
        None
    }
}

} // verus!
