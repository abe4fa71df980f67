//! What the semantic model says a name means, and how a definition is shown
//! as a navigation target.
use crate::text::{FileId, FileRange, TextRange};
use vstd::prelude::*;

verus! {

/// A module, as far as renaming it is concerned.
#[derive(Debug)]
pub struct ModuleFacts {
    /// The file that holds the module's items.
    pub definition_file: FileId,
    /// The items stand in a file of their own, not inline in `mod m { .. }`.
    pub has_own_file: bool,
    /// That file is a directory-owning `mod.rs`.
    pub is_mod_rs: bool,
    /// The name in the `mod` item that declares the module, where there is one.
    pub declaration_name: Option<FileRange>,
}

/// The kind of entity a definition is.
#[derive(Debug)]
pub enum DefinitionKind {
    Module(ModuleFacts),
    Function,
    Struct,
    Enum,
    Union,
    Variant,
    Const,
    Static,
    Trait,
    TypeAlias,
    BuiltinType,
    SelfType,
    Local,
    Field,
    Macro,
    TypeParam,
    LifetimeParam,
    Label,
}

/// Where a definition stands in the source: the whole construct, its name,
/// and what is shown beside it.
#[derive(Debug)]
pub struct DefinitionSite {
    pub file_id: FileId,
    pub full_range: TextRange,
    pub focus_range: Option<TextRange>,
    pub name: String,
    pub container_name: Option<String>,
    pub description: Option<String>,
    pub docs: Option<String>,
}

/// A semantically resolved entity; `site` is `None` where its source cannot
/// be located in the snapshot.
#[derive(Debug)]
pub struct Definition {
    pub kind: DefinitionKind,
    pub site: Option<DefinitionSite>,
}

/// What a name at a definition site is.
#[derive(Debug)]
pub enum NameClass {
    /// The name of an external crate: the crate's root module.
    ExternCrate(Definition),
    /// The name defines `0`.
    Definition(Definition),
    /// A pattern name that refers to a constant.
    ConstReference(Definition),
    /// A shorthand field pattern `S { x }`: it defines a local and reads a field.
    PatFieldShorthand { local_def: Definition, field_ref: Definition },
}

/// What a name at a use site refers to.
#[derive(Debug)]
pub enum NameRefClass {
    Definition(Definition),
    /// A shorthand field init `S { x }`: it reads a local into a field.
    FieldShorthand { local_ref: Definition, field_ref: Definition },
}

impl NameClass {
    /// What the name refers to where it refers to something (a constant, the
    /// field of a shorthand pattern), else what it defines.
    pub open spec fn referenced_or_defined_spec(self) -> Definition {
        match self {
            NameClass::ExternCrate(root) => root,
            NameClass::Definition(d) => d,
            NameClass::ConstReference(d) => d,
            NameClass::PatFieldShorthand { field_ref, .. } => field_ref,
        }
    }

    /// The definition that navigation from this name goes to.
    pub fn referenced_or_defined(self) -> (r: Definition)
        ensures
            r == self.referenced_or_defined_spec(),
    {
        match self {
            NameClass::ExternCrate(root) => root,
            NameClass::Definition(d) => d,
            NameClass::ConstReference(d) => d,
            NameClass::PatFieldShorthand { field_ref, .. } => field_ref,
        }
    }
}

impl NameRefClass {
    pub open spec fn referenced_spec(self) -> Definition {
        match self {
            NameRefClass::Definition(d) => d,
            NameRefClass::FieldShorthand { local_ref, .. } => local_ref,
        }
    }

    /// The definition that this use refers to.
    pub fn referenced(self) -> (r: Definition)
        ensures
            r == self.referenced_spec(),
    {
        match self {
            NameRefClass::Definition(d) => d,
            NameRefClass::FieldShorthand { local_ref, .. } => local_ref,
        }
    }
}

/// The kind of symbol a navigation target shows.
#[derive(Clone, Copy, Debug, PartialEq, Eq, Structural)]
pub enum SymbolKind {
    Module,
    Function,
    Struct,
    Enum,
    Union,
    Variant,
    Const,
    Static,
    Trait,
    TypeAlias,
    Impl,
    Local,
    Field,
    Macro,
    TypeParam,
    LifetimeParam,
    Label,
    SelfParam,
}

/// A place to navigate to.
#[derive(Debug, PartialEq, Eq)]
pub struct NavigationTarget {
    pub file_id: FileId,
    /// The whole defining construct.
    pub full_range: TextRange,
    /// Just the name, where there is one.
    pub focus_range: Option<TextRange>,
    pub name: String,
    pub kind: Option<SymbolKind>,
    pub container_name: Option<String>,
    pub description: Option<String>,
    pub docs: Option<String>,
}

fn duplicate_text(s: &Option<String>) -> (r: Option<String>)
    ensures
        r == *s,
{
    match s {
        Some(t) => Some(t.clone()),
        None => None,
    }
}

impl NavigationTarget {
    /// A copy of the target.
    pub fn duplicate(&self) -> (r: NavigationTarget)
        ensures
            r == *self,
    {
        NavigationTarget {
            file_id: self.file_id,
            full_range: self.full_range,
            focus_range: self.focus_range,
            name: self.name.clone(),
            kind: self.kind,
            container_name: duplicate_text(&self.container_name),
            description: duplicate_text(&self.description),
            docs: duplicate_text(&self.docs),
        }
    }
}

/// The symbol kind shown for a definition of kind `k`; a built-in type has
/// none, for it is never shown.
pub open spec fn symbol_kind_of(k: DefinitionKind) -> Option<SymbolKind> {
    match k {
        DefinitionKind::Module(_) => Some(SymbolKind::Module),
        DefinitionKind::Function => Some(SymbolKind::Function),
        DefinitionKind::Struct => Some(SymbolKind::Struct),
        DefinitionKind::Enum => Some(SymbolKind::Enum),
        DefinitionKind::Union => Some(SymbolKind::Union),
        DefinitionKind::Variant => Some(SymbolKind::Variant),
        DefinitionKind::Const => Some(SymbolKind::Const),
        DefinitionKind::Static => Some(SymbolKind::Static),
        DefinitionKind::Trait => Some(SymbolKind::Trait),
        DefinitionKind::TypeAlias => Some(SymbolKind::TypeAlias),
        DefinitionKind::BuiltinType => None,
        DefinitionKind::SelfType => Some(SymbolKind::Impl),
        DefinitionKind::Local => Some(SymbolKind::Local),
        DefinitionKind::Field => Some(SymbolKind::Field),
        DefinitionKind::Macro => Some(SymbolKind::Macro),
        DefinitionKind::TypeParam => Some(SymbolKind::TypeParam),
        DefinitionKind::LifetimeParam => Some(SymbolKind::LifetimeParam),
        DefinitionKind::Label => Some(SymbolKind::Label),
    }
}

fn symbol_kind(k: &DefinitionKind) -> (r: Option<SymbolKind>)
    ensures
        r == symbol_kind_of(*k),
{
    match k {
        DefinitionKind::Module(_) => Some(SymbolKind::Module),
        DefinitionKind::Function => Some(SymbolKind::Function),
        DefinitionKind::Struct => Some(SymbolKind::Struct),
        DefinitionKind::Enum => Some(SymbolKind::Enum),
        DefinitionKind::Union => Some(SymbolKind::Union),
        DefinitionKind::Variant => Some(SymbolKind::Variant),
        DefinitionKind::Const => Some(SymbolKind::Const),
        DefinitionKind::Static => Some(SymbolKind::Static),
        DefinitionKind::Trait => Some(SymbolKind::Trait),
        DefinitionKind::TypeAlias => Some(SymbolKind::TypeAlias),
        DefinitionKind::BuiltinType => None,
        DefinitionKind::SelfType => Some(SymbolKind::Impl),
        DefinitionKind::Local => Some(SymbolKind::Local),
        DefinitionKind::Field => Some(SymbolKind::Field),
        DefinitionKind::Macro => Some(SymbolKind::Macro),
        DefinitionKind::TypeParam => Some(SymbolKind::TypeParam),
        DefinitionKind::LifetimeParam => Some(SymbolKind::LifetimeParam),
        DefinitionKind::Label => Some(SymbolKind::Label),
    }
}

/// The navigation target of a definition: its whole construct and its name,
/// where its source is located and it is not a built-in type.
pub open spec fn nav_of(def: Definition) -> Option<NavigationTarget> {
    match def.site {
        None => None,
        Some(site) => if def.kind is BuiltinType {
            None
        } else {
            Some(
                NavigationTarget {
                    file_id: site.file_id,
                    full_range: site.full_range,
                    focus_range: site.focus_range,
                    name: site.name,
                    kind: symbol_kind_of(def.kind),
                    container_name: site.container_name,
                    description: site.description,
                    docs: site.docs,
                },
            )
        },
    }
}

/// Builds the navigation target of `def`.
pub fn try_to_nav(def: Definition) -> (r: Option<NavigationTarget>)
    ensures
        r == nav_of(def),
{
    let kind = symbol_kind(&def.kind);
    if let DefinitionKind::BuiltinType = def.kind {
        return None;
    }
    match def.site {
        None => None,
        Some(site) => Some(
            NavigationTarget {
                file_id: site.file_id,
                full_range: site.full_range,
                focus_range: site.focus_range,
                name: site.name,
                kind,
                container_name: site.container_name,
                description: site.description,
                docs: site.docs,
            },
        ),
    }
}

} // verus!
