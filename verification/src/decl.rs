//! The declaration model: what one error-taxonomy declaration looks like
//! before expansion, and the errors expansion can raise.

use vstd::prelude::*;

verus! {

/// One named field of a variant with named data.
pub struct FieldDecl {
    /// The field's name.
    pub name: String,
    /// The field's type, as source text; it is carried through verbatim.
    pub ty: String,
}

/// The data shape of one variant: no data, an ordered list of unnamed
/// element types, or a list of named fields.
pub enum Shape {
    Unit,
    Positional(Vec<String>),
    Named(Vec<FieldDecl>),
}

/// The value of one metadata entry. A string literal is kept with its
/// unescaped contents; any other expression is kept as verbatim source
/// text.
pub enum MetaValue {
    StrLit(String),
    Expr(String),
}

/// One `key = value` entry of a variant's metadata block.
pub struct MetaEntry {
    pub key: String,
    pub value: MetaValue,
}

/// One declared variant: its name, its metadata block, and its data shape.
pub struct VariantDecl {
    pub name: String,
    pub attrs: Vec<MetaEntry>,
    pub shape: Shape,
}

/// The body of a declaration: an enum with its ordered variant list, or
/// one of the record shapes the expander rejects.
pub enum DeclData {
    Enum(Vec<VariantDecl>),
    Struct,
    Union,
}

/// A whole declaration handed to the expander: its name and its body.
pub struct Declaration {
    pub name: String,
    pub data: DeclData,
}

/// The four recognized metadata keys.
#[derive(Clone, Copy, PartialEq, Eq, Structural, Debug)]
pub enum MetaKey {
    Status,
    Tag,
    Code,
    Message,
}

/// Why expansion aborted.
#[derive(Debug)]
pub enum ExpandError {
    /// The declaration is not enum-shaped.
    NotAnEnum,
    /// The named variant gave a non-string value for a key that requires a
    /// string literal.
    NonStringValue { variant: String, key: MetaKey },
}

/// Mathematical model of a `FieldDecl`.
pub ghost struct SpecFieldDecl {
    pub name: Seq<char>,
    pub ty: Seq<char>,
}

/// Mathematical model of a `Shape`.
pub ghost enum SpecShape {
    Unit,
    Positional(Seq<Seq<char>>),
    Named(Seq<SpecFieldDecl>),
}

/// Mathematical model of a `MetaValue`.
pub ghost enum SpecMetaValue {
    StrLit(Seq<char>),
    Expr(Seq<char>),
}

/// Mathematical model of a `MetaEntry`.
pub ghost struct SpecMetaEntry {
    pub key: Seq<char>,
    pub value: SpecMetaValue,
}

/// Mathematical model of a `VariantDecl`.
pub ghost struct SpecVariantDecl {
    pub name: Seq<char>,
    pub attrs: Seq<SpecMetaEntry>,
    pub shape: SpecShape,
}

/// Mathematical model of a `DeclData`.
pub ghost enum SpecDeclData {
    Enum(Seq<SpecVariantDecl>),
    Struct,
    Union,
}

/// Mathematical model of a `Declaration`.
pub ghost struct SpecDeclaration {
    pub name: Seq<char>,
    pub data: SpecDeclData,
}

/// Mathematical model of an `ExpandError`.
pub ghost enum SpecExpandError {
    NotAnEnum,
    NonStringValue { variant: Seq<char>, key: MetaKey },
}

impl View for FieldDecl {
    type V = SpecFieldDecl;

    open spec fn view(&self) -> SpecFieldDecl {
        SpecFieldDecl { name: self.name@, ty: self.ty@ }
    }
}

impl View for Shape {
    type V = SpecShape;

    open spec fn view(&self) -> SpecShape {
        match self {
            Shape::Unit => SpecShape::Unit,
            Shape::Positional(tys) => SpecShape::Positional(
                tys@.map_values(|t: String| t@),
            ),
            Shape::Named(fields) => SpecShape::Named(
                fields@.map_values(|f: FieldDecl| f@),
            ),
        }
    }
}

impl View for MetaValue {
    type V = SpecMetaValue;

    open spec fn view(&self) -> SpecMetaValue {
        match self {
            MetaValue::StrLit(s) => SpecMetaValue::StrLit(s@),
            MetaValue::Expr(e) => SpecMetaValue::Expr(e@),
        }
    }
}

impl View for MetaEntry {
    type V = SpecMetaEntry;

    open spec fn view(&self) -> SpecMetaEntry {
        SpecMetaEntry { key: self.key@, value: self.value@ }
    }
}

impl View for VariantDecl {
    type V = SpecVariantDecl;

    open spec fn view(&self) -> SpecVariantDecl {
        SpecVariantDecl {
            name: self.name@,
            attrs: self.attrs@.map_values(|e: MetaEntry| e@),
            shape: self.shape@,
        }
    }
}

impl View for DeclData {
    type V = SpecDeclData;

    open spec fn view(&self) -> SpecDeclData {
        match self {
            DeclData::Enum(vs) => SpecDeclData::Enum(
                vs@.map_values(|v: VariantDecl| v@),
            ),
            DeclData::Struct => SpecDeclData::Struct,
            DeclData::Union => SpecDeclData::Union,
        }
    }
}

impl View for Declaration {
    type V = SpecDeclaration;

    open spec fn view(&self) -> SpecDeclaration {
        SpecDeclaration { name: self.name@, data: self.data@ }
    }
}

impl View for ExpandError {
    type V = SpecExpandError;

    open spec fn view(&self) -> SpecExpandError {
        match self {
            ExpandError::NotAnEnum => SpecExpandError::NotAnEnum,
            ExpandError::NonStringValue { variant, key } => SpecExpandError::NonStringValue {
                variant: variant@,
                key: *key,
            },
        }
    }
}

} // verus!
