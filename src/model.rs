use vstd::prelude::*;
use vstd::string::StringExecFns;

verus! {

/// The fields that a variant of an enum declares.
#[derive(Clone, Copy, Debug, PartialEq, Eq, Structural)]
pub enum FieldShape {
    /// No fields at all: `V`.
    Unit,
    /// Unnamed fields, with their count: `V(A, B)`.
    Unnamed(usize),
    /// Named fields, with their count: `V { a: A }`.
    Named(usize),
}

/// One variant of an enum: its name and the fields it declares.
#[derive(Clone, Debug)]
pub struct Variant {
    pub name: String,
    pub fields: FieldShape,
}

impl View for Variant {
    type V = (Seq<char>, FieldShape);

    open spec fn view(&self) -> (Seq<char>, FieldShape) {
        (self.name@, self.fields)
    }
}

/// What a declaration declares: an enum with its variants in order, or
/// something else (a struct or a union).
#[derive(Clone, Debug)]
pub enum ItemData {
    Enum(Vec<Variant>),
    Other,
}

/// A type declaration as the generator sees it.
#[derive(Clone, Debug)]
pub struct Declaration {
    pub name: String,
    pub data: ItemData,
}

/// The view of a declaration: its name, and the views of its variants when it
/// is an enum.
pub struct DeclarationView {
    pub name: Seq<char>,
    pub variants: Option<Seq<(Seq<char>, FieldShape)>>,
}

pub open spec fn variants_view(vs: Seq<Variant>) -> Seq<(Seq<char>, FieldShape)> {
    vs.map_values(|v: Variant| v@)
}

impl View for Declaration {
    type V = DeclarationView;

    open spec fn view(&self) -> DeclarationView {
        DeclarationView {
            name: self.name@,
            variants: match self.data {
                ItemData::Enum(vs) => Some(variants_view(vs@)),
                ItemData::Other => None,
            },
        }
    }
}

/// Why no dispatch construct could be made for a declaration.
#[derive(Clone, Debug)]
pub enum GenError {
    /// The declaration, whose name this holds, is not an enum.
    NotAnEnum { name: String },
    /// The variant whose name this holds does not have exactly one unnamed
    /// field.
    ShapeViolation { variant: String },
}

/// The view of a [`GenError`].
pub enum Failure {
    NotAnEnum(Seq<char>),
    ShapeViolation(Seq<char>),
}

impl View for GenError {
    type V = Failure;

    open spec fn view(&self) -> Failure {
        match self {
            GenError::NotAnEnum { name } => Failure::NotAnEnum(name@),
            GenError::ShapeViolation { variant } => Failure::ShapeViolation(variant@),
        }
    }
}

/// The diagnostic for a declaration that is not an enum.
pub open spec fn not_enum_message() -> Seq<char> {
    "VisitEnum can only be derived for enums"@
}

/// The diagnostic for a variant of an unsupported shape.
pub open spec fn shape_message() -> Seq<char> {
    "VisitEnum only supports tuple variants with exactly 1 field"@
}

impl GenError {
    /// The name of the item that the diagnostic points at: the declaration,
    /// or the offending variant.
    pub fn subject(&self) -> (r: &String)
        ensures
            r@ == match self@ {
                Failure::NotAnEnum(n) => n,
                Failure::ShapeViolation(n) => n,
            },
    {
        match self {
            GenError::NotAnEnum { name } => name,
            GenError::ShapeViolation { variant } => variant,
        }
    }

    /// The text of the diagnostic.
    pub fn message(&self) -> (r: String)
        ensures
            r@ == match self@ {
                Failure::NotAnEnum(_) => not_enum_message(),
                Failure::ShapeViolation(_) => shape_message(),
            },
    {
        match self {
            GenError::NotAnEnum { .. } => String::from_str("VisitEnum can only be derived for enums"),
            GenError::ShapeViolation { .. } => String::from_str(
                "VisitEnum only supports tuple variants with exactly 1 field",
            ),
        }
    }
}

} // verus!
