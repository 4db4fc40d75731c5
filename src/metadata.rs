//! Descriptions of Move modules, as the chain's RPC reports them.
use vstd::prelude::*;

verus! {

/// A Move module: its structs and its exposed functions.
#[derive(Clone, Debug)]
pub struct ModuleMetadata {
    pub package_id: String,
    pub module_name: String,
    pub structs: Vec<StructMetadata>,
    pub functions: Vec<FunctionMetadata>,
}

/// A Move struct.
#[derive(Clone, Debug)]
pub struct StructMetadata {
    pub name: String,
    pub abilities: Vec<String>,
    pub fields: Vec<FieldMetadata>,
}

/// One field of a Move struct, with its type rendered as text.
#[derive(Clone, Debug)]
pub struct FieldMetadata {
    pub name: String,
    pub type_: String,
}

/// An exposed Move function.
#[derive(Clone, Debug)]
pub struct FunctionMetadata {
    pub name: String,
    pub visibility: String,
    pub is_entry: bool,
    pub parameters: Vec<String>,
    pub return_types: Vec<String>,
}

/// A Move type as the RPC describes it.
#[derive(Debug)]
pub enum TypeTag {
    /// A type the RPC names directly (`U64`, `Address`, ...).
    Named(String),
    /// A struct type, by address, module and name.
    Struct { address: String, module: String, name: String },
    Vector(Box<TypeTag>),
    Reference(Box<TypeTag>),
    MutableReference(Box<TypeTag>),
    /// A type parameter, by the text of its index.
    TypeParameter(String),
    /// A shape the RPC did not describe in a known way, by its text.
    Unknown(String),
}

/// The Move source text of a type.
pub open spec fn type_text(t: TypeTag) -> Seq<char>
    decreases t,
{
    match t {
        TypeTag::Named(n) => n@,
        TypeTag::Struct { address, module, name } => address@ + "::"@ + module@ + "::"@ + name@,
        TypeTag::Vector(inner) => "vector<"@ + type_text(*inner) + ">"@,
        TypeTag::Reference(inner) => "&"@ + type_text(*inner),
        TypeTag::MutableReference(inner) => "&mut "@ + type_text(*inner),
        TypeTag::TypeParameter(index) => "T"@ + index@,
        TypeTag::Unknown(text) => text@,
    }
}

/// Renders a type as Move source text: `addr::module::Name`,
/// `vector<T>`, `&T`, `&mut T`, `T0`.
pub fn render_type(t: &TypeTag) -> (r: String)
    ensures
        r@ == type_text(*t),
    decreases t,
{
    match t {
        TypeTag::Named(n) => n.clone(),
        TypeTag::Struct { address, module, name } => {
            let mut out = address.clone();
            out.append("::");
            out.append(module.as_str());
            out.append("::");
            out.append(name.as_str());
            out
        },
        TypeTag::Vector(inner) => {
            let text = render_type(inner);
            let mut out = String::from_str("vector<");
            out.append(text.as_str());
            out.append(">");
            out
        },
        TypeTag::Reference(inner) => {
            let text = render_type(inner);
            let mut out = String::from_str("&");
            out.append(text.as_str());
            out
        },
        TypeTag::MutableReference(inner) => {
            let text = render_type(inner);
            let mut out = String::from_str("&mut ");
            out.append(text.as_str());
            out
        },
        TypeTag::TypeParameter(index) => {
            let mut out = String::from_str("T");
            out.append(index.as_str());
            out
        },
        TypeTag::Unknown(text) => text.clone(),
    }
}

} // verus!
