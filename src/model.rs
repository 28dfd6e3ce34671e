//! The function definition that the rewrite passes work on, and its
//! mathematical model.

use vstd::prelude::*;

verus! {

/// The mathematical model of an attribute: its path and the text of its
/// arguments (empty when it carries none).
pub struct AttributeModel {
    pub leading_colon: bool,
    pub path: Seq<Seq<char>>,
    pub args: Seq<char>,
}

/// The mathematical model of a parameter pattern.
pub enum PatternModel {
    Ident { name: Seq<char>, text: Seq<char> },
    Other(Seq<char>),
}

/// The mathematical model of a parameter.
pub enum ParamModel {
    Receiver(Seq<char>),
    Typed { attrs: Seq<AttributeModel>, pattern: PatternModel, ty: Seq<char> },
}

/// The mathematical model of a function definition.
pub struct FunctionModel {
    pub attrs: Seq<AttributeModel>,
    pub params: Seq<ParamModel>,
    pub body: Seq<char>,
}

/// The texts of a list of strings.
pub open spec fn strings_view(v: Seq<String>) -> Seq<Seq<char>> {
    v.map_values(|s: String| s@)
}

/// An attribute on a function or a parameter, such as `#[context]` or
/// `#[case(1)]`: a path, and the token text that follows it.
pub struct Attribute {
    pub leading_colon: bool,
    pub path: Vec<String>,
    pub args: String,
}

impl View for Attribute {
    type V = AttributeModel;

    open spec fn view(&self) -> AttributeModel {
        AttributeModel {
            leading_colon: self.leading_colon,
            path: strings_view(self.path@),
            args: self.args@,
        }
    }
}

/// The pattern that a typed parameter binds.
pub enum Pattern {
    /// An identifier pattern: the bound identifier, and the whole pattern as
    /// token text (`mut x` binds `x`).
    Ident { name: String, text: String },
    /// Any other pattern, kept as token text.
    Other(String),
}

impl View for Pattern {
    type V = PatternModel;

    open spec fn view(&self) -> PatternModel {
        match self {
            Pattern::Ident { name, text } => PatternModel::Ident { name: name@, text: text@ },
            Pattern::Other(s) => PatternModel::Other(s@),
        }
    }
}

/// A parameter of a function signature.
pub enum FnParam {
    /// A method receiver (`self`, `&mut self`, ...), kept as token text.
    Receiver(String),
    /// A typed parameter with its attributes, pattern and declared type.
    Typed { attrs: Vec<Attribute>, pattern: Pattern, ty: String },
}

/// The models of a list of attributes.
pub open spec fn attrs_view(v: Seq<Attribute>) -> Seq<AttributeModel> {
    v.map_values(|a: Attribute| a@)
}

impl View for FnParam {
    type V = ParamModel;

    open spec fn view(&self) -> ParamModel {
        match self {
            FnParam::Receiver(s) => ParamModel::Receiver(s@),
            FnParam::Typed { attrs, pattern, ty } => ParamModel::Typed {
                attrs: attrs_view(attrs@),
                pattern: pattern@,
                ty: ty@,
            },
        }
    }
}

/// The models of a list of parameters.
pub open spec fn params_view(v: Seq<FnParam>) -> Seq<ParamModel> {
    v.map_values(|p: FnParam| p@)
}

/// A function definition: its attributes, its parameters, and its body as
/// token text, which the rewrite passes copy and never interpret.
pub struct FunctionDef {
    pub attrs: Vec<Attribute>,
    pub params: Vec<FnParam>,
    pub body: String,
}

impl View for FunctionDef {
    type V = FunctionModel;

    open spec fn view(&self) -> FunctionModel {
        FunctionModel {
            attrs: attrs_view(self.attrs@),
            params: params_view(self.params@),
            body: self.body@,
        }
    }
}

/// An absolute path to the root of a crate, as a list of segments; rendered
/// with a leading `::`.
pub struct SymbolPath {
    pub segments: Vec<String>,
}

impl View for SymbolPath {
    type V = Seq<Seq<char>>;

    open spec fn view(&self) -> Seq<Seq<char>> {
        strings_view(self.segments@)
    }
}

/// Why a function could not be rewritten.
pub enum ExpandError {
    /// The named crate is not among the dependencies of the crate being built.
    MissingDependency { crate_name: String },
    /// The function takes a method receiver, which is not supported.
    UnsupportedReceiver,
}

} // verus!
