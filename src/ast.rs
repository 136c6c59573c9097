//! A plain-value model of the syntax that the analysis reads and rewrites.
use vstd::prelude::*;

verus! {

/// A source location, as line and column of the first token.
#[derive(Clone, Copy, Debug, PartialEq, Eq, Structural)]
pub struct Span {
    pub line: usize,
    pub column: usize,
}

/// Whether an attribute is written `#[..]` (outer) or `#![..]` (inner).
#[derive(Clone, Copy, Debug, PartialEq, Eq, Structural)]
pub enum AttrStyle {
    Outer,
    Inner,
}

/// An attribute: its path as written (`test`, `tokio::test`), the tokens
/// inside its delimiters when it has a delimited argument list, and its style.
#[derive(Clone, Debug, PartialEq, Eq)]
pub struct Attribute {
    pub path: String,
    pub args: Option<String>,
    pub style: AttrStyle,
    pub span: Span,
}

impl Attribute {
    /// An exact copy of the attribute.
    pub fn duplicate(&self) -> (r: Attribute)
        ensures
            r == *self,
    {
        let args = match &self.args {
            Some(a) => Some(a.clone()),
            None => None,
        };
        Attribute { path: self.path.clone(), args, style: self.style, span: self.span }
    }
}

/// One generic parameter of a function, with the tokens that name it.
#[derive(Clone, Debug, PartialEq, Eq)]
pub enum GenericParam {
    Type(String),
    Lifetime(String),
    Const(String),
}

/// The generic parameter list of a function, in declaration order.
#[derive(Clone, Debug, PartialEq, Eq)]
pub struct Generics {
    pub params: Vec<GenericParam>,
    pub span: Span,
}

/// The declared return type of a function, as tokens.
#[derive(Clone, Debug, PartialEq, Eq)]
pub enum ReturnType {
    Default,
    Type(String),
}

impl ReturnType {
    /// An exact copy of the return type.
    pub fn duplicate(&self) -> (r: ReturnType)
        ensures
            r == *self,
    {
        match self {
            ReturnType::Default => ReturnType::Default,
            ReturnType::Type(t) => ReturnType::Type(t.clone()),
        }
    }
}

/// A function declaration. Its parameter list is not modelled: signatures are
/// built by a collaborator of the analysis.
#[derive(Clone, Debug, PartialEq, Eq)]
pub struct ItemFn {
    pub attrs: Vec<Attribute>,
    pub is_async: bool,
    pub is_unsafe: bool,
    pub ident: String,
    pub generics: Generics,
    pub output: ReturnType,
}

/// A top-level declaration of a module; only functions are analysed, any
/// other declaration is carried as its tokens.
#[derive(Clone, Debug, PartialEq, Eq)]
pub enum Item {
    Fn(ItemFn),
    Other(String),
}

/// A module: its attributes, its name, and its declarations when the body is
/// written inline (`None` for `mod m;`).
#[derive(Clone, Debug, PartialEq, Eq)]
pub struct ItemMod {
    pub attrs: Vec<Attribute>,
    pub ident: String,
    pub content: Option<Vec<Item>>,
    pub span: Span,
}

} // verus!
