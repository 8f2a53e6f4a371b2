//! The expressions that generated code is made of.
use crate::error::Error;
use crate::text::{texts, tuple, tuple_text};
use vstd::prelude::*;
use vstd::string::*;

verus! {

/// An expression over one identifier.
#[derive(Debug, PartialEq, Eq)]
pub enum Expr {
    /// The identifier itself.
    Path(String),
    /// A borrow of the identifier: `&ident`.
    Reference(String),
    /// What the identifier points to: `*ident`.
    Deref(String),
    /// A call without arguments on the identifier: `receiver.method()`.
    MethodCall { receiver: String, method: String },
    /// An expression supplied as text, inserted as it is.
    Verbatim(String),
}

/// What an [`Expr`] stands for in contracts.
pub enum ExprView {
    Path(Seq<char>),
    Reference(Seq<char>),
    Deref(Seq<char>),
    MethodCall { receiver: Seq<char>, method: Seq<char> },
    Verbatim(Seq<char>),
}

impl View for Expr {
    type V = ExprView;

    open spec fn view(&self) -> ExprView {
        match self {
            Expr::Path(i) => ExprView::Path(i@),
            Expr::Reference(i) => ExprView::Reference(i@),
            Expr::Deref(i) => ExprView::Deref(i@),
            Expr::MethodCall { receiver, method } => ExprView::MethodCall {
                receiver: receiver@,
                method: method@,
            },
            Expr::Verbatim(t) => ExprView::Verbatim(t@),
        }
    }
}

impl ExprView {
    /// The expression written out as source text.
    pub open spec fn text(self) -> Seq<char> {
        match self {
            ExprView::Path(i) => i,
            ExprView::Reference(i) => "&"@ + i,
            ExprView::Deref(i) => "*"@ + i,
            ExprView::MethodCall { receiver, method } => receiver + "."@ + method + "()"@,
            ExprView::Verbatim(t) => t,
        }
    }
}

/// The views of a sequence of expressions.
pub open spec fn expr_views(exprs: Seq<Expr>) -> Seq<ExprView> {
    exprs.map_values(|e: Expr| e@)
}

/// The source text of each expression.
pub open spec fn expr_texts(exprs: Seq<ExprView>) -> Seq<Seq<char>> {
    exprs.map_values(|e: ExprView| e.text())
}

impl Clone for Expr {
    fn clone(&self) -> (c: Self)
        ensures
            c == *self,
    {
        match self {
            Expr::Path(i) => Expr::Path(i.clone()),
            Expr::Reference(i) => Expr::Reference(i.clone()),
            Expr::Deref(i) => Expr::Deref(i.clone()),
            Expr::MethodCall { receiver, method } => Expr::MethodCall {
                receiver: receiver.clone(),
                method: method.clone(),
            },
            Expr::Verbatim(t) => Expr::Verbatim(t.clone()),
        }
    }
}

impl Expr {
    /// The call `receiver.method()`.
    pub fn method_call(receiver: &str, method: &str) -> (e: Expr)
        ensures
            e@ == (ExprView::MethodCall { receiver: receiver@, method: method@ }),
    {
        Expr::MethodCall { receiver: String::from_str(receiver), method: String::from_str(method) }
    }

    /// Writes the expression out as source text.
    pub fn text(&self) -> (out: String)
        ensures
            out@ == self@.text(),
    {
        match self {
            Expr::Path(i) => i.clone(),
            Expr::Reference(i) => {
                let mut out = String::from_str("&");
                out.append(i.as_str());
                out
            },
            Expr::Deref(i) => {
                let mut out = String::from_str("*");
                out.append(i.as_str());
                out
            },
            Expr::MethodCall { receiver, method } => {
                let mut out = receiver.clone();
                out.append(".");
                out.append(method.as_str());
                out.append("()");
                out
            },
            Expr::Verbatim(t) => t.clone(),
        }
    }

    /// Turns what the parser made of an annotation value into an expression that
    /// is inserted as it is, or into the error for a value that is no expression.
    pub fn from_parsed(parsed: Option<String>) -> (r: Result<Expr, Error>)
        ensures
            match parsed {
                Some(t) => r matches Ok(e) && e@ == ExprView::Verbatim(t@),
                None => r == Err::<Expr, Error>(Error::InvalidConfiguration),
            },
    {
        match parsed {
            Some(t) => Ok(Expr::Verbatim(t)),
            None => Err(Error::InvalidConfiguration),
        }
    }

    /// Reads an annotation value as a conversion expression. The parser decides
    /// what is an expression and how it is spelled; a value that it rejects is an
    /// invalid configuration.
    pub fn from_meta(text: &str) -> (r: Result<Expr, Error>)
        ensures
            r matches Ok(e) ==> e@ is Verbatim,
            r matches Err(e) ==> e == Error::InvalidConfiguration,
    {
        Expr::from_parsed(parse_expr(text))
    }
}

/// Writes one expression as it is, and any other number of expressions as a tuple.
pub fn exprs_tuple(exprs: &Vec<Expr>) -> (out: String)
    ensures
        out@ == tuple_text(expr_texts(expr_views(exprs@))),
{
    let mut parts: Vec<String> = Vec::new();
    let mut i: usize = 0;
    while i < exprs.len()
        invariant
            i <= exprs.len(),
            parts@.len() == i,
            forall|j: int| 0 <= j < i ==> (#[trigger] parts@[j])@ == exprs@[j]@.text(),
        decreases exprs.len() - i,
    {
        parts.push(exprs[i].text());
        i = i + 1;
    }
    assert(texts(parts@) =~= expr_texts(expr_views(exprs@)));
    tuple(&parts)
}

/// Reads `text` with `syn::parse_str` as a `syn::Expr` and gives back its tokens,
/// or `None` for text that is not one expression.
///
/// Nothing is claimed about the outcome. The token library reads and spells
/// tokens with the compiler's lexer and printer inside a procedural macro and
/// with its own elsewhere, so the outcome is not a function of the text alone.
#[verifier::external_body]
fn parse_expr(text: &str) -> (parsed: Option<String>) {
    match syn::parse_str::<syn::Expr>(text) {
        Ok(expr) => Some(quote::ToTokens::to_token_stream(&expr).to_string()),
        Err(_) => None,
    }
}

} // verus!
