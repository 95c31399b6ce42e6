//! The data model of the pipeline compiler: tokens, diagnostics, and the
//! expression tree that the generator builds.
//!
//! A host expression embedded in a pipeline (the initial value, a call
//! argument, a closure body, a cast type) is never inspected: it is carried
//! as the exact span of source text it was written as (`Expr::Opaque`).
use vstd::prelude::*;

verus! {

/// What a single token of pipeline source is.
///
/// Only the punctuation that the pipeline grammar itself gives meaning to is
/// distinguished; every other character of an embedded host expression is an
/// `Other` (or a `Lit` for a string/character literal, which is scanned as a
/// unit so that separators inside it are not mistaken for structure).
#[derive(Clone, Copy, PartialEq, Eq, Structural, Debug)]
pub enum TokKind {
    /// `=>`, the step separator.
    Sep,
    /// `::` between path segments.
    PathSep,
    Dot,
    Comma,
    /// `|`, the closure introducer.
    Pipe,
    /// `&`, the and-then step marker.
    Amp,
    /// `?`, the try step marker.
    Question,
    /// `+`, the clone step marker.
    Plus,
    /// `*`, the unwrap step marker.
    Star,
    /// `@`, the map step marker.
    At,
    /// `#`, the apply step marker.
    Hash,
    /// `$`, the apply-mut step marker.
    Dollar,
    LParen,
    RParen,
    LBracket,
    RBracket,
    LBrace,
    RBrace,
    /// An identifier or keyword word.
    Ident,
    /// A string or character literal, kept whole.
    Lit,
    /// Any other single character.
    Other,
}

/// One token: its kind and the half-open span `start..end` of source
/// characters it covers.
#[derive(Clone, Copy, PartialEq, Eq, Structural, Debug)]
pub struct Token {
    pub kind: TokKind,
    pub start: usize,
    pub end: usize,
}

/// Why a compilation failed.
#[derive(Clone, Copy, PartialEq, Eq, Structural, Debug)]
pub enum ErrKind {
    /// A string or character literal is missing its closing quote.
    UnterminatedLiteral,
    /// A block comment is missing its `*/`.
    UnterminatedComment,
    /// The pipeline has no initial expression.
    ExpectedExpression,
    /// A step separator stands at the end with no step after it.
    TrailingSeparator,
    /// No operation shape matches the tokens after a step marker.
    UnrecognizedOperation,
    /// A parenthesized conversion group holds neither `as Type` nor a type path.
    MalformedConversion,
    /// An identifier was required (after a dot, in a path, as a closure parameter).
    ExpectedIdent,
    /// A closure parameter is not followed by a closing `|`.
    ExpectedClosurePipe,
    /// An argument list is malformed (an empty argument, or a missing `)`).
    MalformedArguments,
    /// Tokens remain after a complete step where only `=>` or the end may follow.
    UnexpectedToken,
    /// A closing delimiter has no opener, or an opened group never closes.
    UnbalancedDelimiter,
    /// A method-call operation's target is a qualified path, not a plain name.
    NotAPlainName,
}

/// A compile-time diagnostic: what went wrong and where.
///
/// For the lexer's errors `pos` is a character offset into the source; for
/// parser and generator errors it is the index of the offending token.
#[derive(Clone, Copy, PartialEq, Eq, Structural, Debug)]
pub struct Diag {
    pub kind: ErrKind,
    pub pos: usize,
}

/// How a step threads the accumulated value into its operation.
#[derive(Clone, Copy, PartialEq, Eq, Structural, Debug)]
pub enum PipeType {
    /// `=>`: apply the operation directly.
    Basic,
    /// `=>&`: wrap the operation in a closure handed to `and_then`.
    AndThen,
    /// `=>+`: clone the value, then apply the operation to the clone.
    Clone,
    /// `=>@`: wrap the operation in a closure handed to `map`.
    Mapped,
    /// `=>?`: propagate failure with `?`, then apply the operation.
    Try,
    /// `=>*`: force-unwrap, then apply the operation.
    Unwrap,
    /// `=>#`: bind to a fresh temporary, run the operation on `&temp` for its
    /// effect, and let the unchanged temporary flow on.
    Apply,
    /// `=>$`: as `Apply`, but the temporary is mutable and the operation
    /// receives `&mut temp`.
    ApplyMut,
}

/// The generated expression tree.
///
/// Identifiers and opaque host text are sequences of characters; the tree is
/// rebuilt at every step of the fold and never mutated in place.
pub enum Expr {
    /// A host expression carried through verbatim, as its source text.
    Opaque { text: Vec<char> },
    /// The empty tuple `()`; inside an argument list it is the placeholder.
    Unit,
    /// A possibly qualified name, one segment per element.
    Path { segs: Vec<Vec<char>> },
    /// `func(args)`.
    Call { func: Box<Expr>, args: Vec<Expr> },
    /// `recv.name(args)`.
    MethodCall { recv: Box<Expr>, name: Vec<char>, args: Vec<Expr> },
    /// `|param| body`.
    Closure { param: Vec<char>, body: Box<Expr> },
    /// `&inner` or `&mut inner`.
    Ref { mutable: bool, inner: Box<Expr> },
    /// `inner?`.
    TryProp { inner: Box<Expr> },
    /// `inner as ty`.
    Cast { inner: Box<Expr>, ty: Vec<char> },
    /// `{ let var = init; effect; var }`, with `let mut` when `mutable`.
    Block { mutable: bool, var: Vec<char>, init: Box<Expr>, effect: Box<Expr> },
}

/// The mathematical model of an [`Expr`]: the same shape over `Seq`.
#[verifier::ext_equal]
pub enum ExprV {
    Opaque { text: Seq<char> },
    Unit,
    Path { segs: Seq<Seq<char>> },
    Call { func: Box<ExprV>, args: Seq<ExprV> },
    MethodCall { recv: Box<ExprV>, name: Seq<char>, args: Seq<ExprV> },
    Closure { param: Seq<char>, body: Box<ExprV> },
    Ref { mutable: bool, inner: Box<ExprV> },
    TryProp { inner: Box<ExprV> },
    Cast { inner: Box<ExprV>, ty: Seq<char> },
    Block { mutable: bool, var: Seq<char>, init: Box<ExprV>, effect: Box<ExprV> },
}

/// The model of a sequence of path segments.
pub open spec fn segs_view(segs: Seq<Vec<char>>) -> Seq<Seq<char>> {
    segs.map_values(|s: Vec<char>| s@)
}

/// The model of one expression node.
pub open spec fn expr_view(e: Expr) -> ExprV
    decreases e,
{
    match e {
        Expr::Opaque { text } => ExprV::Opaque { text: text@ },
        Expr::Unit => ExprV::Unit,
        Expr::Path { segs } => ExprV::Path { segs: segs_view(segs@) },
        Expr::Call { func, args } => ExprV::Call {
            func: Box::new(expr_view(*func)),
            args: exprs_view(args@),
        },
        Expr::MethodCall { recv, name, args } => ExprV::MethodCall {
            recv: Box::new(expr_view(*recv)),
            name: name@,
            args: exprs_view(args@),
        },
        Expr::Closure { param, body } => ExprV::Closure {
            param: param@,
            body: Box::new(expr_view(*body)),
        },
        Expr::Ref { mutable, inner } => ExprV::Ref {
            mutable,
            inner: Box::new(expr_view(*inner)),
        },
        Expr::TryProp { inner } => ExprV::TryProp { inner: Box::new(expr_view(*inner)) },
        Expr::Cast { inner, ty } => ExprV::Cast {
            inner: Box::new(expr_view(*inner)),
            ty: ty@,
        },
        Expr::Block { mutable, var, init, effect } => ExprV::Block {
            mutable,
            var: var@,
            init: Box::new(expr_view(*init)),
            effect: Box::new(expr_view(*effect)),
        },
    }
}

/// The model of a sequence of expression nodes, element by element.
pub open spec fn exprs_view(es: Seq<Expr>) -> Seq<ExprV>
    decreases es,
{
    if es.len() == 0 {
        Seq::empty()
    } else {
        exprs_view(es.subrange(0, es.len() - 1)).push(expr_view(es[es.len() - 1]))
    }
}

impl View for Expr {
    type V = ExprV;

    open spec fn view(&self) -> ExprV {
        expr_view(*self)
    }
}

/// The model of a generator result: the expression's model on success, the
/// diagnostic itself on failure.
pub open spec fn res_view(r: Result<Expr, Diag>) -> Result<ExprV, Diag> {
    match r {
        Ok(e) => Ok(expr_view(e)),
        Err(d) => Err(d),
    }
}

/// `exprs_view` is the element-wise map of `expr_view`.
pub proof fn lemma_exprs_view_is_map(es: Seq<Expr>)
    ensures
        exprs_view(es).len() == es.len(),
        forall|i: int| 0 <= i < es.len() ==> exprs_view(es)[i] == expr_view(#[trigger] es[i]),
    decreases es,
{
    if es.len() > 0 {
        let head = es.subrange(0, es.len() - 1);
        lemma_exprs_view_is_map(head);
        assert forall|i: int| 0 <= i < es.len() implies exprs_view(es)[i] == expr_view(
            #[trigger] es[i],
        ) by {
            if i < es.len() - 1 {
                assert(head[i] == es[i]);
                assert(exprs_view(es)[i] == exprs_view(head)[i]);
            }
        }
    }
}

/// The binding name of a block expression.
pub open spec fn block_var(e: ExprV) -> Seq<char> {
    match e {
        ExprV::Block { var, .. } => var,
        _ => Seq::empty(),
    }
}

/// The bound initializer of a block expression.
pub open spec fn block_init(e: ExprV) -> ExprV {
    match e {
        ExprV::Block { init, .. } => *init,
        _ => ExprV::Unit,
    }
}

/// The receiver of a method-call expression.
pub open spec fn method_recv(e: ExprV) -> ExprV {
    match e {
        ExprV::MethodCall { recv, .. } => *recv,
        _ => ExprV::Unit,
    }
}

/// The name of a method-call expression.
pub open spec fn method_name(e: ExprV) -> Seq<char> {
    match e {
        ExprV::MethodCall { name, .. } => name,
        _ => Seq::empty(),
    }
}

/// The arguments of a method-call expression.
pub open spec fn method_args(e: ExprV) -> Seq<ExprV> {
    match e {
        ExprV::MethodCall { args, .. } => args,
        _ => Seq::empty(),
    }
}

/// The parameter of a closure expression.
pub open spec fn closure_param(e: ExprV) -> Seq<char> {
    match e {
        ExprV::Closure { param, .. } => param,
        _ => Seq::empty(),
    }
}

/// The body of a closure expression.
pub open spec fn closure_body(e: ExprV) -> ExprV {
    match e {
        ExprV::Closure { body, .. } => *body,
        _ => ExprV::Unit,
    }
}

/// Inserting a path segment inserts its model.
pub proof fn lemma_segs_view_insert(segs: Seq<Vec<char>>, i: int, seg: Vec<char>)
    requires
        0 <= i <= segs.len(),
    ensures
        segs_view(segs.insert(i, seg)) == segs_view(segs).insert(i, seg@),
{
    assert(segs_view(segs.insert(i, seg)) =~= segs_view(segs).insert(i, seg@));
}

/// The model of a one-element sequence.
pub proof fn lemma_exprs_view_singleton(e: Expr)
    ensures
        exprs_view(seq![e]) == seq![expr_view(e)],
{
    let s = seq![e];
    assert(s.subrange(0, 0) =~= Seq::<Expr>::empty());
    assert(exprs_view(Seq::<Expr>::empty()) == Seq::<ExprV>::empty());
    assert(exprs_view(s) == exprs_view(s.subrange(0, 0)).push(expr_view(s[0])));
    assert(exprs_view(s) =~= seq![expr_view(e)]);
}

/// Updating one element updates the model pointwise.
pub proof fn lemma_exprs_view_update(es: Seq<Expr>, i: int, e: Expr)
    requires
        0 <= i < es.len(),
    ensures
        exprs_view(es.update(i, e)) == exprs_view(es).update(i, expr_view(e)),
{
    lemma_exprs_view_is_map(es);
    lemma_exprs_view_is_map(es.update(i, e));
    assert forall|j: int| 0 <= j < es.len() implies exprs_view(es.update(i, e))[j] == exprs_view(
        es,
    ).update(i, expr_view(e))[j] by {
        assert(exprs_view(es.update(i, e))[j] == expr_view(es.update(i, e)[j]));
    }
    assert(exprs_view(es.update(i, e)) =~= exprs_view(es).update(i, expr_view(e)));
}

/// Inserting an element inserts its model.
pub proof fn lemma_exprs_view_insert(es: Seq<Expr>, i: int, e: Expr)
    requires
        0 <= i <= es.len(),
    ensures
        exprs_view(es.insert(i, e)) == exprs_view(es).insert(i, expr_view(e)),
{
    lemma_exprs_view_is_map(es);
    lemma_exprs_view_is_map(es.insert(i, e));
    assert forall|j: int| 0 <= j < es.len() + 1 implies exprs_view(es.insert(i, e))[j]
        == exprs_view(es).insert(i, expr_view(e))[j] by {
        assert(exprs_view(es.insert(i, e))[j] == expr_view(es.insert(i, e)[j]));
    }
    assert(exprs_view(es.insert(i, e)) =~= exprs_view(es).insert(i, expr_view(e)));
}

} // verus!
