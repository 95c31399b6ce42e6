//! The pipeline's structured representation: operations, steps, and the
//! parsed pipeline itself.
use vstd::prelude::*;

use crate::ast::{
    segs_view, expr_view, exprs_view, Diag, ErrKind, Expr, ExprV, PipeType, TokKind, Token,
};

verus! {

// ---------------------------------------------------------------------------
// Tokens and source text
// ---------------------------------------------------------------------------
/// The text a token covers.
pub open spec fn tok_text(src: Seq<char>, t: Token) -> Seq<char> {
    src.subrange(t.start as int, t.end as int)
}

/// Tokens are well formed for `src`: every span lies inside the source, is
/// nonempty, and the tokens come in source order without overlap.
pub open spec fn toks_wf(src: Seq<char>, toks: Seq<Token>) -> bool {
    &&& forall|k: int|
        0 <= k < toks.len() ==> (#[trigger] toks[k]).start < toks[k].end <= src.len()
    &&& forall|k: int, l: int|
        0 <= k < l < toks.len() ==> (#[trigger] toks[k]).end <= (#[trigger] toks[l]).start
}

pub proof fn lemma_toks_ordered(src: Seq<char>, toks: Seq<Token>, k: int, l: int)
    requires
        toks_wf(src, toks),
        0 <= k <= l < toks.len(),
    ensures
        toks[k].start <= toks[l].start,
        toks[k].end <= toks[l].end,
{
    if k < l {
        assert(toks[k].end <= toks[l].start);
    }
}

/// Copies the span `lo..hi` of the source out as owned text.
pub fn extract_text(src: &Vec<char>, lo: usize, hi: usize) -> (r: Vec<char>)
    requires
        lo <= hi <= src@.len(),
    ensures
        r@ == src@.subrange(lo as int, hi as int),
{
    let mut r: Vec<char> = Vec::new();
    let mut i = lo;
    while i < hi
        invariant
            lo <= i <= hi <= src@.len(),
            r@ == src@.subrange(lo as int, i as int),
        decreases hi - i,
    {
        r.push(src[i]);
        assert(r@ =~= src@.subrange(lo as int, i + 1));
        i = i + 1;
    }
    r
}

/// Whether a token opens a nested group.
pub open spec fn tok_opens(k: TokKind) -> bool {
    k == TokKind::LParen || k == TokKind::LBracket || k == TokKind::LBrace
}

/// Whether a token closes a nested group.
pub open spec fn tok_closes(k: TokKind) -> bool {
    k == TokKind::RParen || k == TokKind::RBracket || k == TokKind::RBrace
}

/// The step kind a marker token selects, if it is one.
pub open spec fn marker_kind(k: TokKind) -> Option<PipeType> {
    match k {
        TokKind::Amp => Some(PipeType::AndThen),
        TokKind::Question => Some(PipeType::Try),
        TokKind::Plus => Some(PipeType::Clone),
        TokKind::Star => Some(PipeType::Unwrap),
        TokKind::At => Some(PipeType::Mapped),
        TokKind::Hash => Some(PipeType::Apply),
        TokKind::Dollar => Some(PipeType::ApplyMut),
        _ => None,
    }
}

// ---------------------------------------------------------------------------
// Scanning embedded host expressions
// ---------------------------------------------------------------------------
/// Scans an embedded host expression from token `i`: it ends before a `=>`
/// at nesting depth zero, or at the end of input. Returns the index after
/// its last token.
pub open spec fn scan_expr_s(toks: Seq<Token>, i: int, depth: int) -> Result<int, Diag>
    decreases toks.len() - i when 0 <= i <= toks.len()
{
    if i >= toks.len() {
        if depth == 0 {
            Ok(i)
        } else {
            Err(Diag { kind: ErrKind::UnbalancedDelimiter, pos: i as usize })
        }
    } else {
        let k = toks[i].kind;
        if depth == 0 && k == TokKind::Sep {
            Ok(i)
        } else if tok_opens(k) {
            scan_expr_s(toks, i + 1, depth + 1)
        } else if tok_closes(k) {
            if depth == 0 {
                Err(Diag { kind: ErrKind::UnbalancedDelimiter, pos: i as usize })
            } else {
                scan_expr_s(toks, i + 1, depth - 1)
            }
        } else {
            scan_expr_s(toks, i + 1, depth)
        }
    }
}

/// Scans one call argument from token `i`: it ends before a `,` or the
/// list's closing `)` at relative depth zero. A step separator there is
/// refused: a step cannot stand inside an argument list.
pub open spec fn scan_arg_s(toks: Seq<Token>, i: int, depth: int) -> Result<int, Diag>
    decreases toks.len() - i when 0 <= i <= toks.len()
{
    if i >= toks.len() {
        Err(Diag { kind: ErrKind::UnbalancedDelimiter, pos: i as usize })
    } else {
        let k = toks[i].kind;
        if depth == 0 && (k == TokKind::Comma || k == TokKind::RParen) {
            Ok(i)
        } else if depth == 0 && k == TokKind::Sep {
            Err(Diag { kind: ErrKind::UnexpectedToken, pos: i as usize })
        } else if tok_opens(k) {
            scan_arg_s(toks, i + 1, depth + 1)
        } else if tok_closes(k) {
            if depth == 0 {
                Err(Diag { kind: ErrKind::UnbalancedDelimiter, pos: i as usize })
            } else {
                scan_arg_s(toks, i + 1, depth - 1)
            }
        } else {
            scan_arg_s(toks, i + 1, depth)
        }
    }
}

/// Scans to the closing `)` of a conversion group from token `i` (just
/// inside the group). Returns the index of that `)`.
pub open spec fn scan_group_s(toks: Seq<Token>, i: int, depth: int) -> Result<int, Diag>
    decreases toks.len() - i when 0 <= i <= toks.len()
{
    if i >= toks.len() {
        Err(Diag { kind: ErrKind::UnbalancedDelimiter, pos: i as usize })
    } else {
        let k = toks[i].kind;
        if depth == 0 && k == TokKind::RParen {
            Ok(i)
        } else if tok_opens(k) {
            scan_group_s(toks, i + 1, depth + 1)
        } else if tok_closes(k) {
            if depth == 0 {
                Err(Diag { kind: ErrKind::UnbalancedDelimiter, pos: i as usize })
            } else {
                scan_group_s(toks, i + 1, depth - 1)
            }
        } else {
            scan_group_s(toks, i + 1, depth)
        }
    }
}

/// The expression a token slice `[i, e)` stands for: the placeholder when it
/// is exactly `()`, else the host text carried verbatim.
pub open spec fn slice_expr_s(src: Seq<char>, toks: Seq<Token>, i: int, e: int) -> ExprV {
    if e - i == 2 && toks[i].kind == TokKind::LParen && toks[i + 1].kind == TokKind::RParen {
        ExprV::Unit
    } else {
        ExprV::Opaque { text: src.subrange(toks[i].start as int, toks[e - 1].end as int) }
    }
}

/// What a step invokes on the value threaded into it.
pub enum PipeOp {
    /// `...`: the identity.
    NoOp,
    /// `name(args)` or a bare `name`: a free-function call. The piped value
    /// is spliced into `args` at the first `()` placeholder, or prepended.
    FnCall { path: Vec<Vec<char>>, args: Vec<Expr> },
    /// `.name(args)` or `.name`: a method call whose receiver is the piped
    /// value. `pos` is the token index of the name, for diagnostics: lowering
    /// fails there when the name is a qualified path rather than plain.
    MethodCall { path: Vec<Vec<char>>, args: Vec<Expr>, pos: usize },
    /// `|param| body`: a one-parameter closure applied to the piped value.
    Closure { param: Vec<char>, body: Expr },
    /// `(Type)`: a call of `Type::from` on the piped value.
    TypeFrom { path: Vec<Vec<char>> },
    /// `(Type?)`: a call of `Type::try_from` on the piped value.
    TypeTryFrom { path: Vec<Vec<char>> },
    /// `(as Type)`: a representation cast of the piped value.
    TypeAs { ty: Vec<char> },
}

/// The mathematical model of a [`PipeOp`].
#[verifier::ext_equal]
pub enum PipeOpV {
    NoOp,
    FnCall { path: Seq<Seq<char>>, args: Seq<ExprV> },
    MethodCall { path: Seq<Seq<char>>, args: Seq<ExprV>, pos: usize },
    Closure { param: Seq<char>, body: ExprV },
    TypeFrom { path: Seq<Seq<char>> },
    TypeTryFrom { path: Seq<Seq<char>> },
    TypeAs { ty: Seq<char> },
}

impl View for PipeOp {
    type V = PipeOpV;

    open spec fn view(&self) -> PipeOpV {
        match *self {
            PipeOp::NoOp => PipeOpV::NoOp,
            PipeOp::FnCall { path, args } => PipeOpV::FnCall {
                path: segs_view(path@),
                args: exprs_view(args@),
            },
            PipeOp::MethodCall { path, args, pos } => PipeOpV::MethodCall {
                path: segs_view(path@),
                args: exprs_view(args@),
                pos,
            },
            PipeOp::Closure { param, body } => PipeOpV::Closure {
                param: param@,
                body: expr_view(body),
            },
            PipeOp::TypeFrom { path } => PipeOpV::TypeFrom { path: segs_view(path@) },
            PipeOp::TypeTryFrom { path } => PipeOpV::TypeTryFrom { path: segs_view(path@) },
            PipeOp::TypeAs { ty } => PipeOpV::TypeAs { ty: ty@ },
        }
    }
}

/// One pipeline stage: how the value is threaded, and what is applied to it.
pub struct PipeOpPair {
    pub pipe_type: crate::ast::PipeType,
    pub operation: PipeOp,
}

/// The mathematical model of a [`PipeOpPair`].
#[verifier::ext_equal]
pub struct PipeOpPairV {
    pub pipe_type: crate::ast::PipeType,
    pub operation: PipeOpV,
}

impl View for PipeOpPair {
    type V = PipeOpPairV;

    open spec fn view(&self) -> PipeOpPairV {
        PipeOpPairV { pipe_type: self.pipe_type, operation: self.operation@ }
    }
}

/// A whole parsed pipeline: the initial expression and its stages in order.
pub struct MacroInput {
    pub initial: Expr,
    pub pipe_pairs: Vec<PipeOpPair>,
}

/// The mathematical model of a [`MacroInput`].
#[verifier::ext_equal]
pub struct MacroInputV {
    pub initial: ExprV,
    pub pipe_pairs: Seq<PipeOpPairV>,
}

impl View for MacroInput {
    type V = MacroInputV;

    open spec fn view(&self) -> MacroInputV {
        MacroInputV {
            initial: self.initial@,
            pipe_pairs: self.pipe_pairs@.map_values(|p: PipeOpPair| p@),
        }
    }
}

// ---------------------------------------------------------------------------
// The grammar, as spec functions
// ---------------------------------------------------------------------------
/// Parses `::`-joined additional path segments from token `i`.
pub open spec fn parse_path_more_s(src: Seq<char>, toks: Seq<Token>, i: int) -> (Result<
    Seq<Seq<char>>,
    Diag,
>, int)
    decreases toks.len() - i when 0 <= i <= toks.len()
{
    if i < toks.len() && toks[i].kind == TokKind::PathSep {
        if i + 1 < toks.len() && toks[i + 1].kind == TokKind::Ident {
            let (rest, j) = parse_path_more_s(src, toks, i + 2);
            match rest {
                Ok(segs) => (Ok(segs.insert(0, tok_text(src, toks[i + 1]))), j),
                Err(d) => (Err(d), j),
            }
        } else {
            (Err(Diag { kind: ErrKind::ExpectedIdent, pos: (i + 1) as usize }), i)
        }
    } else {
        (Ok(Seq::<Seq<char>>::empty()), i)
    }
}

/// Parses a possibly qualified name: an identifier, then any number of
/// `::`-joined identifiers.
pub open spec fn parse_path_s(src: Seq<char>, toks: Seq<Token>, i: int) -> (Result<
    Seq<Seq<char>>,
    Diag,
>, int) {
    if 0 <= i < toks.len() && toks[i].kind == TokKind::Ident {
        let (rest, j) = parse_path_more_s(src, toks, i + 1);
        match rest {
            Ok(segs) => (Ok(segs.insert(0, tok_text(src, toks[i]))), j),
            Err(d) => (Err(d), j),
        }
    } else {
        (Err(Diag { kind: ErrKind::ExpectedIdent, pos: i as usize }), i)
    }
}

/// Parses the items of a nonempty argument list from token `i` (just inside
/// the parens); ends after the closing `)`. A trailing comma is allowed; an
/// empty item is refused.
pub open spec fn parse_args_items_s(src: Seq<char>, toks: Seq<Token>, i: int) -> (Result<
    Seq<ExprV>,
    Diag,
>, int)
    decreases toks.len() - i when 0 <= i <= toks.len()
{
    match scan_arg_s(toks, i, 0) {
        Err(d) => (Err(d), i),
        Ok(e) => if !(i < e < toks.len()) {
            // An empty item; a scan cannot end out of range, as the parser shows.
            (Err(Diag { kind: ErrKind::MalformedArguments, pos: i as usize }), i)
        } else {
            let arg = slice_expr_s(src, toks, i, e);
            if toks[e].kind == TokKind::RParen {
                (Ok(seq![arg]), e + 1)
            } else if e + 1 < toks.len() && toks[e + 1].kind == TokKind::RParen {
                (Ok(seq![arg]), e + 2)
            } else {
                let (rest, j) = parse_args_items_s(src, toks, e + 1);
                match rest {
                    Ok(more) => (Ok(more.insert(0, arg)), j),
                    Err(d) => (Err(d), j),
                }
            }
        },
    }
}

/// Parses an optional parenthesized argument list at token `i`: absent, empty
/// `()`, or nonempty.
pub open spec fn parse_opt_args_s(src: Seq<char>, toks: Seq<Token>, i: int) -> (Result<
    Seq<ExprV>,
    Diag,
>, int) {
    if 0 <= i < toks.len() && toks[i].kind == TokKind::LParen {
        if i + 1 < toks.len() && toks[i + 1].kind == TokKind::RParen {
            (Ok(Seq::<ExprV>::empty()), i + 2)
        } else {
            parse_args_items_s(src, toks, i + 1)
        }
    } else {
        (Ok(Seq::<ExprV>::empty()), i)
    }
}

/// Parses a name and its optional argument list: the shared shape of call
/// and method-call operations.
pub open spec fn parse_reduced_fn_s(src: Seq<char>, toks: Seq<Token>, i: int) -> (Result<
    (Seq<Seq<char>>, Seq<ExprV>),
    Diag,
>, int) {
    let (pr, j) = parse_path_s(src, toks, i);
    match pr {
        Err(d) => (Err(d), j),
        Ok(path) => {
            let (ar, k) = parse_opt_args_s(src, toks, j);
            match ar {
                Err(d) => (Err(d), k),
                Ok(args) => (Ok((path, args)), k),
            }
        },
    }
}

/// Parses a parenthesized conversion group whose `(` stands at token `i`:
/// `as` and a type, or a type path with an optional trailing `?`.
pub open spec fn parse_conversion_s(src: Seq<char>, toks: Seq<Token>, i: int) -> (Result<
    PipeOpV,
    Diag,
>, int) {
    let j = i + 1;
    if j >= toks.len() {
        (Err(Diag { kind: ErrKind::MalformedConversion, pos: j as usize }), i)
    } else if toks[j].kind == TokKind::Ident && tok_text(src, toks[j]) == "as"@ {
        match scan_group_s(toks, j + 1, 0) {
            Err(d) => (Err(d), i),
            Ok(close) => if close == j + 1 {
                (Err(Diag { kind: ErrKind::MalformedConversion, pos: (j + 1) as usize }), i)
            } else {
                (
                    Ok(
                        PipeOpV::TypeAs {
                            ty: src.subrange(
                                toks[j + 1].start as int,
                                toks[close - 1].end as int,
                            ),
                        },
                    ),
                    close + 1,
                )
            },
        }
    } else if toks[j].kind == TokKind::Ident {
        let (pr, k) = parse_path_s(src, toks, j);
        match pr {
            Err(d) => (Err(d), k),
            Ok(path) => if k < toks.len() && toks[k].kind == TokKind::Question {
                if k + 1 < toks.len() && toks[k + 1].kind == TokKind::RParen {
                    (Ok(PipeOpV::TypeTryFrom { path }), k + 2)
                } else {
                    (Err(Diag { kind: ErrKind::MalformedConversion, pos: (k + 1) as usize }), i)
                }
            } else if k < toks.len() && toks[k].kind == TokKind::RParen {
                (Ok(PipeOpV::TypeFrom { path }), k + 1)
            } else {
                (Err(Diag { kind: ErrKind::MalformedConversion, pos: k as usize }), i)
            },
        }
    } else {
        (Err(Diag { kind: ErrKind::MalformedConversion, pos: j as usize }), i)
    }
}

/// Parses a one-parameter closure whose `|` stands at token `i`; the body
/// runs to a depth-zero `=>` or the end.
pub open spec fn parse_closure_s(src: Seq<char>, toks: Seq<Token>, i: int) -> (Result<
    PipeOpV,
    Diag,
>, int) {
    if !(i + 1 < toks.len() && toks[i + 1].kind == TokKind::Ident) {
        (Err(Diag { kind: ErrKind::ExpectedIdent, pos: (i + 1) as usize }), i)
    } else if !(i + 2 < toks.len() && toks[i + 2].kind == TokKind::Pipe) {
        (Err(Diag { kind: ErrKind::ExpectedClosurePipe, pos: (i + 2) as usize }), i)
    } else {
        match scan_expr_s(toks, i + 3, 0) {
            Err(d) => (Err(d), i),
            Ok(e) => if e == i + 3 {
                (Err(Diag { kind: ErrKind::ExpectedExpression, pos: (i + 3) as usize }), i)
            } else {
                (
                    Ok(
                        PipeOpV::Closure {
                            param: tok_text(src, toks[i + 1]),
                            body: ExprV::Opaque {
                                text: src.subrange(
                                    toks[i + 3].start as int,
                                    toks[e - 1].end as int,
                                ),
                            },
                        },
                    ),
                    e,
                )
            },
        }
    }
}

/// Parses one operation from token `i`. The shapes are tried in this order,
/// first match deciding: three dots; a leading dot; a parenthesized
/// conversion; a bare name; a closure introducer; else the token is refused.
pub open spec fn parse_pipe_op_s(src: Seq<char>, toks: Seq<Token>, i: int) -> (Result<
    PipeOpV,
    Diag,
>, int) {
    if i >= toks.len() {
        (Err(Diag { kind: ErrKind::UnrecognizedOperation, pos: i as usize }), i)
    } else if toks[i].kind == TokKind::Dot && i + 2 < toks.len() && toks[i + 1].kind
        == TokKind::Dot && toks[i + 2].kind == TokKind::Dot {
        (Ok(PipeOpV::NoOp), i + 3)
    } else if toks[i].kind == TokKind::Dot {
        let (r, j) = parse_reduced_fn_s(src, toks, i + 1);
        match r {
            Ok(pa) => (
                Ok(PipeOpV::MethodCall { path: pa.0, args: pa.1, pos: (i + 1) as usize }),
                j,
            ),
            Err(d) => (Err(d), j),
        }
    } else if toks[i].kind == TokKind::LParen {
        parse_conversion_s(src, toks, i)
    } else if toks[i].kind == TokKind::Ident {
        let (r, j) = parse_reduced_fn_s(src, toks, i);
        match r {
            Ok(pa) => (Ok(PipeOpV::FnCall { path: pa.0, args: pa.1 }), j),
            Err(d) => (Err(d), j),
        }
    } else if toks[i].kind == TokKind::Pipe {
        parse_closure_s(src, toks, i)
    } else {
        (Err(Diag { kind: ErrKind::UnrecognizedOperation, pos: i as usize }), i)
    }
}

/// Parses one step from token `i`: an optional marker, then one operation;
/// no marker means a basic step.
pub open spec fn parse_pipe_pair_s(src: Seq<char>, toks: Seq<Token>, i: int) -> (Result<
    PipeOpPairV,
    Diag,
>, int) {
    if i >= toks.len() {
        (Err(Diag { kind: ErrKind::TrailingSeparator, pos: i as usize }), i)
    } else {
        match marker_kind(toks[i].kind) {
            Some(t) => {
                let (r, j) = parse_pipe_op_s(src, toks, i + 1);
                match r {
                    Ok(op) => (Ok(PipeOpPairV { pipe_type: t, operation: op }), j),
                    Err(d) => (Err(d), j),
                }
            },
            None => {
                let (r, j) = parse_pipe_op_s(src, toks, i);
                match r {
                    Ok(op) => (Ok(PipeOpPairV { pipe_type: PipeType::Basic, operation: op }), j),
                    Err(d) => (Err(d), j),
                }
            },
        }
    }
}

/// Parses the `=>`-separated, nonempty step list from token `i` to the end
/// of the input.
pub open spec fn parse_pairs_s(src: Seq<char>, toks: Seq<Token>, i: int) -> Result<
    Seq<PipeOpPairV>,
    Diag,
>
    decreases toks.len() - i when 0 <= i <= toks.len()
{
    let (r, j) = parse_pipe_pair_s(src, toks, i);
    match r {
        Err(d) => Err(d),
        Ok(pair) => if !(i < j <= toks.len()) {
            // Never taken: a step consumes at least one token, as the parser shows.
            Err(Diag { kind: ErrKind::UnexpectedToken, pos: i as usize })
        } else if j == toks.len() {
            Ok(seq![pair])
        } else if toks[j].kind == TokKind::Sep {
            match parse_pairs_s(src, toks, j + 1) {
                Ok(rest) => Ok(rest.insert(0, pair)),
                Err(d) => Err(d),
            }
        } else {
            Err(Diag { kind: ErrKind::UnexpectedToken, pos: j as usize })
        },
    }
}

/// Parses a whole pipeline: the initial expression and then, only when a
/// `=>` follows it, a nonempty step list running to the end.
pub open spec fn parse_macro_input_s(src: Seq<char>, toks: Seq<Token>) -> Result<
    MacroInputV,
    Diag,
> {
    match scan_expr_s(toks, 0, 0) {
        Err(d) => Err(d),
        Ok(e) => if e == 0 {
            Err(Diag { kind: ErrKind::ExpectedExpression, pos: 0 })
        } else {
            let initial = slice_expr_s(src, toks, 0, e);
            if e == toks.len() {
                Ok(MacroInputV { initial, pipe_pairs: Seq::<PipeOpPairV>::empty() })
            } else {
                match parse_pairs_s(src, toks, e + 1) {
                    Ok(pairs) => Ok(MacroInputV { initial, pipe_pairs: pairs }),
                    Err(d) => Err(d),
                }
            }
        },
    }
}

// ---------------------------------------------------------------------------
// The parsers
// ---------------------------------------------------------------------------
/// Scans an embedded host expression from `from` to a depth-zero `=>` or the
/// end of input.
pub fn scan_expr(toks: &Vec<Token>, from: usize) -> (r: Result<usize, Diag>)
    requires
        from <= toks@.len(),
    ensures
        match r {
            Ok(e) => scan_expr_s(toks@, from as int, 0) == Ok::<int, Diag>(e as int) && from <= e
                <= toks@.len(),
            Err(d) => scan_expr_s(toks@, from as int, 0) == Err::<int, Diag>(d),
        },
{
    let n = toks.len();
    let mut i = from;
    let mut depth: usize = 0;
    while i < n
        invariant
            from <= i <= n,
            n == toks@.len(),
            depth <= i,
            scan_expr_s(toks@, from as int, 0) == scan_expr_s(toks@, i as int, depth as int),
        decreases n - i,
    {
        let k = toks[i].kind;
        if depth == 0 && k == TokKind::Sep {
            return Ok(i);
        } else if k == TokKind::LParen || k == TokKind::LBracket || k == TokKind::LBrace {
            depth = depth + 1;
            i = i + 1;
        } else if k == TokKind::RParen || k == TokKind::RBracket || k == TokKind::RBrace {
            if depth == 0 {
                return Err(Diag { kind: ErrKind::UnbalancedDelimiter, pos: i });
            }
            depth = depth - 1;
            i = i + 1;
        } else {
            i = i + 1;
        }
    }
    if depth == 0 {
        Ok(n)
    } else {
        Err(Diag { kind: ErrKind::UnbalancedDelimiter, pos: n })
    }
}

/// Scans one call argument from `from` to a depth-zero `,` or `)`.
fn scan_arg(toks: &Vec<Token>, from: usize) -> (r: Result<usize, Diag>)
    requires
        from <= toks@.len(),
    ensures
        match r {
            Ok(e) => scan_arg_s(toks@, from as int, 0) == Ok::<int, Diag>(e as int) && from <= e
                < toks@.len(),
            Err(d) => scan_arg_s(toks@, from as int, 0) == Err::<int, Diag>(d),
        },
{
    let n = toks.len();
    let mut i = from;
    let mut depth: usize = 0;
    while i < n
        invariant
            from <= i <= n,
            n == toks@.len(),
            depth <= i,
            scan_arg_s(toks@, from as int, 0) == scan_arg_s(toks@, i as int, depth as int),
        decreases n - i,
    {
        let k = toks[i].kind;
        if depth == 0 && (k == TokKind::Comma || k == TokKind::RParen) {
            return Ok(i);
        } else if depth == 0 && k == TokKind::Sep {
            return Err(Diag { kind: ErrKind::UnexpectedToken, pos: i });
        } else if k == TokKind::LParen || k == TokKind::LBracket || k == TokKind::LBrace {
            depth = depth + 1;
            i = i + 1;
        } else if k == TokKind::RParen || k == TokKind::RBracket || k == TokKind::RBrace {
            if depth == 0 {
                return Err(Diag { kind: ErrKind::UnbalancedDelimiter, pos: i });
            }
            depth = depth - 1;
            i = i + 1;
        } else {
            i = i + 1;
        }
    }
    Err(Diag { kind: ErrKind::UnbalancedDelimiter, pos: n })
}

/// Scans to the closing `)` of a conversion group.
fn scan_group(toks: &Vec<Token>, from: usize) -> (r: Result<usize, Diag>)
    requires
        from <= toks@.len(),
    ensures
        match r {
            Ok(e) => scan_group_s(toks@, from as int, 0) == Ok::<int, Diag>(e as int) && from <= e
                < toks@.len(),
            Err(d) => scan_group_s(toks@, from as int, 0) == Err::<int, Diag>(d),
        },
{
    let n = toks.len();
    let mut i = from;
    let mut depth: usize = 0;
    while i < n
        invariant
            from <= i <= n,
            n == toks@.len(),
            depth <= i,
            scan_group_s(toks@, from as int, 0) == scan_group_s(toks@, i as int, depth as int),
        decreases n - i,
    {
        let k = toks[i].kind;
        if depth == 0 && k == TokKind::RParen {
            return Ok(i);
        } else if k == TokKind::LParen || k == TokKind::LBracket || k == TokKind::LBrace {
            depth = depth + 1;
            i = i + 1;
        } else if k == TokKind::RParen || k == TokKind::RBracket || k == TokKind::RBrace {
            if depth == 0 {
                return Err(Diag { kind: ErrKind::UnbalancedDelimiter, pos: i });
            }
            depth = depth - 1;
            i = i + 1;
        } else {
            i = i + 1;
        }
    }
    Err(Diag { kind: ErrKind::UnbalancedDelimiter, pos: n })
}

/// The expression a scanned token slice stands for.
#[verifier::rlimit(100)]
fn slice_expr(src: &Vec<char>, toks: &Vec<Token>, i: usize, e: usize) -> (r: Expr)
    requires
        toks_wf(src@, toks@),
        i < e <= toks@.len(),
    ensures
        r@ == slice_expr_s(src@, toks@, i as int, e as int),
{
    if e - i == 2 && toks[i].kind == TokKind::LParen && toks[i + 1].kind == TokKind::RParen {
        Expr::Unit
    } else {
        let lo = toks[i].start;
        let hi = toks[e - 1].end;
        proof {
            lemma_toks_ordered(src@, toks@, i as int, e - 1);
        }
        Expr::Opaque { text: extract_text(src, lo, hi) }
    }
}

/// Parses a possibly qualified name from token `i`.
#[verifier::rlimit(100)]
fn parse_path(src: &Vec<char>, toks: &Vec<Token>, i: usize) -> (r: Result<
    (Vec<Vec<char>>, usize),
    Diag,
>)
    requires
        toks_wf(src@, toks@),
        i <= toks@.len(),
    ensures
        match r {
            Ok(pj) => parse_path_s(src@, toks@, i as int) == (
                Ok::<Seq<Seq<char>>, Diag>(segs_view(pj.0@)),
                pj.1 as int,
            ) && i < pj.1 <= toks@.len(),
            Err(d) => parse_path_s(src@, toks@, i as int).0 == Err::<Seq<Seq<char>>, Diag>(d),
        },
{
    let n = toks.len();
    if i < n && toks[i].kind == TokKind::Ident {
        let first = extract_text(src, toks[i].start, toks[i].end);
        match parse_path_more(src, toks, i + 1) {
            Ok((mut segs, j)) => {
                let ghost pre = segs@;
                segs.insert(0, first);
                proof {
                    crate::ast::lemma_segs_view_insert(pre, 0, first);
                }
                Ok((segs, j))
            },
            Err(d) => Err(d),
        }
    } else {
        Err(Diag { kind: ErrKind::ExpectedIdent, pos: i })
    }
}

/// Parses any `::`-joined additional path segments from token `i`.
#[verifier::rlimit(100)]
fn parse_path_more(src: &Vec<char>, toks: &Vec<Token>, i: usize) -> (r: Result<
    (Vec<Vec<char>>, usize),
    Diag,
>)
    requires
        toks_wf(src@, toks@),
        i <= toks@.len(),
    ensures
        match r {
            Ok(pj) => parse_path_more_s(src@, toks@, i as int) == (
                Ok::<Seq<Seq<char>>, Diag>(segs_view(pj.0@)),
                pj.1 as int,
            ) && i <= pj.1 <= toks@.len(),
            Err(d) => parse_path_more_s(src@, toks@, i as int).0 == Err::<Seq<Seq<char>>, Diag>(
                d,
            ),
        },
    decreases toks@.len() - i,
{
    let n = toks.len();
    if i < n && toks[i].kind == TokKind::PathSep {
        if i + 1 < n && toks[i + 1].kind == TokKind::Ident {
            let seg = extract_text(src, toks[i + 1].start, toks[i + 1].end);
            match parse_path_more(src, toks, i + 2) {
                Ok((mut segs, j)) => {
                    let ghost pre = segs@;
                    segs.insert(0, seg);
                    proof {
                        crate::ast::lemma_segs_view_insert(pre, 0, seg);
                    }
                    Ok((segs, j))
                },
                Err(d) => Err(d),
            }
        } else {
            Err(Diag { kind: ErrKind::ExpectedIdent, pos: i + 1 })
        }
    } else {
        let segs: Vec<Vec<char>> = Vec::new();
        proof {
            assert(segs_view(segs@) =~= Seq::<Seq<char>>::empty());
        }
        Ok((segs, i))
    }
}

/// Parses the items of a nonempty argument list, from just inside the parens.
#[verifier::rlimit(100)]
fn parse_args_items(src: &Vec<char>, toks: &Vec<Token>, i: usize) -> (r: Result<
    (Vec<Expr>, usize),
    Diag,
>)
    requires
        toks_wf(src@, toks@),
        i <= toks@.len(),
    ensures
        match r {
            Ok(aj) => parse_args_items_s(src@, toks@, i as int) == (
                Ok::<Seq<ExprV>, Diag>(exprs_view(aj.0@)),
                aj.1 as int,
            ) && i < aj.1 <= toks@.len(),
            Err(d) => parse_args_items_s(src@, toks@, i as int).0 == Err::<Seq<ExprV>, Diag>(d),
        },
    decreases toks@.len() - i,
{
    let n = toks.len();
    let e = match scan_arg(toks, i) {
        Ok(e) => e,
        Err(d) => {
            return Err(d);
        },
    };
    if !(i < e) {
        return Err(Diag { kind: ErrKind::MalformedArguments, pos: i });
    }
    let arg = slice_expr(src, toks, i, e);
    if toks[e].kind == TokKind::RParen {
        let mut args: Vec<Expr> = Vec::new();
        args.push(arg);
        proof {
            assert(args@ =~= seq![arg]);
            crate::ast::lemma_exprs_view_singleton(arg);
        }
        Ok((args, e + 1))
    } else if e + 1 < n && toks[e + 1].kind == TokKind::RParen {
        let mut args: Vec<Expr> = Vec::new();
        args.push(arg);
        proof {
            assert(args@ =~= seq![arg]);
            crate::ast::lemma_exprs_view_singleton(arg);
        }
        Ok((args, e + 2))
    } else {
        match parse_args_items(src, toks, e + 1) {
            Ok((mut more, j)) => {
                let ghost pre = more@;
                more.insert(0, arg);
                proof {
                    crate::ast::lemma_exprs_view_insert(pre, 0, arg);
                }
                Ok((more, j))
            },
            Err(d) => Err(d),
        }
    }
}

/// Parses an optional parenthesized argument list at token `i`.
#[verifier::rlimit(100)]
fn parse_opt_args(src: &Vec<char>, toks: &Vec<Token>, i: usize) -> (r: Result<
    (Vec<Expr>, usize),
    Diag,
>)
    requires
        toks_wf(src@, toks@),
        i <= toks@.len(),
    ensures
        match r {
            Ok(aj) => parse_opt_args_s(src@, toks@, i as int) == (
                Ok::<Seq<ExprV>, Diag>(exprs_view(aj.0@)),
                aj.1 as int,
            ) && i <= aj.1 <= toks@.len(),
            Err(d) => parse_opt_args_s(src@, toks@, i as int).0 == Err::<Seq<ExprV>, Diag>(d),
        },
{
    let n = toks.len();
    if i < n && toks[i].kind == TokKind::LParen {
        if i + 1 < n && toks[i + 1].kind == TokKind::RParen {
            Ok((Vec::new(), i + 2))
        } else {
            parse_args_items(src, toks, i + 1)
        }
    } else {
        Ok((Vec::new(), i))
    }
}

/// Parses a name and its optional argument list.
#[verifier::rlimit(100)]
pub fn parse_reduced_fn(src: &Vec<char>, toks: &Vec<Token>, i: usize) -> (r: Result<
    (Vec<Vec<char>>, Vec<Expr>, usize),
    Diag,
>)
    requires
        toks_wf(src@, toks@),
        i <= toks@.len(),
    ensures
        match r {
            Ok(paj) => parse_reduced_fn_s(src@, toks@, i as int) == (
                Ok::<(Seq<Seq<char>>, Seq<ExprV>), Diag>(
                    (segs_view(paj.0@), exprs_view(paj.1@)),
                ),
                paj.2 as int,
            ) && i < paj.2 <= toks@.len(),
            Err(d) => parse_reduced_fn_s(src@, toks@, i as int).0 == Err::<
                (Seq<Seq<char>>, Seq<ExprV>),
                Diag,
            >(d),
        },
{
    match parse_path(src, toks, i) {
        Err(d) => Err(d),
        Ok((path, j)) => {
            match parse_opt_args(src, toks, j) {
                Err(d) => Err(d),
                Ok((args, k)) => Ok((path, args, k)),
            }
        },
    }
}

impl PipeOp {
    /// Parses one operation from token `i`, trying the shapes in the fixed
    /// disambiguation order.
    #[verifier::rlimit(100)]
    pub fn parse(src: &Vec<char>, toks: &Vec<Token>, i: usize) -> (r: Result<
        (PipeOp, usize),
        Diag,
    >)
        requires
            toks_wf(src@, toks@),
            i <= toks@.len(),
        ensures
            match r {
                Ok(oj) => parse_pipe_op_s(src@, toks@, i as int) == (
                    Ok::<PipeOpV, Diag>(oj.0@),
                    oj.1 as int,
                ) && i < oj.1 <= toks@.len(),
                Err(d) => parse_pipe_op_s(src@, toks@, i as int).0 == Err::<PipeOpV, Diag>(d),
            },
    {
        let n = toks.len();
        if i >= n {
            return Err(Diag { kind: ErrKind::UnrecognizedOperation, pos: i });
        }
        let k0 = toks[i].kind;
        if k0 == TokKind::Dot && n - i > 2 && toks[i + 1].kind == TokKind::Dot && toks[i
            + 2].kind == TokKind::Dot {
            Ok((PipeOp::NoOp, i + 3))
        } else if k0 == TokKind::Dot {
            match parse_reduced_fn(src, toks, i + 1) {
                Ok((path, args, j)) => Ok((PipeOp::MethodCall { path, args, pos: i + 1 }, j)),
                Err(d) => Err(d),
            }
        } else if k0 == TokKind::LParen {
            Self::parse_conversion(src, toks, i)
        } else if k0 == TokKind::Ident {
            match parse_reduced_fn(src, toks, i) {
                Ok((path, args, j)) => Ok((PipeOp::FnCall { path, args }, j)),
                Err(d) => Err(d),
            }
        } else if k0 == TokKind::Pipe {
            Self::parse_closure(src, toks, i)
        } else {
            Err(Diag { kind: ErrKind::UnrecognizedOperation, pos: i })
        }
    }

    /// Parses a parenthesized conversion group whose `(` stands at token `i`.
    #[verifier::rlimit(100)]
    fn parse_conversion(src: &Vec<char>, toks: &Vec<Token>, i: usize) -> (r: Result<
        (PipeOp, usize),
        Diag,
    >)
        requires
            toks_wf(src@, toks@),
            i < toks@.len(),
        ensures
            match r {
                Ok(oj) => parse_conversion_s(src@, toks@, i as int) == (
                    Ok::<PipeOpV, Diag>(oj.0@),
                    oj.1 as int,
                ) && i < oj.1 <= toks@.len(),
                Err(d) => parse_conversion_s(src@, toks@, i as int).0 == Err::<PipeOpV, Diag>(d),
            },
    {
        let n = toks.len();
        let j = i + 1;
        if j >= n {
            return Err(Diag { kind: ErrKind::MalformedConversion, pos: j });
        }
        if toks[j].kind == TokKind::Ident {
            let t = extract_text(src, toks[j].start, toks[j].end);
            let is_as = t.len() == 2 && t[0] == 'a' && t[1] == 's';
            proof {
                reveal_strlit("as");
                assert("as"@ =~= seq!['a', 's']);
                if is_as {
                    assert(t@ =~= "as"@);
                }
                if t@ == "as"@ {
                    assert(t@.len() == 2 && t@[0] == 'a' && t@[1] == 's');
                }
            }
            if is_as {
                match scan_group(toks, j + 1) {
                    Err(d) => Err(d),
                    Ok(close) => {
                        if close == j + 1 {
                            Err(Diag { kind: ErrKind::MalformedConversion, pos: j + 1 })
                        } else {
                            proof {
                                lemma_toks_ordered(src@, toks@, j + 1, close - 1);
                            }
                            let ty = extract_text(src, toks[j + 1].start, toks[close - 1].end);
                            Ok((PipeOp::TypeAs { ty }, close + 1))
                        }
                    },
                }
            } else {
                match parse_path(src, toks, j) {
                    Err(d) => Err(d),
                    Ok((path, k)) => {
                        if k < n && toks[k].kind == TokKind::Question {
                            if k + 1 < n && toks[k + 1].kind == TokKind::RParen {
                                Ok((PipeOp::TypeTryFrom { path }, k + 2))
                            } else {
                                Err(Diag { kind: ErrKind::MalformedConversion, pos: k + 1 })
                            }
                        } else if k < n && toks[k].kind == TokKind::RParen {
                            Ok((PipeOp::TypeFrom { path }, k + 1))
                        } else {
                            Err(Diag { kind: ErrKind::MalformedConversion, pos: k })
                        }
                    },
                }
            }
        } else {
            Err(Diag { kind: ErrKind::MalformedConversion, pos: j })
        }
    }

    /// Parses a one-parameter closure whose `|` stands at token `i`.
    #[verifier::rlimit(100)]
    fn parse_closure(src: &Vec<char>, toks: &Vec<Token>, i: usize) -> (r: Result<
        (PipeOp, usize),
        Diag,
    >)
        requires
            toks_wf(src@, toks@),
            i < toks@.len(),
        ensures
            match r {
                Ok(oj) => parse_closure_s(src@, toks@, i as int) == (
                    Ok::<PipeOpV, Diag>(oj.0@),
                    oj.1 as int,
                ) && i < oj.1 <= toks@.len(),
                Err(d) => parse_closure_s(src@, toks@, i as int).0 == Err::<PipeOpV, Diag>(d),
            },
    {
        let n = toks.len();
        if !(i + 1 < n && toks[i + 1].kind == TokKind::Ident) {
            return Err(Diag { kind: ErrKind::ExpectedIdent, pos: i + 1 });
        }
        if !(i + 2 < n && toks[i + 2].kind == TokKind::Pipe) {
            return Err(Diag { kind: ErrKind::ExpectedClosurePipe, pos: i + 2 });
        }
        match scan_expr(toks, i + 3) {
            Err(d) => Err(d),
            Ok(e) => {
                if e == i + 3 {
                    Err(Diag { kind: ErrKind::ExpectedExpression, pos: i + 3 })
                } else {
                    let param = extract_text(src, toks[i + 1].start, toks[i + 1].end);
                    proof {
                        lemma_toks_ordered(src@, toks@, i + 3, e - 1);
                    }
                    let body = Expr::Opaque {
                        text: extract_text(src, toks[i + 3].start, toks[e - 1].end),
                    };
                    Ok((PipeOp::Closure { param, body }, e))
                }
            },
        }
    }
}

impl PipeOpPair {
    /// Parses one step from token `i`: an optional marker, then an operation.
    #[verifier::rlimit(100)]
    pub fn parse(src: &Vec<char>, toks: &Vec<Token>, i: usize) -> (r: Result<
        (PipeOpPair, usize),
        Diag,
    >)
        requires
            toks_wf(src@, toks@),
            i <= toks@.len(),
        ensures
            match r {
                Ok(pj) => parse_pipe_pair_s(src@, toks@, i as int) == (
                    Ok::<PipeOpPairV, Diag>(pj.0@),
                    pj.1 as int,
                ) && i < pj.1 <= toks@.len(),
                Err(d) => parse_pipe_pair_s(src@, toks@, i as int).0 == Err::<PipeOpPairV, Diag>(
                    d,
                ),
            },
    {
        let n = toks.len();
        if i >= n {
            return Err(Diag { kind: ErrKind::TrailingSeparator, pos: i });
        }
        let marker: Option<PipeType> = match toks[i].kind {
            TokKind::Amp => Some(PipeType::AndThen),
            TokKind::Question => Some(PipeType::Try),
            TokKind::Plus => Some(PipeType::Clone),
            TokKind::Star => Some(PipeType::Unwrap),
            TokKind::At => Some(PipeType::Mapped),
            TokKind::Hash => Some(PipeType::Apply),
            TokKind::Dollar => Some(PipeType::ApplyMut),
            _ => None,
        };
        match marker {
            Some(t) => {
                match PipeOp::parse(src, toks, i + 1) {
                    Ok((op, j)) => Ok((PipeOpPair { pipe_type: t, operation: op }, j)),
                    Err(d) => Err(d),
                }
            },
            None => {
                match PipeOp::parse(src, toks, i) {
                    Ok((op, j)) => Ok(
                        (PipeOpPair { pipe_type: PipeType::Basic, operation: op }, j),
                    ),
                    Err(d) => Err(d),
                }
            },
        }
    }
}

/// Parses the `=>`-separated, nonempty step list from `from` to the end.
#[verifier::rlimit(100)]
fn parse_pairs(src: &Vec<char>, toks: &Vec<Token>, from: usize) -> (r: Result<
    Vec<PipeOpPair>,
    Diag,
>)
    requires
        toks_wf(src@, toks@),
        from <= toks@.len(),
    ensures
        match r {
            Ok(v) => parse_pairs_s(src@, toks@, from as int) == Ok::<Seq<PipeOpPairV>, Diag>(
                v@.map_values(|p: PipeOpPair| p@),
            ),
            Err(d) => parse_pairs_s(src@, toks@, from as int) == Err::<Seq<PipeOpPairV>, Diag>(d),
        },
{
    let n = toks.len();
    let mut acc: Vec<PipeOpPair> = Vec::new();
    let mut i = from;
    loop
        invariant
            toks_wf(src@, toks@),
            n == toks@.len(),
            from <= i <= n,
            parse_pairs_s(src@, toks@, from as int) == (match parse_pairs_s(
                src@,
                toks@,
                i as int,
            ) {
                Ok(rest) => Ok::<Seq<PipeOpPairV>, Diag>(
                    acc@.map_values(|p: PipeOpPair| p@) + rest,
                ),
                Err(d) => Err::<Seq<PipeOpPairV>, Diag>(d),
            }),
        decreases n - i,
    {
        match PipeOpPair::parse(src, toks, i) {
            Err(d) => {
                return Err(d);
            },
            Ok((pair, j)) => {
                let ghost pre = acc@.map_values(|p: PipeOpPair| p@);
                acc.push(pair);
                proof {
                    assert(acc@.map_values(|p: PipeOpPair| p@) =~= pre.push(pair@));
                }
                if j == n {
                    proof {
                        assert(pre + seq![pair@] =~= acc@.map_values(|p: PipeOpPair| p@));
                    }
                    return Ok(acc);
                } else if toks[j].kind == TokKind::Sep {
                    proof {
                        if parse_pairs_s(src@, toks@, j + 1) is Ok {
                            let rest = parse_pairs_s(src@, toks@, j + 1)->Ok_0;
                            assert(pre + rest.insert(0, pair@) =~= acc@.map_values(
                                |p: PipeOpPair| p@,
                            ) + rest);
                        }
                    }
                    i = j + 1;
                } else {
                    return Err(Diag { kind: ErrKind::UnexpectedToken, pos: j });
                }
            },
        }
    }
}

impl MacroInput {
    /// Parses a whole pipeline: the initial expression and, only when a `=>`
    /// follows it, a nonempty step list.
    #[verifier::rlimit(100)]
    pub fn parse(src: &Vec<char>, toks: &Vec<Token>) -> (r: Result<MacroInput, Diag>)
        requires
            toks_wf(src@, toks@),
        ensures
            match r {
                Ok(m) => parse_macro_input_s(src@, toks@) == Ok::<MacroInputV, Diag>(m@),
                Err(d) => parse_macro_input_s(src@, toks@) == Err::<MacroInputV, Diag>(d),
            },
    {
        let n = toks.len();
        match scan_expr(toks, 0) {
            Err(d) => Err(d),
            Ok(e) => {
                if e == 0 {
                    return Err(Diag { kind: ErrKind::ExpectedExpression, pos: 0 });
                }
                let initial = slice_expr(src, toks, 0, e);
                if e == n {
                    let m = MacroInput { initial, pipe_pairs: Vec::new() };
                    proof {
                        assert(m@.pipe_pairs =~= Seq::<PipeOpPairV>::empty());
                    }
                    Ok(m)
                } else {
                    match parse_pairs(src, toks, e + 1) {
                        Ok(pairs) => Ok(MacroInput { initial, pipe_pairs: pairs }),
                        Err(d) => Err(d),
                    }
                }
            },
        }
    }

    /// Folds the steps left to right over the initial expression, threading
    /// the hygiene counter, and stops at the first failure.
    pub fn run(self) -> (r: Result<Expr, crate::ast::Diag>)
        ensures
            crate::ast::res_view(r) == crate::utils::run_steps_s(
                self@.pipe_pairs,
                self@.initial,
                0,
            ),
    {
        let MacroInput { initial, mut pipe_pairs } = self;
        let ghost all_pairs = pipe_pairs@.map_values(|p: PipeOpPair| p@);
        let ghost init_v = initial@;
        let len0: usize = pipe_pairs.len();
        let ghost n = len0 as int;
        let mut res = initial;
        let mut closure_count: usize = 0;
        while pipe_pairs.len() > 0
            invariant
                n <= usize::MAX,
                all_pairs == self@.pipe_pairs,
                init_v == self@.initial,
                closure_count as int + pipe_pairs@.len() <= n,
                crate::utils::run_steps_s(all_pairs, init_v, 0) == crate::utils::run_steps_s(
                    pipe_pairs@.map_values(|p: PipeOpPair| p@),
                    res@,
                    closure_count as nat,
                ),
            decreases pipe_pairs@.len(),
        {
            let ghost pre = pipe_pairs@.map_values(|p: PipeOpPair| p@);
            let pair = pipe_pairs.remove(0);
            proof {
                assert(pre[0] == pair@);
                assert(pipe_pairs@.map_values(|p: PipeOpPair| p@) =~= pre.subrange(
                    1,
                    pre.len() as int,
                ));
            }
            match crate::utils::apply_pipe(
                pair.pipe_type,
                res,
                &mut closure_count,
                pair.operation,
            ) {
                Ok(next) => {
                    res = next;
                },
                Err(d) => {
                    return Err(d);
                },
            }
        }
        Ok(res)
    }
}

} // verus!
