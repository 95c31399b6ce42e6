//! Rendering a generated expression tree back to source text.
//!
//! The layout is plain and context-free: opaque host text verbatim, one
//! space after commas, closures and casts in parentheses so that the written
//! text binds the way the tree does.
use vstd::prelude::*;

use crate::ast::{expr_view, exprs_view, Expr, ExprV};

verus! {

/// The text of a path from segment `i` on, `::`-joined.
pub open spec fn render_path_s(segs: Seq<Seq<char>>, i: int) -> Seq<char>
    decreases segs.len() - i,
{
    if i < 0 || i >= segs.len() {
        Seq::empty()
    } else if i == 0 {
        segs[0] + render_path_s(segs, 1)
    } else {
        "::"@ + segs[i] + render_path_s(segs, i + 1)
    }
}

/// The text of an argument list from argument `i` on, comma-joined.
pub open spec fn render_args_s(args: Seq<ExprV>, i: int) -> Seq<char>
    decreases args, args.len() - i,
{
    if i < 0 || i >= args.len() {
        Seq::empty()
    } else if i == 0 {
        render_s(args[0]) + render_args_s(args, 1)
    } else {
        ", "@ + render_s(args[i]) + render_args_s(args, i + 1)
    }
}

/// The text of a callee: a closure is parenthesized so that applying it to
/// the argument list reads as one call.
pub open spec fn render_callee_s(f: ExprV) -> Seq<char>
    decreases f, 1int,
{
    if f is Closure {
        "("@ + render_s(f) + ")"@
    } else {
        render_s(f)
    }
}

/// The text of an expression tree.
pub open spec fn render_s(e: ExprV) -> Seq<char>
    decreases e, 0int,
{
    match e {
        ExprV::Opaque { text } => text,
        ExprV::Unit => "()"@,
        ExprV::Path { segs } => render_path_s(segs, 0),
        ExprV::Call { func, args } => render_callee_s(*func) + "("@ + render_args_s(args, 0)
            + ")"@,
        ExprV::MethodCall { recv, name, args } => render_s(*recv) + "."@ + name + "("@
            + render_args_s(args, 0) + ")"@,
        ExprV::Closure { param, body } => "|"@ + param + "| "@ + render_s(*body),
        ExprV::Ref { mutable, inner } => (if mutable {
            "&mut "@
        } else {
            "&"@
        }) + render_s(*inner),
        ExprV::TryProp { inner } => render_s(*inner) + "?"@,
        ExprV::Cast { inner, ty } => "("@ + render_s(*inner) + " as "@ + ty + ")"@,
        ExprV::Block { mutable, var, init, effect } => "{ let "@ + (if mutable {
            "mut "@
        } else {
            Seq::<char>::empty()
        }) + var + " = "@ + render_s(*init) + "; "@ + render_s(*effect) + "; "@ + var + " }"@,
    }
}

/// Copies a piece of text.
fn clone_chars(v: &Vec<char>) -> (r: Vec<char>)
    ensures
        r@ == v@,
{
    let n = v.len();
    let mut r: Vec<char> = Vec::new();
    let mut i: usize = 0;
    while i < n
        invariant
            i <= n,
            n == v@.len(),
            r@ == v@.subrange(0, i as int),
        decreases n - i,
    {
        r.push(v[i]);
        assert(r@ =~= v@.subrange(0, i + 1));
        i = i + 1;
    }
    assert(r@ =~= v@);
    r
}

/// Appends the `::`-joined text of a path.
fn render_path_into(out: &mut Vec<char>, segs: &Vec<Vec<char>>)
    ensures
        final (out)@ == old(out)@ + render_path_s(crate::ast::segs_view(segs@), 0),
{
    let ghost base = out@;
    let ghost segs_v = crate::ast::segs_view(segs@);
    let n = segs.len();
    let mut i: usize = 0;
    while i < n
        invariant
            i <= n,
            n == segs@.len(),
            segs_v == crate::ast::segs_view(segs@),
            base + render_path_s(segs_v, 0) == out@ + render_path_s(segs_v, i as int),
        decreases n - i,
    {
        let ghost pre = out@;
        if i > 0 {
            let mut sep = crate::utils::create_ident("::");
            out.append(&mut sep);
        }
        let mut seg = clone_chars(&segs[i]);
        out.append(&mut seg);
        proof {
            assert(segs_v[i as int] == segs@[i as int]@);
            if i > 0 {
                assert(out@ =~= pre + ("::"@ + segs_v[i as int]));
                assert(pre + ("::"@ + segs_v[i as int]) + render_path_s(segs_v, i + 1) =~= pre
                    + ("::"@ + segs_v[i as int] + render_path_s(segs_v, i + 1)));
            } else {
                assert(out@ =~= pre + segs_v[0]);
                assert(pre + segs_v[0] + render_path_s(segs_v, 1) =~= pre + (segs_v[0]
                    + render_path_s(segs_v, 1)));
            }
        }
        i = i + 1;
    }
    proof {
        assert(out@ + render_path_s(segs_v, n as int) =~= out@);
        assert(base + render_path_s(segs_v, 0) =~= out@);
    }
}

/// Appends a borrowed piece of text.
fn append_str(out: &mut Vec<char>, s: &str)
    ensures
        final (out)@ == old(out)@ + s@,
{
    let mut t = crate::utils::create_ident(s);
    out.append(&mut t);
}

/// The text of an expression tree.
#[verifier::rlimit(100)]
pub fn render_expr(e: &Expr) -> (r: Vec<char>)
    ensures
        r@ == render_s(e@),
    decreases *e,
{
    match e {
        Expr::Opaque { text } => clone_chars(text),
        Expr::Unit => {
            let mut r: Vec<char> = Vec::new();
            append_str(&mut r, "()");
            assert(r@ =~= "()"@);
            r
        },
        Expr::Path { segs } => {
            let mut r: Vec<char> = Vec::new();
            render_path_into(&mut r, segs);
            assert(r@ =~= render_path_s(crate::ast::segs_view(segs@), 0));
            r
        },
        Expr::Call { func, args } => {
            let mut r: Vec<char> = Vec::new();
            let parens = match &**func {
                Expr::Closure { .. } => true,
                _ => false,
            };
            if parens {
                append_str(&mut r, "(");
            }
            let mut f = render_expr(&**func);
            r.append(&mut f);
            if parens {
                append_str(&mut r, ")");
            }
            proof {
                assert(r@ =~= render_callee_s(expr_view(**func)));
            }
            append_str(&mut r, "(");
            render_args_into(&mut r, args);
            append_str(&mut r, ")");
            proof {
                assert(r@ =~= render_s(e@));
            }
            r
        },
        Expr::MethodCall { recv, name, args } => {
            let mut r = render_expr(&**recv);
            append_str(&mut r, ".");
            let mut nm = clone_chars(name);
            r.append(&mut nm);
            append_str(&mut r, "(");
            render_args_into(&mut r, args);
            append_str(&mut r, ")");
            proof {
                assert(r@ =~= render_s(e@));
            }
            r
        },
        Expr::Closure { param, body } => {
            let mut r: Vec<char> = Vec::new();
            append_str(&mut r, "|");
            let mut p = clone_chars(param);
            r.append(&mut p);
            append_str(&mut r, "| ");
            let mut b = render_expr(&**body);
            r.append(&mut b);
            proof {
                assert(r@ =~= render_s(e@));
            }
            r
        },
        Expr::Ref { mutable, inner } => {
            let mut r: Vec<char> = Vec::new();
            if *mutable {
                append_str(&mut r, "&mut ");
            } else {
                append_str(&mut r, "&");
            }
            let mut x = render_expr(&**inner);
            r.append(&mut x);
            proof {
                assert(r@ =~= render_s(e@));
            }
            r
        },
        Expr::TryProp { inner } => {
            let mut r = render_expr(&**inner);
            append_str(&mut r, "?");
            proof {
                assert(r@ =~= render_s(e@));
            }
            r
        },
        Expr::Cast { inner, ty } => {
            let mut r: Vec<char> = Vec::new();
            append_str(&mut r, "(");
            let mut x = render_expr(&**inner);
            r.append(&mut x);
            append_str(&mut r, " as ");
            let mut t = clone_chars(ty);
            r.append(&mut t);
            append_str(&mut r, ")");
            proof {
                assert(r@ =~= render_s(e@));
            }
            r
        },
        Expr::Block { mutable, var, init, effect } => {
            let mut r: Vec<char> = Vec::new();
            append_str(&mut r, "{ let ");
            if *mutable {
                append_str(&mut r, "mut ");
            }
            let mut v1 = clone_chars(var);
            r.append(&mut v1);
            append_str(&mut r, " = ");
            let mut x = render_expr(&**init);
            r.append(&mut x);
            append_str(&mut r, "; ");
            let mut y = render_expr(&**effect);
            r.append(&mut y);
            append_str(&mut r, "; ");
            let mut v2 = clone_chars(var);
            r.append(&mut v2);
            append_str(&mut r, " }");
            proof {
                assert(r@ =~= render_s(e@));
            }
            r
        },
    }
}

/// Appends the comma-joined text of an argument list.
#[verifier::rlimit(100)]
fn render_args_into(out: &mut Vec<char>, args: &Vec<Expr>)
    ensures
        final (out)@ == old(out)@ + render_args_s(exprs_view(args@), 0),
    decreases *args,
{
    let ghost base = out@;
    let ghost args_v = exprs_view(args@);
    proof {
        crate::ast::lemma_exprs_view_is_map(args@);
    }
    let n = args.len();
    let mut i: usize = 0;
    while i < n
        invariant
            i <= n,
            n == args@.len(),
            args_v == exprs_view(args@),
            args_v.len() == n,
            forall|j: int| 0 <= j < n ==> args_v[j] == expr_view(#[trigger] args@[j]),
            base + render_args_s(args_v, 0) == out@ + render_args_s(args_v, i as int),
        decreases n - i,
    {
        let ghost pre = out@;
        if i > 0 {
            append_str(out, ", ");
        }
        proof {
            assert(decreases_to!(*args => args@[i as int]));
        }
        let mut piece = render_expr(&args[i]);
        out.append(&mut piece);
        proof {
            if i > 0 {
                assert(out@ =~= pre + (", "@ + render_s(args_v[i as int])));
                assert(pre + (", "@ + render_s(args_v[i as int])) + render_args_s(args_v, i + 1)
                    =~= pre + (", "@ + render_s(args_v[i as int]) + render_args_s(
                    args_v,
                    i + 1,
                )));
            } else {
                assert(out@ =~= pre + render_s(args_v[0]));
                assert(pre + render_s(args_v[0]) + render_args_s(args_v, 1) =~= pre + (render_s(
                    args_v[0],
                ) + render_args_s(args_v, 1)));
            }
        }
        i = i + 1;
    }
    proof {
        assert(out@ + render_args_s(args_v, n as int) =~= out@);
        assert(base + render_args_s(args_v, 0) =~= out@);
    }
}

} // verus!
