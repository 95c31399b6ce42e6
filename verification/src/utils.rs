//! The expression generator: how one (step kind, operation) pair turns the
//! accumulated expression into the next one, and the fold that drives it.
use vstd::prelude::*;

use crate::ast::{
    expr_view, exprs_view, res_view, segs_view, Diag, ErrKind, Expr, ExprV, PipeType,
};
use crate::pipe::{PipeOp, PipeOpPairV, PipeOpV};

verus! {

// ---------------------------------------------------------------------------
// Temporary names
// ---------------------------------------------------------------------------
/// The decimal digit character for `d` (which must be below ten).
pub open spec fn dec_digit_char(d: nat) -> char {
    if d == 0 {
        '0'
    } else if d == 1 {
        '1'
    } else if d == 2 {
        '2'
    } else if d == 3 {
        '3'
    } else if d == 4 {
        '4'
    } else if d == 5 {
        '5'
    } else if d == 6 {
        '6'
    } else if d == 7 {
        '7'
    } else if d == 8 {
        '8'
    } else {
        '9'
    }
}

/// The decimal digits of `n`, most significant first.
pub open spec fn dec_digits(n: nat) -> Seq<char>
    decreases n,
{
    if n < 10 {
        seq![dec_digit_char(n)]
    } else {
        dec_digits(n / 10).push(dec_digit_char(n % 10))
    }
}

/// The name of the hygienic temporary for counter value `n`.
pub open spec fn temp_name_s(n: nat) -> Seq<char> {
    "__var_"@ + dec_digits(n)
}

/// The fixed parameter name of the closures built for and-then and map steps.
pub open spec fn map_var_name() -> Seq<char> {
    "__map_var"@
}

proof fn lemma_dec_digits_len(n: nat)
    ensures
        dec_digits(n).len() >= 1,
        n >= 10 ==> dec_digits(n).len() >= 2,
    decreases n,
{
    if n >= 10 {
        lemma_dec_digits_len(n / 10);
    }
}

/// Distinct counter values name distinct temporaries.
pub proof fn lemma_dec_digits_injective(a: nat, b: nat)
    ensures
        dec_digits(a) == dec_digits(b) ==> a == b,
    decreases a,
{
    if dec_digits(a) == dec_digits(b) {
        lemma_dec_digits_len(a);
        lemma_dec_digits_len(b);
        if a < 10 && b < 10 {
            assert(dec_digits(a)[0] == dec_digit_char(a));
            assert(dec_digits(b)[0] == dec_digit_char(b));
        } else if a >= 10 && b >= 10 {
            assert(dec_digits(a).last() == dec_digit_char(a % 10));
            assert(dec_digits(b).last() == dec_digit_char(b % 10));
            assert(dec_digits(a).drop_last() == dec_digits(a / 10));
            assert(dec_digits(b).drop_last() == dec_digits(b / 10));
            lemma_dec_digits_injective(a / 10, b / 10);
            assert(a == 10 * (a / 10) + a % 10);
            assert(b == 10 * (b / 10) + b % 10);
        } else {
            assert(dec_digits(a).len() == dec_digits(b).len());
        }
    }
}

/// The law behind hygiene: the temporary-name generator is injective, so two
/// different counter values can never collide.
pub proof fn lemma_temp_name_injective(a: nat, b: nat)
    ensures
        a != b ==> temp_name_s(a) != temp_name_s(b),
{
    reveal_strlit("__var_");
    if temp_name_s(a) == temp_name_s(b) {
        assert(dec_digits(a) =~= temp_name_s(a).subrange(6, temp_name_s(a).len() as int));
        assert(dec_digits(b) =~= temp_name_s(b).subrange(6, temp_name_s(b).len() as int));
        lemma_dec_digits_injective(a, b);
    }
}

fn dec_chars(n: usize) -> (r: Vec<char>)
    ensures
        r@ == dec_digits(n as nat),
    decreases n,
{
    let d = n % 10;
    let c: char = if d == 0 {
        '0'
    } else if d == 1 {
        '1'
    } else if d == 2 {
        '2'
    } else if d == 3 {
        '3'
    } else if d == 4 {
        '4'
    } else if d == 5 {
        '5'
    } else if d == 6 {
        '6'
    } else if d == 7 {
        '7'
    } else if d == 8 {
        '8'
    } else {
        '9'
    };
    if n < 10 {
        let mut r: Vec<char> = Vec::new();
        r.push(c);
        assert(r@ =~= dec_digits(n as nat));
        r
    } else {
        let mut r = dec_chars(n / 10);
        r.push(c);
        r
    }
}

/// Turns a borrowed piece of text into an owned identifier.
pub fn create_ident(value: &str) -> (r: Vec<char>)
    ensures
        r@ == value@,
{
    let n = value.unicode_len();
    let mut r: Vec<char> = Vec::new();
    let mut i: usize = 0;
    while i < n
        invariant
            i <= n,
            n == value@.len(),
            r@ == value@.subrange(0, i as int),
        decreases n - i,
    {
        r.push(value.get_char(i));
        assert(r@ =~= value@.subrange(0, i + 1));
        i = i + 1;
    }
    assert(r@ =~= value@);
    r
}

/// The hygienic temporary name for counter value `n`.
pub fn temp_name(n: usize) -> (r: Vec<char>)
    ensures
        r@ == temp_name_s(n as nat),
{
    let mut r = create_ident("__var_");
    let mut digits = dec_chars(n);
    r.append(&mut digits);
    r
}

// ---------------------------------------------------------------------------
// Small constructors
// ---------------------------------------------------------------------------
/// Builds `func(args)`.
pub fn call_expr(func: Expr, args: Vec<Expr>) -> (r: Expr)
    ensures
        r@ == (ExprV::Call { func: Box::new(func@), args: exprs_view(args@) }),
{
    Expr::Call { func: Box::new(func), args }
}

/// Builds `receiver.method(args)`.
pub fn call_method_expr(receiver: Expr, method: Vec<char>, args: Vec<Expr>) -> (r: Expr)
    ensures
        r@ == (ExprV::MethodCall {
            recv: Box::new(receiver@),
            name: method@,
            args: exprs_view(args@),
        }),
{
    Expr::MethodCall { recv: Box::new(receiver), name: method, args }
}

/// Wraps a path in an expression node.
pub fn path_to_expr(path: Vec<Vec<char>>) -> (r: Expr)
    ensures
        r@ == (ExprV::Path { segs: segs_view(path@) }),
{
    Expr::Path { segs: path }
}

/// Appends one segment to a path.
pub fn add_to_path(path: &mut Vec<Vec<char>>, ident: Vec<char>)
    ensures
        segs_view(final (path)@) == segs_view(old(path)@).push(ident@),
{
    path.push(ident);
    assert(segs_view(path@) =~= segs_view(old(path)@).push(ident@));
}

fn single_seg(seg: Vec<char>) -> (r: Vec<Vec<char>>)
    ensures
        segs_view(r@) == seq![seg@],
{
    let mut r: Vec<Vec<char>> = Vec::new();
    r.push(seg);
    assert(segs_view(r@) =~= seq![seg@]);
    r
}

fn single_arg(e: Expr) -> (r: Vec<Expr>)
    ensures
        exprs_view(r@) == seq![e@],
{
    let mut r: Vec<Expr> = Vec::new();
    r.push(e);
    proof {
        assert(r@ =~= seq![e]);
        crate::ast::lemma_exprs_view_singleton(e);
    }
    r
}

// ---------------------------------------------------------------------------
// Placeholder substitution
// ---------------------------------------------------------------------------
/// Whether an argument is the explicit `()` placeholder.
pub fn replace_empty_paren_closure(v: &Expr) -> (r: bool)
    ensures
        r == (v@ is Unit),
{
    match v {
        Expr::Unit => true,
        _ => false,
    }
}

/// The index of the first placeholder at or after `i`, or -1 when there is none.
pub open spec fn first_unit_from(args: Seq<ExprV>, i: int) -> int
    decreases args.len() - i when 0 <= i <= args.len()
{
    if i >= args.len() {
        -1
    } else if args[i] is Unit {
        i
    } else {
        first_unit_from(args, i + 1)
    }
}

pub proof fn lemma_first_unit_from(args: Seq<ExprV>, i: int)
    requires
        0 <= i <= args.len(),
    ensures
        ({
            let r = first_unit_from(args, i);
            &&& r == -1 ==> forall|j: int| i <= j < args.len() ==> !(#[trigger] args[j] is Unit)
            &&& r != -1 ==> i <= r < args.len() && args[r] is Unit && forall|j: int|
                i <= j < r ==> !(#[trigger] args[j] is Unit)
        }),
    decreases args.len() - i,
{
    if i < args.len() && !(args[i] is Unit) {
        lemma_first_unit_from(args, i + 1);
    }
}

/// Where the piped value lands: in place of the first placeholder if one is
/// given, else as a new first argument.
pub open spec fn subst_args_s(args: Seq<ExprV>, sub: ExprV) -> Seq<ExprV> {
    let i = first_unit_from(args, 0);
    if i == -1 {
        args.insert(0, sub)
    } else {
        args.update(i, sub)
    }
}

/// Splices `sub` into `args`: it replaces the first `()` placeholder, or is
/// inserted at the front when no placeholder is given.
pub fn substitute_args(args: &mut Vec<Expr>, sub: Expr)
    ensures
        exprs_view(final (args)@) == subst_args_s(exprs_view(old(args)@), sub@),
{
    let ghost orig = exprs_view(args@);
    proof {
        crate::ast::lemma_exprs_view_is_map(args@);
        lemma_first_unit_from(orig, 0);
    }
    let n = args.len();
    let mut i: usize = 0;
    while i < n
        invariant
            i <= n,
            n == args@.len(),
            orig == exprs_view(args@),
            args@ == old(args)@,
            orig.len() == n,
            forall|j: int| 0 <= j < i ==> !(#[trigger] orig[j] is Unit),
            forall|j: int| 0 <= j < n ==> orig[j] == expr_view(#[trigger] args@[j]),
        decreases n - i,
    {
        if replace_empty_paren_closure(&args[i]) {
            assert(first_unit_from(orig, 0) == i as int) by {
                lemma_first_unit_from(orig, 0);
            }
            let ghost pre = args@;
            args.set(i, sub);
            proof {
                crate::ast::lemma_exprs_view_update(pre, i as int, sub);
            }
            return ;
        }
        i = i + 1;
    }
    assert(first_unit_from(orig, 0) == -1) by {
        lemma_first_unit_from(orig, 0);
    }
    let ghost pre = args@;
    args.insert(0, sub);
    proof {
        crate::ast::lemma_exprs_view_insert(pre, 0, sub);
        assert(orig =~= exprs_view(pre));
    }
}

// ---------------------------------------------------------------------------
// Operation application
// ---------------------------------------------------------------------------
/// The single plain name of a method-call target, or the diagnostic that the
/// target is not one.
pub fn try_get_call_ident(path: Vec<Vec<char>>, pos: usize) -> (r: Result<Vec<char>, Diag>)
    ensures
        segs_view(path@).len() == 1 ==> (r matches Ok(name) && name@ == segs_view(path@)[0]),
        segs_view(path@).len() != 1 ==> r == Err::<Vec<char>, Diag>(
            Diag { kind: ErrKind::NotAPlainName, pos },
        ),
{
    let mut path = path;
    if path.len() == 1 {
        match path.pop() {
            Some(name) => Ok(name),
            None => Err(Diag { kind: ErrKind::NotAPlainName, pos }),
        }
    } else {
        Err(Diag { kind: ErrKind::NotAPlainName, pos })
    }
}

/// What applying `op` to the expression `e` yields: the heart of every step.
pub open spec fn apply_op_s(op: PipeOpV, e: ExprV) -> Result<ExprV, Diag> {
    match op {
        PipeOpV::NoOp => Ok(e),
        PipeOpV::FnCall { path, args } => Ok(
            ExprV::Call { func: Box::new(ExprV::Path { segs: path }), args: subst_args_s(args, e) },
        ),
        PipeOpV::MethodCall { path, args, pos } => if path.len() == 1 {
            Ok(ExprV::MethodCall { recv: Box::new(e), name: path[0], args })
        } else {
            Err(Diag { kind: ErrKind::NotAPlainName, pos })
        },
        PipeOpV::Closure { param, body } => Ok(
            ExprV::Call {
                func: Box::new(ExprV::Closure { param, body: Box::new(body) }),
                args: seq![e],
            },
        ),
        PipeOpV::TypeFrom { path } => Ok(
            ExprV::Call {
                func: Box::new(ExprV::Path { segs: path.push("from"@) }),
                args: seq![e],
            },
        ),
        PipeOpV::TypeTryFrom { path } => Ok(
            ExprV::Call {
                func: Box::new(ExprV::Path { segs: path.push("try_from"@) }),
                args: seq![e],
            },
        ),
        PipeOpV::TypeAs { ty } => Ok(ExprV::Cast { inner: Box::new(e), ty }),
    }
}

/// Applies `op` to `expr` directly.
pub fn apply_op(op: PipeOp, expr: Expr) -> (r: Result<Expr, Diag>)
    ensures
        res_view(r) == apply_op_s(op@, expr@),
{
    match op {
        PipeOp::NoOp => Ok(expr),
        PipeOp::FnCall { path, mut args } => {
            substitute_args(&mut args, expr);
            Ok(call_expr(path_to_expr(path), args))
        },
        PipeOp::MethodCall { path, args, pos } => {
            match try_get_call_ident(path, pos) {
                Ok(ident) => Ok(call_method_expr(expr, ident, args)),
                Err(d) => Err(d),
            }
        },
        PipeOp::Closure { param, body } => {
            let closure = Expr::Closure { param, body: Box::new(body) };
            Ok(call_expr(closure, single_arg(expr)))
        },
        PipeOp::TypeFrom { mut path } => {
            add_to_path(&mut path, create_ident("from"));
            Ok(call_expr(path_to_expr(path), single_arg(expr)))
        },
        PipeOp::TypeTryFrom { mut path } => {
            add_to_path(&mut path, create_ident("try_from"));
            Ok(call_expr(path_to_expr(path), single_arg(expr)))
        },
        PipeOp::TypeAs { ty } => Ok(Expr::Cast { inner: Box::new(expr), ty }),
    }
}

// ---------------------------------------------------------------------------
// Step lowering
// ---------------------------------------------------------------------------
/// What an and-then or map step yields: `op` is wrapped in a one-parameter
/// closure handed to the combinator method `method`, never inlined.
pub open spec fn closure_call_s(op: PipeOpV, call_on: ExprV, method: Seq<char>) -> Result<
    ExprV,
    Diag,
> {
    match apply_op_s(op, ExprV::Path { segs: seq![map_var_name()] }) {
        Ok(body) => Ok(
            ExprV::MethodCall {
                recv: Box::new(call_on),
                name: method,
                args: seq![
                    ExprV::Closure { param: map_var_name(), body: Box::new(body) },
                ],
            },
        ),
        Err(d) => Err(d),
    }
}

/// Builds `call_on.method(|__map_var| op applied to __map_var)`.
pub fn get_fn_closure_call(pipe: PipeOp, call_on: Expr, method_name: &str) -> (r: Result<
    Expr,
    Diag,
>)
    ensures
        res_view(r) == closure_call_s(pipe@, call_on@, method_name@),
{
    let var_expr = path_to_expr(single_seg(create_ident("__map_var")));
    match apply_op(pipe, var_expr) {
        Ok(applied) => {
            let closure = Expr::Closure {
                param: create_ident("__map_var"),
                body: Box::new(applied),
            };
            Ok(call_method_expr(call_on, create_ident(method_name), single_arg(closure)))
        },
        Err(d) => Err(d),
    }
}

/// What an apply or apply-mut step yields for temporary number `n`: the
/// accumulated expression is bound to the fresh temporary, the operation runs
/// on a reference to it for its effect alone, and the temporary itself is the
/// block's result, so the value flows forward unchanged by the operation.
pub open spec fn apply_block_s(op: PipeOpV, e: ExprV, mutable: bool, n: nat) -> Result<
    ExprV,
    Diag,
> {
    let var = temp_name_s(n);
    match apply_op_s(
        op,
        ExprV::Ref { mutable, inner: Box::new(ExprV::Path { segs: seq![var] }) },
    ) {
        Ok(effect) => Ok(
            ExprV::Block {
                mutable,
                var,
                init: Box::new(e),
                effect: Box::new(effect),
            },
        ),
        Err(d) => Err(d),
    }
}

/// Builds `{ let [mut] __var_n = expr; op applied to &[mut] __var_n; __var_n }`.
pub fn get_apply_block(op: PipeOp, expr: Expr, mutable: bool, closure_count: usize) -> (r: Result<
    Expr,
    Diag,
>)
    ensures
        res_view(r) == apply_block_s(op@, expr@, mutable, closure_count as nat),
{
    let var_expr = path_to_expr(single_seg(temp_name(closure_count)));
    let reference = Expr::Ref { mutable, inner: Box::new(var_expr) };
    match apply_op(op, reference) {
        Ok(applied) => Ok(
            Expr::Block {
                mutable,
                var: temp_name(closure_count),
                init: Box::new(expr),
                effect: Box::new(applied),
            },
        ),
        Err(d) => Err(d),
    }
}

/// What one whole step yields from the accumulated expression `e` at hygiene
/// counter `c`, together with the counter after the step. The counter grows
/// exactly on apply and apply-mut steps, before the temporary is named.
pub open spec fn apply_pipe_s(pipe: PipeType, op: PipeOpV, e: ExprV, c: nat) -> (Result<
    ExprV,
    Diag,
>, nat) {
    match pipe {
        PipeType::Basic => (apply_op_s(op, e), c),
        PipeType::AndThen => (closure_call_s(op, e, "and_then"@), c),
        PipeType::Mapped => (closure_call_s(op, e, "map"@), c),
        PipeType::Clone => (
            apply_op_s(
                op,
                ExprV::MethodCall { recv: Box::new(e), name: "clone"@, args: Seq::empty() },
            ),
            c,
        ),
        PipeType::Try => (apply_op_s(op, ExprV::TryProp { inner: Box::new(e) }), c),
        PipeType::Unwrap => (
            apply_op_s(
                op,
                ExprV::MethodCall { recv: Box::new(e), name: "unwrap"@, args: Seq::empty() },
            ),
            c,
        ),
        PipeType::Apply => (apply_block_s(op, e, false, c + 1), c + 1),
        PipeType::ApplyMut => (apply_block_s(op, e, true, c + 1), c + 1),
    }
}

/// Lowers one step: threads `expr` into `op` as `pipe` directs, stepping the
/// hygiene counter on apply and apply-mut steps.
pub fn apply_pipe(pipe: PipeType, expr: Expr, closure_count: &mut usize, op: PipeOp) -> (r: Result<
    Expr,
    Diag,
>)
    requires
        *old(closure_count) < usize::MAX,
    ensures
        ({
            let (rs, cs) = apply_pipe_s(pipe, op@, expr@, *old(closure_count) as nat);
            res_view(r) == rs && *final (closure_count) as nat == cs
        }),
{
    match pipe {
        PipeType::Basic => apply_op(op, expr),
        PipeType::AndThen => get_fn_closure_call(op, expr, "and_then"),
        PipeType::Mapped => get_fn_closure_call(op, expr, "map"),
        PipeType::Clone => {
            let method_expr = call_method_expr(expr, create_ident("clone"), Vec::new());
            apply_op(op, method_expr)
        },
        PipeType::Try => {
            let try_expr = Expr::TryProp { inner: Box::new(expr) };
            apply_op(op, try_expr)
        },
        PipeType::Unwrap => {
            let method_expr = call_method_expr(expr, create_ident("unwrap"), Vec::new());
            apply_op(op, method_expr)
        },
        PipeType::Apply => {
            *closure_count = *closure_count + 1;
            get_apply_block(op, expr, false, *closure_count)
        },
        PipeType::ApplyMut => {
            *closure_count = *closure_count + 1;
            get_apply_block(op, expr, true, *closure_count)
        },
    }
}

/// What the whole fold yields: steps are lowered left to right from the
/// accumulated expression `acc`, and the first failure aborts the rest.
pub open spec fn run_steps_s(pairs: Seq<PipeOpPairV>, acc: ExprV, c: nat) -> Result<ExprV, Diag>
    decreases pairs.len(),
{
    if pairs.len() == 0 {
        Ok(acc)
    } else {
        let (r, c2) = apply_pipe_s(pairs[0].pipe_type, pairs[0].operation, acc, c);
        match r {
            Ok(e2) => run_steps_s(pairs.subrange(1, pairs.len() as int), e2, c2),
            Err(d) => Err(d),
        }
    }
}

// ---------------------------------------------------------------------------
// Laws of the generator
// ---------------------------------------------------------------------------
/// A pipeline with no steps yields the initial expression unchanged.
pub proof fn law_zero_steps(e: ExprV, c: nat)
    ensures
        run_steps_s(Seq::empty(), e, c) == Ok::<ExprV, Diag>(e),
{
}

/// A basic step whose operation is the no-op leaves the accumulated
/// expression and the hygiene counter unchanged.
pub proof fn law_basic_noop(e: ExprV, c: nat)
    ensures
        apply_pipe_s(PipeType::Basic, PipeOpV::NoOp, e, c) == (Ok::<ExprV, Diag>(e), c),
{
}

/// With no explicit placeholder among a call's arguments, the piped value is
/// always inserted as the new first argument; the given arguments follow in
/// their order.
pub proof fn law_call_prepends(path: Seq<Seq<char>>, args: Seq<ExprV>, e: ExprV)
    requires
        forall|j: int| 0 <= j < args.len() ==> !(#[trigger] args[j] is Unit),
    ensures
        apply_op_s(PipeOpV::FnCall { path, args }, e) == Ok::<ExprV, Diag>(
            ExprV::Call { func: Box::new(ExprV::Path { segs: path }), args: args.insert(0, e) },
        ),
{
    lemma_first_unit_from(args, 0);
}

/// With an explicit placeholder, the piped value replaces the first one, and
/// every other argument keeps its place and order.
pub proof fn law_call_placeholder(path: Seq<Seq<char>>, args: Seq<ExprV>, i: int, e: ExprV)
    requires
        0 <= i < args.len(),
        args[i] is Unit,
        forall|j: int| 0 <= j < i ==> !(#[trigger] args[j] is Unit),
    ensures
        apply_op_s(PipeOpV::FnCall { path, args }, e) == Ok::<ExprV, Diag>(
            ExprV::Call { func: Box::new(ExprV::Path { segs: path }), args: args.update(i, e) },
        ),
{
    lemma_first_unit_from(args, 0);
    let r = first_unit_from(args, 0);
    assert(r == i);
}

/// An apply or apply-mut step forwards the piped value untouched: whatever
/// the operation returns, the step's result is a block that binds the
/// accumulated expression to the fresh temporary and yields that temporary.
pub proof fn law_apply_forwards_value(pipe: PipeType, op: PipeOpV, e: ExprV, c: nat, out: ExprV)
    requires
        pipe == PipeType::Apply || pipe == PipeType::ApplyMut,
        apply_pipe_s(pipe, op, e, c).0 == Ok::<ExprV, Diag>(out),
    ensures
        out is Block,
        crate::ast::block_init(out) == e,
        crate::ast::block_var(out) == temp_name_s(c + 1),
        apply_pipe_s(pipe, op, e, c).1 == c + 1,
{
}

/// The hygiene counter never moves backward at any step, so a later apply or
/// apply-mut step always names its temporary with a larger number than any
/// step before it, and the names cannot collide.
pub proof fn lemma_counter_monotone(pipe: PipeType, op: PipeOpV, e: ExprV, c: nat)
    ensures
        apply_pipe_s(pipe, op, e, c).1 >= c,
{
}

/// Two apply or apply-mut steps in the same pipeline bind two distinct
/// temporaries: the outer block's binding name differs from the inner one's.
pub proof fn law_two_apply_steps_distinct(
    k1: PipeType,
    k2: PipeType,
    o1: PipeOpV,
    o2: PipeOpV,
    e: ExprV,
    c: nat,
    out: ExprV,
)
    requires
        k1 == PipeType::Apply || k1 == PipeType::ApplyMut,
        k2 == PipeType::Apply || k2 == PipeType::ApplyMut,
        run_steps_s(
            seq![
                PipeOpPairV { pipe_type: k1, operation: o1 },
                PipeOpPairV { pipe_type: k2, operation: o2 },
            ],
            e,
            c,
        ) == Ok::<ExprV, Diag>(out),
    ensures
        out is Block,
        crate::ast::block_init(out) is Block,
        crate::ast::block_var(out) != crate::ast::block_var(crate::ast::block_init(out)),
{
    let pairs = seq![
        PipeOpPairV { pipe_type: k1, operation: o1 },
        PipeOpPairV { pipe_type: k2, operation: o2 },
    ];
    let (r1, c1) = apply_pipe_s(k1, o1, e, c);
    let mid = r1->Ok_0;
    assert(pairs.subrange(1, 2) =~= seq![PipeOpPairV { pipe_type: k2, operation: o2 }]);
    let rest = pairs.subrange(1, 2);
    assert(rest.subrange(1, 1) =~= Seq::<PipeOpPairV>::empty());
    assert(pairs[0].pipe_type == k1 && pairs[0].operation == o1);
    assert(run_steps_s(pairs, e, c) == match r1 {
        Ok(m) => run_steps_s(rest, m, c1),
        Err(d) => Err(d),
    });
    assert(r1 is Ok);
    let (r2, c2) = apply_pipe_s(k2, o2, mid, c1);
    assert(run_steps_s(rest, mid, c1) == match r2 {
        Ok(m2) => run_steps_s(rest.subrange(1, 1), m2, c2),
        Err(d) => Err(d),
    });
    assert(r2 is Ok && r2->Ok_0 == out);
    law_apply_forwards_value(k1, o1, e, c, mid);
    law_apply_forwards_value(k2, o2, mid, c1, out);
    lemma_temp_name_injective(c + 1, c + 2);
}

/// An and-then or map step wraps the operation in a one-parameter closure
/// and invokes the matching combinator method on the accumulated expression;
/// the operation is applied to the closure's own parameter, never inlined.
pub proof fn law_combinator_wraps(pipe: PipeType, op: PipeOpV, e: ExprV, c: nat, out: ExprV)
    requires
        pipe == PipeType::AndThen || pipe == PipeType::Mapped,
        apply_pipe_s(pipe, op, e, c).0 == Ok::<ExprV, Diag>(out),
    ensures
        apply_pipe_s(pipe, op, e, c).1 == c,
        out is MethodCall,
        crate::ast::method_recv(out) == e,
        crate::ast::method_name(out) == (if pipe == PipeType::AndThen {
            "and_then"@
        } else {
            "map"@
        }),
        crate::ast::method_args(out).len() == 1,
        crate::ast::method_args(out)[0] is Closure,
        crate::ast::closure_param(crate::ast::method_args(out)[0]) == map_var_name(),
        apply_op_s(op, ExprV::Path { segs: seq![map_var_name()] }) == Ok::<ExprV, Diag>(
            crate::ast::closure_body(crate::ast::method_args(out)[0]),
        ),
{
}

/// A try step applies failure propagation to the accumulated expression
/// before the operation: a failing value exits the pipeline outward, and only
/// the success value feeds the operation.
pub proof fn law_try_propagates(op: PipeOpV, e: ExprV, c: nat)
    ensures
        apply_pipe_s(PipeType::Try, op, e, c) == (
            apply_op_s(op, ExprV::TryProp { inner: Box::new(e) }),
            c,
        ),
{
}

} // verus!
