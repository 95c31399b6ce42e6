// Unit tests of the tokenizer and the expression generator, through the
// library's public pieces.
use spipe::ast::{Diag, ErrKind, Expr, PipeType, TokKind};
use spipe::pipe::{MacroInput, PipeOp, PipeOpPair};
use spipe::render::render_expr;
use spipe::token::tokenize;
use spipe::utils::{
    add_to_path, apply_op, apply_pipe, call_expr, call_method_expr, create_ident,
    get_apply_block, get_fn_closure_call, path_to_expr, replace_empty_paren_closure,
    substitute_args, temp_name, try_get_call_ident,
};

fn chars(s: &str) -> Vec<char> {
    s.chars().collect()
}

fn text(e: &Expr) -> String {
    render_expr(e).into_iter().collect()
}

fn opaque(s: &str) -> Expr {
    Expr::Opaque { text: chars(s) }
}

#[test]
fn tokenize_kinds_and_spans() {
    let src = chars("x => f(a)");
    let toks = tokenize(&src).unwrap();
    let kinds: Vec<TokKind> = toks.iter().map(|t| t.kind).collect();
    assert_eq!(
        kinds,
        vec![
            TokKind::Ident,
            TokKind::Sep,
            TokKind::Ident,
            TokKind::LParen,
            TokKind::Ident,
            TokKind::RParen
        ]
    );
    assert_eq!(toks[0].start, 0);
    assert_eq!(toks[0].end, 1);
    assert_eq!(toks[1].start, 2);
    assert_eq!(toks[1].end, 4);
}

#[test]
fn tokenize_skips_comments_and_groups_literals() {
    let src = chars("a /* f(b */ \"g ) h\" '('");
    let toks = tokenize(&src).unwrap();
    let kinds: Vec<TokKind> = toks.iter().map(|t| t.kind).collect();
    assert_eq!(kinds, vec![TokKind::Ident, TokKind::Lit, TokKind::Lit]);
}

#[test]
fn temp_names_are_distinct() {
    assert_eq!(temp_name(1), chars("__var_1"));
    assert_eq!(temp_name(12), chars("__var_12"));
    assert_ne!(temp_name(1), temp_name(2));
    assert_ne!(temp_name(10), temp_name(100));
}

#[test]
fn create_ident_copies_text() {
    assert_eq!(create_ident("and_then"), chars("and_then"));
    assert_eq!(create_ident(""), chars(""));
}

#[test]
fn placeholder_is_the_empty_tuple() {
    assert!(replace_empty_paren_closure(&Expr::Unit));
    assert!(!replace_empty_paren_closure(&opaque("()")));
    assert!(!replace_empty_paren_closure(&opaque("a")));
}

#[test]
fn substitute_args_replaces_or_prepends() {
    let mut args = vec![opaque("a"), Expr::Unit, opaque("b"), Expr::Unit];
    substitute_args(&mut args, opaque("x"));
    let shown: Vec<String> = args.iter().map(text).collect();
    assert_eq!(shown, vec!["a", "x", "b", "()"]);

    let mut args = vec![opaque("a")];
    substitute_args(&mut args, opaque("x"));
    let shown: Vec<String> = args.iter().map(text).collect();
    assert_eq!(shown, vec!["x", "a"]);
}

#[test]
fn constructors_render_as_written() {
    let call = call_expr(path_to_expr(vec![chars("f")]), vec![opaque("a"), opaque("b")]);
    assert_eq!(text(&call), "f(a, b)");
    let mcall = call_method_expr(opaque("x"), chars("push"), vec![opaque("'!'")]);
    assert_eq!(text(&mcall), "x.push('!')");
    let mut path = vec![chars("std"), chars("mem")];
    add_to_path(&mut path, chars("drop"));
    assert_eq!(text(&path_to_expr(path)), "std::mem::drop");
}

#[test]
fn call_ident_requires_a_plain_name() {
    assert_eq!(try_get_call_ident(vec![chars("push")], 7), Ok(chars("push")));
    assert_eq!(
        try_get_call_ident(vec![chars("std"), chars("mem")], 7),
        Err(Diag { kind: ErrKind::NotAPlainName, pos: 7 })
    );
}

#[test]
fn apply_op_shapes() {
    let noop = apply_op(PipeOp::NoOp, opaque("x")).unwrap();
    assert_eq!(text(&noop), "x");
    let cast = apply_op(PipeOp::TypeAs { ty: chars("f64") }, opaque("x")).unwrap();
    assert_eq!(text(&cast), "(x as f64)");
    let from = apply_op(PipeOp::TypeFrom { path: vec![chars("f64")] }, opaque("x")).unwrap();
    assert_eq!(text(&from), "f64::from(x)");
    let closure = apply_op(
        PipeOp::Closure { param: chars("v"), body: opaque("v + 1") },
        opaque("x"),
    )
    .unwrap();
    assert_eq!(text(&closure), "(|v| v + 1)(x)");
}

#[test]
fn closure_call_and_apply_block() {
    let wrapped = get_fn_closure_call(
        PipeOp::FnCall { path: vec![chars("double")], args: vec![] },
        opaque("r"),
        "map",
    )
    .unwrap();
    assert_eq!(text(&wrapped), "r.map(|__map_var| double(__map_var))");

    let block = get_apply_block(
        PipeOp::FnCall { path: vec![chars("show")], args: vec![] },
        opaque("4"),
        false,
        3,
    )
    .unwrap();
    assert_eq!(text(&block), "{ let __var_3 = 4; show(&__var_3); __var_3 }");
}

#[test]
fn apply_pipe_steps_the_counter_only_on_apply_kinds() {
    let mut count: usize = 0;
    let r = apply_pipe(PipeType::Basic, opaque("x"), &mut count, PipeOp::NoOp).unwrap();
    assert_eq!(text(&r), "x");
    assert_eq!(count, 0);
    let r = apply_pipe(
        PipeType::Apply,
        opaque("x"),
        &mut count,
        PipeOp::FnCall { path: vec![chars("f")], args: vec![] },
    )
    .unwrap();
    assert_eq!(text(&r), "{ let __var_1 = x; f(&__var_1); __var_1 }");
    assert_eq!(count, 1);
}

#[test]
fn run_folds_steps_in_order() {
    let input = MacroInput {
        initial: opaque("x"),
        pipe_pairs: vec![
            PipeOpPair {
                pipe_type: PipeType::Basic,
                operation: PipeOp::FnCall { path: vec![chars("f")], args: vec![] },
            },
            PipeOpPair {
                pipe_type: PipeType::Mapped,
                operation: PipeOp::FnCall { path: vec![chars("g")], args: vec![] },
            },
        ],
    };
    let out = input.run().unwrap();
    assert_eq!(text(&out), "f(x).map(|__map_var| g(__map_var))");
}

#[test]
fn run_reports_the_first_failure() {
    let input = MacroInput {
        initial: opaque("x"),
        pipe_pairs: vec![PipeOpPair {
            pipe_type: PipeType::Try,
            operation: PipeOp::MethodCall {
                path: vec![chars("a"), chars("b")],
                args: vec![],
                pos: 4,
            },
        }],
    };
    match input.run() {
        Err(d) => assert_eq!(d, Diag { kind: ErrKind::NotAPlainName, pos: 4 }),
        Ok(e) => panic!("expected an error, got {}", text(&e)),
    }
}
