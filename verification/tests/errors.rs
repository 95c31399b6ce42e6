// Each diagnostic kind, with an input that produces it.
use spipe::ast::ErrKind;
use spipe::compile;

fn err(src: &str) -> spipe::ast::Diag {
    match compile(src) {
        Ok(out) => panic!("expected a diagnostic, got {:?}", out),
        Err(d) => d,
    }
}

#[test]
fn unterminated_string_literal() {
    let d = err("\"abc");
    assert_eq!(d.kind, ErrKind::UnterminatedLiteral);
    assert_eq!(d.pos, 0);
}

#[test]
fn unterminated_char_literal() {
    assert_eq!(err("'\\n => f").kind, ErrKind::UnterminatedLiteral);
}

#[test]
fn unterminated_comment() {
    assert_eq!(err("/* x").kind, ErrKind::UnterminatedComment);
}

#[test]
fn missing_initial_expression() {
    let d = err("");
    assert_eq!(d.kind, ErrKind::ExpectedExpression);
    assert_eq!(d.pos, 0);
    assert_eq!(err("=> f").kind, ErrKind::ExpectedExpression);
}

#[test]
fn empty_closure_body() {
    assert_eq!(err("x => |v|").kind, ErrKind::ExpectedExpression);
}

#[test]
fn trailing_separator() {
    assert_eq!(err("x =>").kind, ErrKind::TrailingSeparator);
}

#[test]
fn unrecognized_operation() {
    assert_eq!(err("x => ,").kind, ErrKind::UnrecognizedOperation);
    assert_eq!(err("x =>&").kind, ErrKind::UnrecognizedOperation);
}

#[test]
fn malformed_conversion() {
    assert_eq!(err("x => (1)").kind, ErrKind::MalformedConversion);
    assert_eq!(err("x => ()").kind, ErrKind::MalformedConversion);
    assert_eq!(err("x => (f64 junk)").kind, ErrKind::MalformedConversion);
}

#[test]
fn missing_identifier() {
    assert_eq!(err("x => .").kind, ErrKind::ExpectedIdent);
    assert_eq!(err("x => f::(a)").kind, ErrKind::ExpectedIdent);
}

#[test]
fn closure_missing_second_pipe() {
    assert_eq!(err("x => |a b").kind, ErrKind::ExpectedClosurePipe);
}

#[test]
fn empty_argument() {
    assert_eq!(err("x => f(,)").kind, ErrKind::MalformedArguments);
    assert_eq!(err("x => f(a,,b)").kind, ErrKind::MalformedArguments);
}

#[test]
fn leftover_tokens_after_step() {
    assert_eq!(err("x => f junk").kind, ErrKind::UnexpectedToken);
    assert_eq!(err("x => f(a => b)").kind, ErrKind::UnexpectedToken);
}

#[test]
fn unbalanced_delimiters() {
    assert_eq!(err("f(").kind, ErrKind::UnbalancedDelimiter);
    assert_eq!(err("x => f(a").kind, ErrKind::UnbalancedDelimiter);
    assert_eq!(err("x)").kind, ErrKind::UnbalancedDelimiter);
}

#[test]
fn method_call_target_must_be_plain() {
    assert_eq!(err("x => .std::mem::drop").kind, ErrKind::NotAPlainName);
}
