// End-to-end tests of `compile`: source text in, expanded expression text out.
use spipe::compile;

fn ok(src: &str) -> String {
    match compile(src) {
        Ok(out) => out,
        Err(d) => panic!("expected success, got {:?}", d),
    }
}

#[test]
fn zero_steps_identity() {
    assert_eq!(ok("input"), "input");
    assert_eq!(ok("  x  "), "x");
    assert_eq!(ok("a + b"), "a + b");
}

#[test]
fn basic_noop_keeps_value() {
    assert_eq!(ok("x => ..."), "x");
    assert_eq!(ok("x => . . ."), "x");
}

#[test]
fn call_prepends_without_placeholder() {
    assert_eq!(ok("x => f(a, b)"), "f(x, a, b)");
    assert_eq!(ok("x => f()"), "f(x)");
    assert_eq!(ok("x => f"), "f(x)");
    assert_eq!(ok("x => f(a,)"), "f(x, a)");
}

#[test]
fn call_replaces_first_placeholder() {
    assert_eq!(ok("x => f(a, (), b)"), "f(a, x, b)");
    assert_eq!(ok("x => f((), a, ())"), "f(x, a, ())");
    assert_eq!(ok("raw => wrap(\"[\", (), \"]\")"), "wrap(\"[\", raw, \"]\")");
}

#[test]
fn apply_forwards_value_unchanged() {
    assert_eq!(
        ok("4 =># |v| 999 => identity"),
        "identity({ let __var_1 = 4; (|v| 999)(&__var_1); __var_1 })"
    );
}

#[test]
fn apply_semantics_forward_original_value() {
    // The expression the pipeline above expands to, written out: the closure's
    // 999 is discarded and the bound 4 flows on.
    fn identity(v: i32) -> i32 {
        v
    }
    let out = identity({
        let __var_1 = 4;
        (|v: &i32| {
            let _ = v;
            999
        })(&__var_1);
        __var_1
    });
    assert_eq!(out, 4);
}

#[test]
fn two_apply_steps_use_distinct_temporaries() {
    let out = ok("1 =># f =>$ g");
    assert_eq!(
        out,
        "{ let mut __var_2 = { let __var_1 = 1; f(&__var_1); __var_1 }; g(&mut __var_2); __var_2 }"
    );
    // The two binding names differ.
    assert!(out.contains("__var_1"));
    assert!(out.contains("__var_2"));
}

#[test]
fn apply_steps_separated_by_other_steps_still_get_fresh_names() {
    assert_eq!(
        ok("1 =># f => g =>$ h"),
        "{ let mut __var_2 = g({ let __var_1 = 1; f(&__var_1); __var_1 }); h(&mut __var_2); __var_2 }"
    );
}

#[test]
fn and_then_and_map_wrap_in_closures() {
    assert_eq!(ok("x =>& Ok"), "x.and_then(|__map_var| Ok(__map_var))");
    assert_eq!(ok("r =>@ double"), "r.map(|__map_var| double(__map_var))");
    assert_eq!(ok("x =>& ..."), "x.and_then(|__map_var| __map_var)");
}

#[test]
fn try_propagates_before_the_operation() {
    assert_eq!(ok("x =>? f"), "f(x?)");
    assert_eq!(ok("x =>? ..."), "x?");
}

#[test]
fn clone_and_unwrap_steps() {
    assert_eq!(ok("x =>+ f"), "f(x.clone())");
    assert_eq!(ok("x =>* .len()"), "x.unwrap().len()");
}

#[test]
fn method_calls_keep_arguments() {
    assert_eq!(ok("s => .replace(a, b)"), "s.replace(a, b)");
    assert_eq!(ok("s => .to_string"), "s.to_string()");
}

#[test]
fn conversions() {
    assert_eq!(ok("x => (f64)"), "f64::from(x)");
    assert_eq!(ok("x => (MyType?)"), "MyType::try_from(x)");
    assert_eq!(ok("x => (as f64)"), "(x as f64)");
    assert_eq!(ok("x => (std::net::IpAddr)"), "std::net::IpAddr::from(x)");
    assert_eq!(ok("x => (as Result<u8, u16>)"), "(x as Result<u8, u16>)");
}

#[test]
fn closures_are_invoked_not_inlined() {
    assert_eq!(ok("x => |v| v + 1"), "(|v| v + 1)(x)");
    assert_eq!(ok("m => |x| match x { _ => 0 }"), "(|x| match x { _ => 0 })(m)");
}

#[test]
fn separator_inside_literals_and_groups_is_text() {
    assert_eq!(ok("\"=>\" => f"), "f(\"=>\")");
    assert_eq!(ok("x // note\n => f"), "f(x)");
    assert_eq!(ok("x /* => */ => f"), "f(x)");
}

#[test]
fn qualified_call_targets_are_allowed() {
    assert_eq!(ok("x => str::parse(a)"), "str::parse(x, a)");
}

#[test]
fn number_pipeline() {
    assert_eq!(
        ok("input => parse_number =>& Ok =>@ double =>? (as f64)"),
        "(parse_number(input).and_then(|__map_var| Ok(__map_var)).map(|__map_var| double(__map_var))? as f64)"
    );
}

#[test]
fn number_pipeline_evaluates() {
    // The expression the pipeline above expands to, written out and run.
    fn parse_number(s: &str) -> Result<i32, String> {
        s.parse().map_err(|_| String::from("not a number"))
    }
    fn double(n: i32) -> i32 {
        n * 2
    }
    fn run(input: &str) -> Result<f64, String> {
        Ok(
            (parse_number(input).and_then(|__map_var| Ok(__map_var)).map(
                |__map_var| double(__map_var),
            )? as f64),
        )
    }
    assert_eq!(run("42"), Ok(84.0));
}

#[test]
fn string_pipeline() {
    assert_eq!(
        ok("result => .to_uppercase() =>$ .push('!')"),
        "{ let mut __var_1 = result.to_uppercase(); &mut __var_1.push('!'); __var_1 }"
    );
}

#[test]
fn string_pipeline_evaluates() {
    // The expression the pipeline above expands to, written out and run: the
    // uppercased value is mutated in place and flows on.
    let result = String::from("hello");
    let out = {
        let mut __var_1 = result.to_uppercase();
        &mut __var_1.push('!');
        __var_1
    };
    assert_eq!(out, "HELLO!");
}
