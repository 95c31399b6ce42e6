//! A small compiler for a linear pipeline language: an initial host
//! expression followed by steps, each a step marker and an operation, is
//! expanded into the nested expression a programmer would otherwise write by
//! hand with combinator calls, method chains and temporary bindings.
//!
//! Source text goes through three stages, each verified against the spec
//! function that defines it: the tokenizer ([`token`]), the pipeline parser
//! ([`pipe`]), and the expression generator and its fold ([`utils`]); the
//! result is rendered back to text by [`render`]. [`compile`] is the whole
//! chain in one call.
pub mod ast;
pub mod pipe;
pub mod render;
pub mod token;
pub mod utils;

use vstd::prelude::*;

use crate::ast::Diag;

verus! {

/// What compiling pipeline source yields: the source is tokenized, parsed
/// into a pipeline, folded into one expression, and rendered; the first
/// failure is the result instead.
pub open spec fn compile_s(src: Seq<char>) -> Result<Seq<char>, Diag> {
    match crate::token::lex_s(src, 0) {
        Err(d) => Err(d),
        Ok(toks) => match crate::pipe::parse_macro_input_s(src, toks) {
            Err(d) => Err(d),
            Ok(m) => match crate::utils::run_steps_s(m.pipe_pairs, m.initial, 0) {
                Err(d) => Err(d),
                Ok(e) => Ok(crate::render::render_s(e)),
            },
        },
    }
}

/// Relies on String::push: it appends the given character to the end of the
/// string.
#[verifier::external_body]
fn push_char(s: &mut String, c: char)
    ensures
        final (s)@ == old(s)@.push(c),
{
    s.push(c);
}

fn chars_to_string(v: &Vec<char>) -> (r: String)
    ensures
        r@ == v@,
{
    let n = v.len();
    let mut r = String::new();
    let mut i: usize = 0;
    while i < n
        invariant
            i <= n,
            n == v@.len(),
            r@ == v@.subrange(0, i as int),
        decreases n - i,
    {
        push_char(&mut r, v[i]);
        assert(r@ =~= v@.subrange(0, i + 1));
        i = i + 1;
    }
    assert(r@ =~= v@);
    r
}

/// Compiles pipeline source text to the text of the expanded expression, or
/// stops at the first diagnostic.
pub fn compile(source: &str) -> (r: Result<String, Diag>)
    ensures
        match r {
            Ok(out) => compile_s(source@) == Ok::<Seq<char>, Diag>(out@),
            Err(d) => compile_s(source@) == Err::<Seq<char>, Diag>(d),
        },
{
    let src = crate::utils::create_ident(source);
    let toks = match crate::token::tokenize(&src) {
        Ok(t) => t,
        Err(d) => {
            return Err(d);
        },
    };
    let input = match crate::pipe::MacroInput::parse(&src, &toks) {
        Ok(m) => m,
        Err(d) => {
            return Err(d);
        },
    };
    match input.run() {
        Ok(e) => {
            let text = crate::render::render_expr(&e);
            Ok(chars_to_string(&text))
        },
        Err(d) => Err(d),
    }
}

} // verus!
