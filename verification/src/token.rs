//! The tokenizer: it cuts pipeline source text into the tokens the parser
//! walks, each token carrying the span of source it covers.
//!
//! Only what the pipeline grammar gives meaning to is distinguished: the
//! `=>` separator, the step-marker punctuation, dots, commas, parentheses
//! and their bracket and brace kin (for nesting depth), `::`, identifier
//! words, and string and character literals (scanned as units so that
//! separators inside them are not mistaken for structure). Whitespace and
//! comments are skipped. Every other character stands as a token of its own;
//! embedded host expressions are later recovered verbatim from their spans.
use vstd::prelude::*;

use crate::ast::{Diag, ErrKind, TokKind, Token};
use crate::pipe::toks_wf;

verus! {

/// Whitespace that separates tokens.
pub open spec fn is_ws(c: char) -> bool {
    c == ' ' || c == '\t' || c == '\n' || c == '\r'
}

/// A character that may start an identifier word. Characters outside ASCII
/// are taken as word characters, so that source in other scripts passes
/// through opaque spans whole.
pub open spec fn is_ident_start(c: char) -> bool {
    let u = c as u32;
    (('a' as u32) <= u && u <= ('z' as u32)) || (('A' as u32) <= u && u <= ('Z' as u32)) || u == (
    '_' as u32) || u > 127
}

/// A decimal digit.
pub open spec fn is_digit(c: char) -> bool {
    ('0' as u32) <= c as u32 && c as u32 <= ('9' as u32)
}

/// A character that may continue an identifier word.
pub open spec fn is_ident_char(c: char) -> bool {
    is_ident_start(c) || is_digit(c)
}

/// The kind of a single punctuation character the grammar knows, if any.
pub open spec fn punct_kind(c: char) -> Option<TokKind> {
    if c == '.' {
        Some(TokKind::Dot)
    } else if c == ',' {
        Some(TokKind::Comma)
    } else if c == '|' {
        Some(TokKind::Pipe)
    } else if c == '&' {
        Some(TokKind::Amp)
    } else if c == '?' {
        Some(TokKind::Question)
    } else if c == '+' {
        Some(TokKind::Plus)
    } else if c == '*' {
        Some(TokKind::Star)
    } else if c == '@' {
        Some(TokKind::At)
    } else if c == '#' {
        Some(TokKind::Hash)
    } else if c == '$' {
        Some(TokKind::Dollar)
    } else if c == '(' {
        Some(TokKind::LParen)
    } else if c == ')' {
        Some(TokKind::RParen)
    } else if c == '[' {
        Some(TokKind::LBracket)
    } else if c == ']' {
        Some(TokKind::RBracket)
    } else if c == '{' {
        Some(TokKind::LBrace)
    } else if c == '}' {
        Some(TokKind::RBrace)
    } else {
        None
    }
}

/// The index after the identifier word continuing at `i`.
pub open spec fn ident_end(s: Seq<char>, i: int) -> int
    decreases s.len() - i when 0 <= i <= s.len()
{
    if i < s.len() && is_ident_char(s[i]) {
        ident_end(s, i + 1)
    } else {
        i
    }
}

/// The index after a line comment's newline (or the end of input).
pub open spec fn line_comment_end(s: Seq<char>, i: int) -> int
    decreases s.len() - i when 0 <= i <= s.len()
{
    if i >= s.len() {
        i
    } else if s[i] == '\n' {
        i + 1
    } else {
        line_comment_end(s, i + 1)
    }
}

/// The index after the `*/` closing a block comment open `depth` times, or
/// nothing when the comment never closes. Block comments nest.
pub open spec fn block_comment_end(s: Seq<char>, i: int, depth: int) -> Option<int>
    decreases s.len() - i when 0 <= i <= s.len()
{
    if i >= s.len() {
        None
    } else if s[i] == '*' && s.len() - i > 1 && s[i + 1] == '/' {
        if depth == 1 {
            Some(i + 2)
        } else {
            block_comment_end(s, i + 2, depth - 1)
        }
    } else if s[i] == '/' && s.len() - i > 1 && s[i + 1] == '*' {
        block_comment_end(s, i + 2, depth + 1)
    } else {
        block_comment_end(s, i + 1, depth)
    }
}

/// The index after the quote `q` closing a literal whose body starts at `i`;
/// a backslash escapes the character after it. Nothing when it never closes.
pub open spec fn quote_end(s: Seq<char>, i: int, q: char) -> Option<int>
    decreases s.len() - i when 0 <= i <= s.len()
{
    if i >= s.len() {
        None
    } else if s[i] == '\\' {
        if s.len() - i > 1 {
            quote_end(s, i + 2, q)
        } else {
            None
        }
    } else if s[i] == q {
        Some(i + 1)
    } else {
        quote_end(s, i + 1, q)
    }
}

/// One move of the tokenizer at position `i`.
pub enum ScanStep {
    /// The end of the input.
    Eof,
    /// Whitespace or a comment: go on at `next`.
    Skip { next: int },
    /// One token covering `start..end`.
    Emit { kind: TokKind, start: int, end: int },
    /// The input cannot be tokenized at `at`.
    Fail { kind: ErrKind, at: int },
}

/// What the tokenizer does at position `i`: the single place where every
/// rule of the token grammar is decided.
pub open spec fn scan_token_s(s: Seq<char>, i: int) -> ScanStep {
    if i >= s.len() {
        ScanStep::Eof
    } else {
        let c = s[i];
        if is_ws(c) {
            ScanStep::Skip { next: i + 1 }
        } else if c == '/' && s.len() - i > 1 && s[i + 1] == '/' {
            ScanStep::Skip { next: line_comment_end(s, i + 2) }
        } else if c == '/' && s.len() - i > 1 && s[i + 1] == '*' {
            match block_comment_end(s, i + 2, 1) {
                Some(j) => ScanStep::Skip { next: j },
                None => ScanStep::Fail { kind: ErrKind::UnterminatedComment, at: i },
            }
        } else if c == '=' && s.len() - i > 1 && s[i + 1] == '>' {
            ScanStep::Emit { kind: TokKind::Sep, start: i, end: i + 2 }
        } else if c == ':' && s.len() - i > 1 && s[i + 1] == ':' {
            ScanStep::Emit { kind: TokKind::PathSep, start: i, end: i + 2 }
        } else if c == '"' {
            match quote_end(s, i + 1, '"') {
                Some(j) => ScanStep::Emit { kind: TokKind::Lit, start: i, end: j },
                None => ScanStep::Fail { kind: ErrKind::UnterminatedLiteral, at: i },
            }
        } else if c == '\'' {
            if s.len() - i > 1 && s[i + 1] == '\\' {
                match quote_end(s, i + 2, '\'') {
                    Some(j) => ScanStep::Emit { kind: TokKind::Lit, start: i, end: j },
                    None => ScanStep::Fail { kind: ErrKind::UnterminatedLiteral, at: i },
                }
            } else if s.len() - i > 2 && s[i + 2] == '\'' {
                ScanStep::Emit { kind: TokKind::Lit, start: i, end: i + 3 }
            } else {
                // A lone quote (a lifetime's, say) stands as its own token.
                ScanStep::Emit { kind: TokKind::Other, start: i, end: i + 1 }
            }
        } else if is_ident_start(c) {
            ScanStep::Emit { kind: TokKind::Ident, start: i, end: ident_end(s, i + 1) }
        } else {
            match punct_kind(c) {
                Some(k) => ScanStep::Emit { kind: k, start: i, end: i + 1 },
                None => ScanStep::Emit { kind: TokKind::Other, start: i, end: i + 1 },
            }
        }
    }
}

/// The token sequence of `s` from position `i` on. The guards around each
/// recursion bound the indices; the tokenizer shows they never fail.
pub open spec fn lex_s(s: Seq<char>, i: int) -> Result<Seq<Token>, Diag>
    decreases s.len() - i when 0 <= i <= s.len()
{
    match scan_token_s(s, i) {
        ScanStep::Eof => Ok(Seq::<Token>::empty()),
        ScanStep::Skip { next } => if i < next <= s.len() {
            lex_s(s, next)
        } else {
            Err(Diag { kind: ErrKind::UnterminatedComment, pos: i as usize })
        },
        ScanStep::Emit { kind, start, end } => if start == i && i < end <= s.len() {
            match lex_s(s, end) {
                Ok(rest) => Ok(
                    rest.insert(0, Token { kind, start: start as usize, end: end as usize }),
                ),
                Err(d) => Err(d),
            }
        } else {
            Err(Diag { kind: ErrKind::UnterminatedComment, pos: i as usize })
        },
        ScanStep::Fail { kind, at } => Err(Diag { kind, pos: at as usize }),
    }
}

/// Whether `c` may continue an identifier word.
fn ident_char_x(c: char) -> (b: bool)
    ensures
        b == is_ident_char(c),
{
    let u = c as u32;
    (97 <= u && u <= 122) || (65 <= u && u <= 90) || u == 95 || u > 127 || (48 <= u && u <= 57)
}

/// The index after the identifier word continuing at `from`.
fn ident_end_x(src: &Vec<char>, from: usize) -> (r: usize)
    requires
        from <= src@.len(),
    ensures
        r as int == ident_end(src@, from as int),
        from <= r <= src@.len(),
{
    let n = src.len();
    let mut i = from;
    while i < n && ident_char_x(src[i])
        invariant
            from <= i <= n,
            n == src@.len(),
            ident_end(src@, from as int) == ident_end(src@, i as int),
        decreases n - i,
    {
        i = i + 1;
    }
    i
}

/// The index after a line comment's newline.
fn line_comment_end_x(src: &Vec<char>, from: usize) -> (r: usize)
    requires
        from <= src@.len(),
    ensures
        r as int == line_comment_end(src@, from as int),
        from <= r <= src@.len(),
{
    let n = src.len();
    let mut i = from;
    while i < n && src[i] != '\n'
        invariant
            from <= i <= n,
            n == src@.len(),
            line_comment_end(src@, from as int) == line_comment_end(src@, i as int),
        decreases n - i,
    {
        i = i + 1;
    }
    if i < n {
        i + 1
    } else {
        i
    }
}

/// The index after the `*/` that closes a block comment, if it closes.
fn block_comment_end_x(src: &Vec<char>, from: usize) -> (r: Option<usize>)
    requires
        from <= src@.len(),
    ensures
        match r {
            Some(j) => block_comment_end(src@, from as int, 1) == Some(j as int) && from < j
                <= src@.len(),
            None => block_comment_end(src@, from as int, 1) is None,
        },
{
    let n = src.len();
    let mut i = from;
    let mut depth: usize = 1;
    loop
        invariant
            from <= i <= n,
            n == src@.len(),
            1 <= depth <= i + 1,
            block_comment_end(src@, from as int, 1) == block_comment_end(
                src@,
                i as int,
                depth as int,
            ),
        decreases n - i,
    {
        if i >= n {
            return None;
        }
        let c = src[i];
        if c == '*' && n - i > 1 && src[i + 1] == '/' {
            if depth == 1 {
                return Some(i + 2);
            }
            depth = depth - 1;
            i = i + 2;
        } else if c == '/' && n - i > 1 && src[i + 1] == '*' {
            depth = depth + 1;
            i = i + 2;
        } else {
            i = i + 1;
        }
    }
}

/// The index after the quote `q` that closes a literal, if it closes.
fn quote_end_x(src: &Vec<char>, from: usize, q: char) -> (r: Option<usize>)
    requires
        from <= src@.len(),
    ensures
        match r {
            Some(j) => quote_end(src@, from as int, q) == Some(j as int) && from < j
                <= src@.len(),
            None => quote_end(src@, from as int, q) is None,
        },
{
    let n = src.len();
    let mut i = from;
    loop
        invariant
            from <= i <= n,
            n == src@.len(),
            quote_end(src@, from as int, q) == quote_end(src@, i as int, q),
        decreases n - i,
    {
        if i >= n {
            return None;
        }
        let c = src[i];
        if c == '\\' {
            if n - i > 1 {
                i = i + 2;
            } else {
                return None;
            }
        } else if c == q {
            return Some(i + 1);
        } else {
            i = i + 1;
        }
    }
}

/// One move of the tokenizer, as a value.
pub enum ScanStepX {
    Eof,
    Skip(usize),
    Emit(TokKind, usize, usize),
    Fail(ErrKind, usize),
}

/// Performs one move of the tokenizer at position `i`.
#[verifier::rlimit(100)]
fn scan_token(src: &Vec<char>, i: usize) -> (r: ScanStepX)
    requires
        i <= src@.len(),
    ensures
        match r {
            ScanStepX::Eof => scan_token_s(src@, i as int) == ScanStep::Eof,
            ScanStepX::Skip(j) => scan_token_s(src@, i as int) == (ScanStep::Skip {
                next: j as int,
            }) && i < j <= src@.len(),
            ScanStepX::Emit(k, a, b) => scan_token_s(src@, i as int) == (ScanStep::Emit {
                kind: k,
                start: a as int,
                end: b as int,
            }) && a == i && i < b <= src@.len(),
            ScanStepX::Fail(k, at) => scan_token_s(src@, i as int) == (ScanStep::Fail {
                kind: k,
                at: at as int,
            }),
        },
{
    let n = src.len();
    if i >= n {
        return ScanStepX::Eof;
    }
    let c = src[i];
    if c == ' ' || c == '\t' || c == '\n' || c == '\r' {
        ScanStepX::Skip(i + 1)
    } else if c == '/' && n - i > 1 && src[i + 1] == '/' {
        ScanStepX::Skip(line_comment_end_x(src, i + 2))
    } else if c == '/' && n - i > 1 && src[i + 1] == '*' {
        match block_comment_end_x(src, i + 2) {
            Some(j) => ScanStepX::Skip(j),
            None => ScanStepX::Fail(ErrKind::UnterminatedComment, i),
        }
    } else if c == '=' && n - i > 1 && src[i + 1] == '>' {
        ScanStepX::Emit(TokKind::Sep, i, i + 2)
    } else if c == ':' && n - i > 1 && src[i + 1] == ':' {
        ScanStepX::Emit(TokKind::PathSep, i, i + 2)
    } else if c == '"' {
        match quote_end_x(src, i + 1, '"') {
            Some(j) => ScanStepX::Emit(TokKind::Lit, i, j),
            None => ScanStepX::Fail(ErrKind::UnterminatedLiteral, i),
        }
    } else if c == '\'' {
        if n - i > 1 && src[i + 1] == '\\' {
            match quote_end_x(src, i + 2, '\'') {
                Some(j) => ScanStepX::Emit(TokKind::Lit, i, j),
                None => ScanStepX::Fail(ErrKind::UnterminatedLiteral, i),
            }
        } else if n - i > 2 && src[i + 2] == '\'' {
            ScanStepX::Emit(TokKind::Lit, i, i + 3)
        } else {
            ScanStepX::Emit(TokKind::Other, i, i + 1)
        }
    } else {
        let u = c as u32;
        if (97 <= u && u <= 122) || (65 <= u && u <= 90) || u == 95 || u > 127 {
            ScanStepX::Emit(TokKind::Ident, i, ident_end_x(src, i + 1))
        } else {
            let k = if c == '.' {
                TokKind::Dot
            } else if c == ',' {
                TokKind::Comma
            } else if c == '|' {
                TokKind::Pipe
            } else if c == '&' {
                TokKind::Amp
            } else if c == '?' {
                TokKind::Question
            } else if c == '+' {
                TokKind::Plus
            } else if c == '*' {
                TokKind::Star
            } else if c == '@' {
                TokKind::At
            } else if c == '#' {
                TokKind::Hash
            } else if c == '$' {
                TokKind::Dollar
            } else if c == '(' {
                TokKind::LParen
            } else if c == ')' {
                TokKind::RParen
            } else if c == '[' {
                TokKind::LBracket
            } else if c == ']' {
                TokKind::RBracket
            } else if c == '{' {
                TokKind::LBrace
            } else if c == '}' {
                TokKind::RBrace
            } else {
                TokKind::Other
            };
            ScanStepX::Emit(k, i, i + 1)
        }
    }
}

/// Cuts the whole source into tokens, or reports the first character that
/// cannot be tokenized. The tokens cover disjoint spans in source order.
#[verifier::rlimit(100)]
pub fn tokenize(src: &Vec<char>) -> (r: Result<Vec<Token>, Diag>)
    ensures
        match r {
            Ok(toks) => lex_s(src@, 0) == Ok::<Seq<Token>, Diag>(toks@) && toks_wf(src@, toks@),
            Err(d) => lex_s(src@, 0) == Err::<Seq<Token>, Diag>(d),
        },
{
    let n = src.len();
    let mut toks: Vec<Token> = Vec::new();
    let mut i: usize = 0;
    loop
        invariant
            i <= n,
            n == src@.len(),
            toks_wf(src@, toks@),
            forall|k: int| 0 <= k < toks@.len() ==> (#[trigger] toks@[k]).end <= i,
            lex_s(src@, 0) == (match lex_s(src@, i as int) {
                Ok(rest) => Ok::<Seq<Token>, Diag>(toks@ + rest),
                Err(d) => Err::<Seq<Token>, Diag>(d),
            }),
        decreases n - i,
    {
        match scan_token(src, i) {
            ScanStepX::Eof => {
                proof {
                    assert(lex_s(src@, i as int) == Ok::<Seq<Token>, Diag>(Seq::empty()));
                    assert(toks@ + Seq::<Token>::empty() =~= toks@);
                }
                return Ok(toks);
            },
            ScanStepX::Skip(j) => {
                i = j;
            },
            ScanStepX::Emit(k, a, b) => {
                let t = Token { kind: k, start: a, end: b };
                let ghost pre = toks@;
                toks.push(t);
                proof {
                    if lex_s(src@, b as int) is Ok {
                        let rest = lex_s(src@, b as int)->Ok_0;
                        assert(pre + rest.insert(0, t) =~= toks@ + rest);
                    }
                    assert forall|p: int, l: int| 0 <= p < l < toks@.len() implies (
                    #[trigger] toks@[p]).end <= (#[trigger] toks@[l]).start by {
                        if l < toks@.len() - 1 {
                            assert(pre[p].end <= pre[l].start);
                        } else {
                            assert(toks@[p].end <= i);
                        }
                    }
                }
                i = b;
            },
            ScanStepX::Fail(k, at) => {
                return Err(Diag { kind: k, pos: at });
            },
        }
    }
}

} // verus!
