use vstd::prelude::*;

use vstd::string::StrSliceExecFns;

use crate::ast::BinaryBoolOp;
use crate::ast::BinaryNumOp;
use crate::ast::CmpBoolOp;
use crate::ast::UnaryBoolOp;
use crate::error::Error;

verus! {

/// What one token is: a number, a boolean, an identifier, a keyword, a
/// parenthesis or an operator.
#[derive(Debug, Clone, Copy, PartialEq, Eq, Structural)]
pub enum TokenKind {
    Number,
    Boolean,
    Identifier,
    // Keywords
    Define,
    Cond,
    List,
    Cons,
    Car,
    Cdr,
    Empty,
    EmptyHuh,
    ListHuh,
    // Special characters
    OpenParen,
    CloseParen,
    // Operators
    Plus,
    Minus,
    Slash,
    Star,
    Percent,
    Ampersand,
    Pipe,
    Bang,
    LessThan,
    Equal,
    GreaterThan,
}

/// One token: its kind and the text it was scanned from. Produced once,
/// consumed in order, immutable.
#[derive(Debug, PartialEq, Eq)]
pub struct Token {
    pub kind: TokenKind,
    pub text: String,
}

/// The mathematical form of a token.
pub ghost struct TokenV {
    pub kind: TokenKind,
    pub text: Seq<char>,
}

impl View for Token {
    type V = TokenV;

    open spec fn view(&self) -> TokenV {
        TokenV { kind: self.kind, text: self.text@ }
    }
}

/// The views of a sequence of tokens, in order.
pub open spec fn view_tokens(ts: Seq<Token>) -> Seq<TokenV> {
    Seq::new(ts.len(), |i: int| ts[i]@)
}

/// Viewing a token sequence keeps its length and views each token.
pub broadcast proof fn lemma_view_tokens(ts: Seq<Token>)
    ensures
        (#[trigger] view_tokens(ts)).len() == ts.len(),
        forall|i: int| 0 <= i < ts.len() ==> #[trigger] view_tokens(ts)[i] == ts[i]@,
{
}

/// The whitespace the tokenizer skips between tokens.
pub open spec fn is_space_char(c: char) -> bool {
    c == ' ' || c == '\n' || c == '\t' || c == '\r'
}

/// A decimal digit.
pub open spec fn is_digit_char(c: char) -> bool {
    '0' <= c && c <= '9'
}

/// A letter, as a token may start with.
pub open spec fn is_alpha_char(c: char) -> bool {
    ('a' <= c && c <= 'z') || ('A' <= c && c <= 'Z')
}

/// A character that may continue a word: letters, digits, `:` for
/// module-qualified names, `_`, and the `?` that ends the predicate
/// keywords.
pub open spec fn is_word_char(c: char) -> bool {
    is_alpha_char(c) || is_digit_char(c) || c == ':' || c == '_' || c == '?'
}

proof fn lemma_digit_run_bound(s: Seq<char>, i: nat)
    ensures
        i + digit_run(s, i) <= s.len() || digit_run(s, i) == 0,
        i <= s.len() ==> i + digit_run(s, i) <= s.len(),
    decreases s.len() - i,
{
    if i < s.len() && is_digit_char(s[i as int]) {
        lemma_digit_run_bound(s, i + 1);
    }
}

proof fn lemma_word_run_bound(s: Seq<char>, i: nat)
    ensures
        i <= s.len() ==> i + word_run(s, i) <= s.len(),
    decreases s.len() - i,
{
    if i < s.len() && is_word_char(s[i as int]) {
        lemma_word_run_bound(s, i + 1);
    }
}

/// How many digits follow position `i`.
pub open spec fn digit_run(s: Seq<char>, i: nat) -> nat
    decreases s.len() - i,
{
    if i < s.len() && is_digit_char(s[i as int]) {
        1 + digit_run(s, i + 1)
    } else {
        0
    }
}

/// How many word characters follow position `i`.
pub open spec fn word_run(s: Seq<char>, i: nat) -> nat
    decreases s.len() - i,
{
    if i < s.len() && is_word_char(s[i as int]) {
        1 + word_run(s, i + 1)
    } else {
        0
    }
}

/// The kind of a scanned word: a keyword, a boolean literal, or an
/// identifier.
pub open spec fn word_kind(w: Seq<char>) -> TokenKind {
    if w == "true"@ || w == "false"@ {
        TokenKind::Boolean
    } else if w == "define"@ {
        TokenKind::Define
    } else if w == "cond"@ {
        TokenKind::Cond
    } else if w == "list"@ {
        TokenKind::List
    } else if w == "cons"@ {
        TokenKind::Cons
    } else if w == "car"@ {
        TokenKind::Car
    } else if w == "cdr"@ {
        TokenKind::Cdr
    } else if w == "empty"@ {
        TokenKind::Empty
    } else if w == "empty?"@ {
        TokenKind::EmptyHuh
    } else if w == "list?"@ {
        TokenKind::ListHuh
    } else {
        TokenKind::Identifier
    }
}

/// The kind of a single-character token, if the character is one.
pub open spec fn single_char_kind(c: char) -> Option<TokenKind> {
    if c == '(' {
        Some(TokenKind::OpenParen)
    } else if c == ')' {
        Some(TokenKind::CloseParen)
    } else if c == '+' {
        Some(TokenKind::Plus)
    } else if c == '-' {
        Some(TokenKind::Minus)
    } else if c == '/' {
        Some(TokenKind::Slash)
    } else if c == '*' {
        Some(TokenKind::Star)
    } else if c == '%' {
        Some(TokenKind::Percent)
    } else if c == '&' {
        Some(TokenKind::Ampersand)
    } else if c == '|' {
        Some(TokenKind::Pipe)
    } else if c == '!' {
        Some(TokenKind::Bang)
    } else if c == '<' {
        Some(TokenKind::LessThan)
    } else if c == '=' {
        Some(TokenKind::Equal)
    } else if c == '>' {
        Some(TokenKind::GreaterThan)
    } else {
        None
    }
}

/// The token starting at position `i`, which holds neither whitespace nor
/// the end, together with how many characters it takes beyond the first.
pub open spec fn spec_next_token(s: Seq<char>, i: nat) -> Result<(TokenV, nat), Error>
    recommends
        i < s.len(),
        !is_space_char(s[i as int]),
{
    let c = s[i as int];
    if is_digit_char(c) {
        let extra = digit_run(s, i + 1);
        Ok((TokenV { kind: TokenKind::Number, text: s.subrange(i as int, (i + 1 + extra) as int) }, extra))
    } else if is_alpha_char(c) {
        let extra = word_run(s, i + 1);
        let w = s.subrange(i as int, (i + 1 + extra) as int);
        Ok((TokenV { kind: word_kind(w), text: w }, extra))
    } else {
        match single_char_kind(c) {
            Some(kind) => Ok((TokenV { kind, text: s.subrange(i as int, (i + 1) as int) }, 0)),
            None => Err(Error::LexError),
        }
    }
}

/// The tokens of the text from position `i` on: whitespace separates,
/// anything unrecognized fails the whole scan.
pub open spec fn spec_tokens_from(s: Seq<char>, i: nat) -> Result<Seq<TokenV>, Error>
    decreases s.len() - i,
        via spec_tokens_from_decreases
{
    if i >= s.len() {
        Ok(Seq::empty())
    } else if is_space_char(s[i as int]) {
        spec_tokens_from(s, i + 1)
    } else {
        match spec_next_token(s, i) {
            Ok((t, extra)) => match spec_tokens_from(s, i + 1 + extra) {
                Ok(rest) => Ok(seq![t] + rest),
                Err(er) => Err(er),
            },
            Err(er) => Err(er),
        }
    }
}

#[via_fn]
proof fn spec_tokens_from_decreases(s: Seq<char>, i: nat) {
    if i < s.len() && !is_space_char(s[i as int]) {
        lemma_digit_run_bound(s, i + 1);
        lemma_word_run_bound(s, i + 1);
    }
}

/// The token sequence of a whole program text.
pub open spec fn spec_tokens(s: Seq<char>) -> Result<Seq<TokenV>, Error> {
    spec_tokens_from(s, 0)
}

fn is_space_exec(c: char) -> (r: bool)
    ensures
        r == is_space_char(c),
{
    c == ' ' || c == '\n' || c == '\t' || c == '\r'
}

fn is_digit_exec(c: char) -> (r: bool)
    ensures
        r == is_digit_char(c),
{
    '0' <= c && c <= '9'
}

fn is_alpha_exec(c: char) -> (r: bool)
    ensures
        r == is_alpha_char(c),
{
    ('a' <= c && c <= 'z') || ('A' <= c && c <= 'Z')
}

fn is_word_exec(c: char) -> (r: bool)
    ensures
        r == is_word_char(c),
{
    is_alpha_exec(c) || is_digit_exec(c) || c == ':' || c == '_' || c == '?'
}

fn word_kind_exec(w: &str) -> (r: TokenKind)
    ensures
        r == word_kind(w@),
{
    let ws = w.to_owned();
    if ws == "true".to_owned() || ws == "false".to_owned() {
        TokenKind::Boolean
    } else if ws == "define".to_owned() {
        TokenKind::Define
    } else if ws == "cond".to_owned() {
        TokenKind::Cond
    } else if ws == "list".to_owned() {
        TokenKind::List
    } else if ws == "cons".to_owned() {
        TokenKind::Cons
    } else if ws == "car".to_owned() {
        TokenKind::Car
    } else if ws == "cdr".to_owned() {
        TokenKind::Cdr
    } else if ws == "empty".to_owned() {
        TokenKind::Empty
    } else if ws == "empty?".to_owned() {
        TokenKind::EmptyHuh
    } else if ws == "list?".to_owned() {
        TokenKind::ListHuh
    } else {
        TokenKind::Identifier
    }
}

/// Convert raw program text into its ordered token sequence: one pass,
/// strictly left to right, no backtracking. An unrecognized character
/// fails the scan.
pub fn string_to_tokens(s: String) -> (r: Result<Vec<Token>, Error>)
    ensures
        match spec_tokens(s@) {
            Ok(ts) => r matches Ok(v) && view_tokens(v@) == ts,
            Err(er) => r == Err::<Vec<Token>, Error>(er),
        },
{
    let text = s.as_str();
    let n = text.unicode_len();
    let mut result: Vec<Token> = Vec::new();
    let mut i: usize = 0;
    while i < n
        invariant
            n == text@.len(),
            text@ == s@,
            i <= n,
            match spec_tokens_from(s@, i as nat) {
                Ok(ts) => spec_tokens(s@) matches Ok(all) && all == view_tokens(result@) + ts,
                Err(er) => spec_tokens(s@) == Err::<Seq<TokenV>, Error>(er),
            },
        decreases n - i,
    {
        let c = text.get_char(i);
        if is_space_exec(c) {
            i = i + 1;
            continue ;
        }
        let (kind, j) = if is_digit_exec(c) {
            let mut j: usize = i + 1;
            while j < n
                invariant
                    n == text@.len(),
                    text@ == s@,
                    i + 1 <= j <= n,
                    digit_run(s@, (i + 1) as nat) == (j - i - 1) + digit_run(s@, j as nat),
                ensures
                    i + 1 <= j <= n,
                    digit_run(s@, (i + 1) as nat) == (j - i - 1) + digit_run(s@, j as nat),
                    digit_run(s@, j as nat) == 0,
                decreases n - j,
            {
                let cj = text.get_char(j);
                if !is_digit_exec(cj) {
                    break ;
                }
                proof {
                    assert(digit_run(s@, j as nat) == 1 + digit_run(s@, (j + 1) as nat));
                }
                j = j + 1;
            }
            (TokenKind::Number, j)
        } else if is_alpha_exec(c) {
            let mut j: usize = i + 1;
            while j < n
                invariant
                    n == text@.len(),
                    text@ == s@,
                    i + 1 <= j <= n,
                    word_run(s@, (i + 1) as nat) == (j - i - 1) + word_run(s@, j as nat),
                ensures
                    i + 1 <= j <= n,
                    word_run(s@, (i + 1) as nat) == (j - i - 1) + word_run(s@, j as nat),
                    word_run(s@, j as nat) == 0,
                decreases n - j,
            {
                let cj = text.get_char(j);
                if !is_word_exec(cj) {
                    break ;
                }
                proof {
                    assert(word_run(s@, j as nat) == 1 + word_run(s@, (j + 1) as nat));
                }
                j = j + 1;
            }
            let w = text.substring_char(i, j);
            (word_kind_exec(w), j)
        } else {
            let kind = if c == '(' {
                TokenKind::OpenParen
            } else if c == ')' {
                TokenKind::CloseParen
            } else if c == '+' {
                TokenKind::Plus
            } else if c == '-' {
                TokenKind::Minus
            } else if c == '/' {
                TokenKind::Slash
            } else if c == '*' {
                TokenKind::Star
            } else if c == '%' {
                TokenKind::Percent
            } else if c == '&' {
                TokenKind::Ampersand
            } else if c == '|' {
                TokenKind::Pipe
            } else if c == '!' {
                TokenKind::Bang
            } else if c == '<' {
                TokenKind::LessThan
            } else if c == '=' {
                TokenKind::Equal
            } else if c == '>' {
                TokenKind::GreaterThan
            } else {
                return Err(Error::LexError);
            };
            (kind, i + 1)
        };
        let tok_text = text.substring_char(i, j).to_owned();
        let token = Token { kind, text: tok_text };
        let ghost result0 = result@;
        result.push(token);
        proof {
            assert(view_tokens(result@) =~= view_tokens(result0).push(token@));
            let spec_r = spec_next_token(s@, i as nat);
            assert(spec_r is Ok);
            assert(spec_r->Ok_0.0 == token@);
            assert(spec_r->Ok_0.1 == (j - i - 1) as nat);
            match spec_tokens_from(s@, j as nat) {
                Ok(rest) => {
                    assert(spec_tokens_from(s@, i as nat) == Ok::<Seq<TokenV>, Error>(
                        seq![token@] + rest,
                    ));
                    assert(view_tokens(result0) + (seq![token@] + rest) =~= view_tokens(result@)
                        + rest);
                },
                Err(er) => {
                    assert(spec_tokens_from(s@, i as nat) == Err::<Seq<TokenV>, Error>(er));
                },
            }
        }
        i = j;
    }
    proof {
        assert(spec_tokens_from(s@, i as nat) == Ok::<Seq<TokenV>, Error>(Seq::empty()));
        assert(view_tokens(result@) + Seq::<TokenV>::empty() =~= view_tokens(result@));
    }
    Ok(result)
}

/// Forward-only consumption of a token sequence with bounded,
/// side-effect-free lookahead: what the grammar's second-token dispatch
/// needs.
#[derive(Debug)]
pub struct TokenIter<'a> {
    tokens: &'a Vec<Token>,
    index: usize,
}

impl<'a> TokenIter<'a> {
    /// The whole token sequence under the cursor.
    pub closed spec fn toks(&self) -> Seq<Token> {
        self.tokens@
    }

    /// How many tokens have been consumed.
    pub closed spec fn pos(&self) -> nat {
        self.index as nat
    }

    /// A cursor at the start of a token sequence.
    pub fn new(tokens: &'a Vec<Token>) -> (r: TokenIter<'a>)
        ensures
            r.toks() == tokens@,
            r.pos() == 0,
    {
        TokenIter { tokens, index: 0 }
    }

    /// The current token and the token `n` ahead of it, when both exist;
    /// peeking consumes nothing.
    pub fn peek_n(&self, n: i32) -> (r: Option<(&Token, &Token)>)
        requires
            n >= 0,
        ensures
            match r {
                Some(p) => self.pos() + n < self.toks().len() && *p.0 == self.toks()[self.pos() as int]
                    && *p.1 == self.toks()[self.pos() + n],
                None => self.pos() + n >= self.toks().len(),
            },
    {
        let n_us = n as usize;
        if self.index < self.tokens.len() && n_us < self.tokens.len() - self.index {
            Some((&self.tokens[self.index], &self.tokens[self.index + n_us]))
        } else {
            None
        }
    }

    /// The current token, without consuming it.
    pub fn peek(&self) -> (r: Option<&Token>)
        ensures
            match r {
                Some(t) => self.pos() < self.toks().len() && *t == self.toks()[self.pos() as int],
                None => self.pos() >= self.toks().len(),
            },
    {
        if self.index < self.tokens.len() {
            Some(&self.tokens[self.index])
        } else {
            None
        }
    }

    /// The token `n` positions ahead, without consuming anything.
    pub fn peek_nth(&self, n: usize) -> (r: Option<&Token>)
        ensures
            match r {
                Some(t) => self.pos() + n < self.toks().len() && *t == self.toks()[self.pos() + n],
                None => self.pos() + n >= self.toks().len(),
            },
    {
        if self.index < self.tokens.len() && n < self.tokens.len() - self.index {
            Some(&self.tokens[self.index + n])
        } else {
            None
        }
    }

    /// Consume and return the current token, or nothing at the end.
    pub fn next(&mut self) -> (r: Option<&'a Token>)
        ensures
            final(self).toks() == old(self).toks(),
            match r {
                Some(t) => old(self).pos() < old(self).toks().len() && *t == old(self).toks()[old(self).pos() as int] && final(self).pos() == old(self).pos() + 1,
                None => old(self).pos() >= old(self).toks().len() && final(self).pos() == old(
                    self,
                ).pos(),
            },
    {
        if self.index < self.tokens.len() {
            let token = &self.tokens[self.index];
            self.index = self.index + 1;
            Some(token)
        } else {
            None
        }
    }
}

/// The arithmetic operator a token stands for. Only the four operator
/// tokens and the percent sign have one.
pub fn token_kind_to_binary_num_op(kind: &TokenKind) -> (r: BinaryNumOp)
    requires
        *kind == TokenKind::Plus || *kind == TokenKind::Minus || *kind == TokenKind::Slash
            || *kind == TokenKind::Star || *kind == TokenKind::Percent,
    ensures
        r == spec_binary_num_op(*kind),
{
    match kind {
        TokenKind::Plus => BinaryNumOp::Add,
        TokenKind::Minus => BinaryNumOp::Sub,
        TokenKind::Slash => BinaryNumOp::Div,
        TokenKind::Star => BinaryNumOp::Mul,
        _ => BinaryNumOp::Mod,
    }
}

/// The arithmetic operator of an operator token.
pub open spec fn spec_binary_num_op(kind: TokenKind) -> BinaryNumOp {
    match kind {
        TokenKind::Plus => BinaryNumOp::Add,
        TokenKind::Minus => BinaryNumOp::Sub,
        TokenKind::Slash => BinaryNumOp::Div,
        TokenKind::Star => BinaryNumOp::Mul,
        _ => BinaryNumOp::Mod,
    }
}

/// The boolean connective a token stands for.
pub fn token_kind_to_binary_bool_op(kind: &TokenKind) -> (r: BinaryBoolOp)
    requires
        *kind == TokenKind::Ampersand || *kind == TokenKind::Pipe,
    ensures
        r == spec_binary_bool_op(*kind),
{
    match kind {
        TokenKind::Ampersand => BinaryBoolOp::And,
        _ => BinaryBoolOp::Or,
    }
}

/// The boolean connective of a connective token.
pub open spec fn spec_binary_bool_op(kind: TokenKind) -> BinaryBoolOp {
    match kind {
        TokenKind::Ampersand => BinaryBoolOp::And,
        _ => BinaryBoolOp::Or,
    }
}

/// The unary boolean operator a token stands for.
pub fn token_kind_to_unary_bool_op(kind: &TokenKind) -> (r: UnaryBoolOp)
    requires
        *kind == TokenKind::Bang,
    ensures
        r == UnaryBoolOp::Not,
{
    let _ = kind;
    UnaryBoolOp::Not
}

/// The comparison operator a token stands for.
pub fn token_kind_to_cmp_bool_op(kind: &TokenKind) -> (r: CmpBoolOp)
    requires
        *kind == TokenKind::LessThan || *kind == TokenKind::Equal || *kind
            == TokenKind::GreaterThan,
    ensures
        r == spec_cmp_bool_op(*kind),
{
    match kind {
        TokenKind::LessThan => CmpBoolOp::Lt,
        TokenKind::Equal => CmpBoolOp::Eq,
        _ => CmpBoolOp::Gt,
    }
}

/// The comparison operator of a comparison token.
pub open spec fn spec_cmp_bool_op(kind: TokenKind) -> CmpBoolOp {
    match kind {
        TokenKind::LessThan => CmpBoolOp::Lt,
        TokenKind::Equal => CmpBoolOp::Eq,
        _ => CmpBoolOp::Gt,
    }
}

} // verus!
