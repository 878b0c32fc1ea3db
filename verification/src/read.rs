//! The reader: program text to one expression.
//!
//! The grammar is fixed by the specification functions in this module,
//! which scan a sequence of characters by recursive descent; the
//! executable `Reader` is proved to return exactly what they say. A
//! source text is wrapped in a `do` form, so a whole file reduces to the
//! value of its last form.
//!
//! Lexically: lists in parentheses; strings between double quotes with no
//! escapes; numbers as unbroken digit runs; a leading operator character
//! is an operator; `'` before an expression abbreviates `(quote ...)`;
//! `;` starts a comment that runs to the end of the line. Reserved words
//! become special forms. Numbers are 64-bit integers: a decimal point or
//! a run whose value exceeds the range is refused.

use vstd::prelude::*;
use vstd::string::StrSliceExecFns;
use crate::ast::{string_from_chars, Atom, Expression, ExprV, List, Operator, Special, Symbol};

verus! {

/// A reader error.
#[derive(Debug, Clone, Copy, PartialEq, Eq, Structural)]
pub enum ReadError {
    /// A form was not terminated before the text ended.
    UnexpectedEndOfInput,
    /// A character that no production allows at its position.
    UnexpectedChar(char),
}

// === Character classes =======================================================

/// The whitespace the reader skips.
pub open spec fn is_ws_char(c: char) -> bool {
    c == ' ' || c == '\t' || c == '\n' || c == '\r'
}

/// A decimal digit.
pub open spec fn is_digit_char(c: char) -> bool {
    '0' <= c && c <= '9'
}

/// A character that is an operator on its own.
pub open spec fn is_operator_char(c: char) -> bool {
    c == '+' || c == '-' || c == '*' || c == '/' || c == '%' || c == '>' || c == '<' || c == '='
}

/// A character that may start or continue a symbol.
pub open spec fn is_symbol_char(c: char) -> bool {
    'a' <= c && c <= 'z'
}

/// The operator named by a single character.
pub open spec fn operator_of(c: char) -> Operator {
    if c == '+' {
        Operator::Add
    } else if c == '-' {
        Operator::Sub
    } else if c == '*' {
        Operator::Mul
    } else if c == '/' {
        Operator::Div
    } else if c == '%' {
        Operator::Mod
    } else if c == '>' {
        Operator::Gt
    } else if c == '<' {
        Operator::Lt
    } else {
        Operator::Eq
    }
}

/// The numeric value of a digit character.
pub open spec fn digit_val(c: char) -> i64 {
    (c as int - '0' as int) as i64
}

/// `x`, but never below `lo`: recursion positions are clamped so that
/// termination is structural; the scanners never in fact fall below it.
pub open spec fn at_least(x: int, lo: int) -> int {
    if x < lo {
        lo
    } else {
        x
    }
}

/// `x` clamped into `lo ..= s.len()`: recursion positions are clamped so
/// that termination is structural; the scanners never in fact leave that
/// range.
pub open spec fn clamp_pos(s: Seq<char>, x: int, lo: int) -> int {
    let y = if x < lo {
        lo
    } else {
        x
    };
    if y > s.len() {
        s.len() as int
    } else {
        y
    }
}

// === Skipping whitespace and comments ========================================

/// The first position after the newline that ends the comment line
/// running from `i`, or the end of the text.
pub open spec fn comment_end(s: Seq<char>, i: int) -> int
    decreases s.len() - i,
{
    if !(0 <= i < s.len()) {
        i
    } else if s[i] == '\n' {
        i + 1
    } else {
        comment_end(s, i + 1)
    }
}

/// The position after skipping one comment at `i`: when `i` holds `;`,
/// everything through the end of that line is consumed, the newline
/// included; otherwise nothing is.
pub open spec fn skip_comment(s: Seq<char>, i: int) -> int {
    if 0 <= i < s.len() && s[i] == ';' {
        comment_end(s, i + 1)
    } else {
        i
    }
}

/// The first position at or after `i` that holds neither whitespace nor a
/// comment.
pub open spec fn skip_ws(s: Seq<char>, i: int) -> int
    decreases s.len() - i,
{
    if !(0 <= i < s.len()) {
        i
    } else if s[i] == ';' {
        skip_ws(s, clamp_pos(s, comment_end(s, i + 1), i + 1))
    } else if is_ws_char(s[i]) {
        skip_ws(s, i + 1)
    } else {
        i
    }
}

// === Scanning atoms ==========================================================

/// Scans a digit run from `k` with the value `acc` so far. Ends at a
/// closing parenthesis, whitespace or the end of the text; any other
/// character, and a digit that would take the value past the 64-bit
/// range, is an error.
pub open spec fn scan_number(s: Seq<char>, k: int, acc: i64) -> Result<(ExprV, int), ReadError>
    decreases s.len() - k,
{
    if !(0 <= k < s.len()) || s[k] == ')' || is_ws_char(s[k]) {
        Ok((ExprV::Num(acc), if k < 0 { 0 } else { k }))
    } else if is_digit_char(s[k]) {
        let d = digit_val(s[k]);
        if acc > (i64::MAX - d) / 10 {
            Err(ReadError::UnexpectedChar(s[k]))
        } else {
            scan_number(s, k + 1, (acc * 10 + d) as i64)
        }
    } else {
        Err(ReadError::UnexpectedChar(s[k]))
    }
}

/// Scans the inside of a string literal, `acc` being the characters so
/// far; ends at the closing quote.
pub open spec fn scan_string(s: Seq<char>, k: int, acc: Seq<char>) -> Result<(ExprV, int), ReadError>
    decreases s.len() - k,
{
    if !(0 <= k < s.len()) {
        Err(ReadError::UnexpectedEndOfInput)
    } else if s[k] == '"' {
        Ok((ExprV::Text(acc), k + 1))
    } else {
        scan_string(s, k + 1, acc.push(s[k]))
    }
}

/// Scans a symbol. `acc` is the text so far; `allow_punct` says whether a
/// `-` or `/` may come next (not first, not twice in a row); after `?`
/// the symbol must end. A trailing `-` or `/` is an error.
pub open spec fn scan_symbol(
    s: Seq<char>,
    k: int,
    acc: Seq<char>,
    allow_punct: bool,
    must_end: bool,
) -> Result<(Seq<char>, int), ReadError>
    decreases s.len() - k,
{
    if !(0 <= k < s.len()) || s[k] == ')' || is_ws_char(s[k]) {
        if acc.len() > 0 && (acc.last() == '-' || acc.last() == '/') {
            Err(ReadError::UnexpectedChar(acc.last()))
        } else {
            Ok((acc, if k < 0 { 0 } else { k }))
        }
    } else if must_end {
        Err(ReadError::UnexpectedChar(s[k]))
    } else if is_symbol_char(s[k]) {
        scan_symbol(s, k + 1, acc.push(s[k]), true, false)
    } else if (s[k] == '-' || s[k] == '/') && allow_punct {
        scan_symbol(s, k + 1, acc.push(s[k]), false, false)
    } else if s[k] == '?' {
        scan_symbol(s, k + 1, acc.push(s[k]), true, true)
    } else {
        Err(ReadError::UnexpectedChar(s[k]))
    }
}

/// The atom a symbol's text denotes: a reserved word becomes the special
/// form it names, everything else a symbol.
pub open spec fn symbol_or_special(name: Seq<char>) -> ExprV {
    if name == seq!['d', 'o'] {
        ExprV::Special(Special::Do)
    } else if name == seq!['d', 'e', 'f'] || name == seq!['d', 'e', 'f', 'i', 'n', 'e'] {
        ExprV::Special(Special::Define)
    } else if name == seq!['f', 'n'] || name == seq![
        'f',
        'u',
        'n',
        'c',
        't',
        'i',
        'o',
        'n',
    ] {
        ExprV::Special(Special::Function)
    } else if name == seq!['m', 'a', 'c', 'r', 'o'] {
        ExprV::Special(Special::Macro)
    } else if name == seq!['i', 'f'] {
        ExprV::Special(Special::If)
    } else if name == seq!['q', 'u', 'o', 't', 'e'] {
        ExprV::Special(Special::Quote)
    } else {
        ExprV::Sym(name)
    }
}

/// Scans one atom at `j` (no leading whitespace): a string, a number, an
/// operator, or a symbol or reserved word.
pub open spec fn read_atom_spec(s: Seq<char>, j: int) -> Result<(ExprV, int), ReadError>
    decreases s.len() - j, 1int,
{
    if !(0 <= j < s.len()) {
        Err(ReadError::UnexpectedEndOfInput)
    } else if s[j] == '"' {
        scan_string(s, j + 1, Seq::<char>::empty())
    } else if is_digit_char(s[j]) {
        scan_number(s, j, 0)
    } else if is_operator_char(s[j]) {
        Ok((ExprV::Special(Special::Operator(operator_of(s[j]))), j + 1))
    } else if is_symbol_char(s[j]) {
        match scan_symbol(s, j, Seq::<char>::empty(), false, false) {
            Ok((name, k)) => Ok((symbol_or_special(name), k)),
            Err(er) => Err(er),
        }
    } else {
        Err(ReadError::UnexpectedChar(s[j]))
    }
}

// === Expressions =============================================================

/// Reads one expression at `i`: leading whitespace and comments are
/// skipped, then a list, a quote shorthand, or an atom; trailing
/// whitespace and comments are skipped too.
pub open spec fn read_expr_spec(s: Seq<char>, i: int) -> Result<(ExprV, int), ReadError>
    decreases s.len() - i, 2int,
{
    let j = at_least(skip_ws(s, i), i);
    if j >= s.len() {
        Err(ReadError::UnexpectedEndOfInput)
    } else if s[j] == '(' {
        match read_list_spec(s, j) {
            Ok((elems, k)) => Ok((ExprV::Lst(elems), at_least(skip_ws(s, k), k))),
            Err(er) => Err(er),
        }
    } else if s[j] == '\'' {
        match read_expr_spec(s, j + 1) {
            Ok((e, k)) => Ok((ExprV::Lst(seq![ExprV::Special(Special::Quote), e]), k)),
            Err(er) => Err(er),
        }
    } else {
        match read_atom_spec(s, j) {
            Ok((a, k)) => Ok((a, at_least(skip_ws(s, k), k))),
            Err(er) => Err(er),
        }
    }
}

/// Reads a parenthesised list at `j`, which must hold the opening
/// parenthesis.
pub open spec fn read_list_spec(s: Seq<char>, j: int) -> Result<(Seq<ExprV>, int), ReadError>
    decreases s.len() - j, 1int,
{
    if !(0 <= j < s.len()) {
        Err(ReadError::UnexpectedEndOfInput)
    } else if s[j] != '(' {
        Err(ReadError::UnexpectedChar(s[j]))
    } else {
        read_elems_spec(s, clamp_pos(s, skip_ws(s, j + 1), j + 1))
    }
}

/// Reads list elements until the closing parenthesis.
pub open spec fn read_elems_spec(s: Seq<char>, k: int) -> Result<(Seq<ExprV>, int), ReadError>
    decreases s.len() - k, 3int,
{
    if !(0 <= k < s.len()) {
        Err(ReadError::UnexpectedEndOfInput)
    } else if s[k] == ')' {
        Ok((Seq::<ExprV>::empty(), k + 1))
    } else {
        match read_expr_spec(s, k) {
            Ok((e, k2)) => match read_elems_spec(s, clamp_pos(s, k2, k + 1)) {
                Ok((rest, k3)) => Ok((seq![e] + rest, k3)),
                Err(er) => Err(er),
            },
            Err(er) => Err(er),
        }
    }
}

/// Reads the top-level forms: at least one expression, then more until
/// the text is exhausted.
pub open spec fn read_forms_spec(s: Seq<char>, i: int) -> Result<Seq<ExprV>, ReadError>
    decreases s.len() - i, 3int,
{
    match read_expr_spec(s, i) {
        Ok((e, k)) => if k >= s.len() {
            Ok(seq![e])
        } else {
            match read_forms_spec(s, clamp_pos(s, k, i + 1)) {
                Ok(rest) => Ok(seq![e] + rest),
                Err(er) => Err(er),
            }
        },
        Err(er) => Err(er),
    }
}

/// What `read` returns on a source text: its top-level forms wrapped in
/// one `do` form, or the first reader error.
pub open spec fn read_spec(s: Seq<char>) -> Result<ExprV, ReadError> {
    match read_forms_spec(s, 0) {
        Ok(forms) => Ok(ExprV::Lst(seq![ExprV::Special(Special::Do)] + forms)),
        Err(er) => Err(er),
    }
}

// === Position bounds of the scanners =========================================

/// A successful number scan ends between its start and the end of the
/// text.
proof fn lemma_scan_number_pos(s: Seq<char>, k: int, acc: i64)
    requires
        0 <= k <= s.len(),
    ensures
        match scan_number(s, k, acc) {
            Ok((_, p)) => k <= p <= s.len(),
            Err(_) => true,
        },
    decreases s.len() - k,
{
    if 0 <= k < s.len() && !(s[k] == ')' || is_ws_char(s[k])) && is_digit_char(s[k]) {
        let d = digit_val(s[k]);
        if !(acc > (i64::MAX - d) / 10) {
            lemma_scan_number_pos(s, k + 1, (acc * 10 + d) as i64);
        }
    }
}

/// A successful string scan ends past its start, at most at the end of
/// the text.
proof fn lemma_scan_string_pos(s: Seq<char>, k: int, acc: Seq<char>)
    requires
        0 <= k <= s.len(),
    ensures
        match scan_string(s, k, acc) {
            Ok((_, p)) => k < p <= s.len(),
            Err(_) => true,
        },
    decreases s.len() - k,
{
    if 0 <= k < s.len() && s[k] != '"' {
        lemma_scan_string_pos(s, k + 1, acc.push(s[k]));
    }
}

/// A successful symbol scan ends between its start and the end of the
/// text.
proof fn lemma_scan_symbol_pos(s: Seq<char>, k: int, acc: Seq<char>, allow_punct: bool, must_end: bool)
    requires
        0 <= k <= s.len(),
    ensures
        match scan_symbol(s, k, acc, allow_punct, must_end) {
            Ok((_, p)) => k <= p <= s.len(),
            Err(_) => true,
        },
    decreases s.len() - k,
{
    if 0 <= k < s.len() && !(s[k] == ')' || is_ws_char(s[k])) && !must_end {
        if is_symbol_char(s[k]) {
            lemma_scan_symbol_pos(s, k + 1, acc.push(s[k]), true, false);
        } else if (s[k] == '-' || s[k] == '/') && allow_punct {
            lemma_scan_symbol_pos(s, k + 1, acc.push(s[k]), false, false);
        } else if s[k] == '?' {
            lemma_scan_symbol_pos(s, k + 1, acc.push(s[k]), true, true);
        }
    }
}

// === The executable reader ===================================================

/// Whether `c` is whitespace to the reader.
fn ws_char(c: char) -> (r: bool)
    ensures
        r == is_ws_char(c),
{
    c == ' ' || c == '\t' || c == '\n' || c == '\r'
}

/// Whether `c` is a decimal digit.
fn digit_char(c: char) -> (r: bool)
    ensures
        r == is_digit_char(c),
{
    '0' <= c && c <= '9'
}

/// Whether `c` is an operator character.
fn operator_char(c: char) -> (r: bool)
    ensures
        r == is_operator_char(c),
{
    c == '+' || c == '-' || c == '*' || c == '/' || c == '%' || c == '>' || c == '<' || c == '='
}

/// Whether `c` may start or continue a symbol.
fn symbol_char(c: char) -> (r: bool)
    ensures
        r == is_symbol_char(c),
{
    'a' <= c && c <= 'z'
}

/// A reader over a character sequence, with its current position.
pub struct Reader {
    source: Vec<char>,
    position: usize,
}

impl Reader {
    /// The text being read.
    pub closed spec fn src(&self) -> Seq<char> {
        self.source@
    }

    /// The current position.
    pub closed spec fn pos(&self) -> int {
        self.position as int
    }

    /// The position lies inside the text or just past it.
    pub closed spec fn wf(&self) -> bool {
        self.position as int <= self.source@.len()
    }

    /// A reader at the start of `source`.
    pub fn new(source: Vec<char>) -> (r: Reader)
        ensures
            r.wf(),
            r.src() == source@,
            r.pos() == 0,
    {
        Reader { source, position: 0 }
    }

    /// Whether the whole text has been consumed.
    pub fn is_empty(&self) -> (r: bool)
        ensures
            r == (self.pos() >= self.src().len()),
    {
        self.position >= self.source.len()
    }

    /// Skips whitespace and comments.
    pub fn skip_whitespace_or_comment(&mut self)
        requires
            old(self).wf(),
        ensures
            final(self).wf(),
            final(self).src() == old(self).src(),
            final(self).pos() == skip_ws(old(self).src(), old(self).pos()),
            final(self).pos() >= old(self).pos(),
        decreases self.src().len() - self.pos(),
    {
        if self.position >= self.source.len() {
            return ;
        }
        let c = self.source[self.position];
        if c == ';' {
            self.skip_comment();
            self.skip_whitespace_or_comment();
        } else if ws_char(c) {
            self.position = self.position + 1;
            self.skip_whitespace_or_comment();
        }
    }

    /// Skips one comment: when the next character is `;`, consumes
    /// through the end of the line, the newline included; otherwise
    /// consumes nothing.
    pub fn skip_comment(&mut self)
        requires
            old(self).wf(),
        ensures
            final(self).wf(),
            final(self).src() == old(self).src(),
            final(self).pos() == skip_comment(old(self).src(), old(self).pos()),
            final(self).pos() >= old(self).pos(),
            old(self).pos() < old(self).src().len() && old(self).src()[old(self).pos()] == ';'
                ==> final(self).pos() > old(self).pos(),
    {
        if self.position >= self.source.len() {
            return ;
        }
        if self.source[self.position] != ';' {
            return ;
        }
        self.position = self.position + 1;
        self.finish_comment();
    }

    /// Consumes the rest of a comment line, the newline included.
    fn finish_comment(&mut self)
        requires
            old(self).wf(),
        ensures
            final(self).wf(),
            final(self).src() == old(self).src(),
            final(self).pos() == comment_end(old(self).src(), old(self).pos()),
            final(self).pos() >= old(self).pos(),
        decreases self.src().len() - self.pos(),
    {
        if self.position >= self.source.len() {
            return ;
        }
        let c = self.source[self.position];
        self.position = self.position + 1;
        if c != '\n' {
            self.finish_comment();
        }
    }

    /// Reads one expression, leading and trailing whitespace and comments
    /// included.
    pub fn read_expr(&mut self) -> (r: Result<Expression, ReadError>)
        requires
            old(self).wf(),
        ensures
            final(self).wf(),
            final(self).src() == old(self).src(),
            match r {
                Ok(e) => read_expr_spec(old(self).src(), old(self).pos()) == Ok::<
                    (ExprV, int),
                    ReadError,
                >((e@, final(self).pos())) && final(self).pos() > old(self).pos(),
                Err(er) => read_expr_spec(old(self).src(), old(self).pos()) == Err::<
                    (ExprV, int),
                    ReadError,
                >(er),
            },
        decreases self.src().len() - self.pos(), 2int,
    {
        self.skip_whitespace_or_comment();
        if self.position >= self.source.len() {
            return Err(ReadError::UnexpectedEndOfInput);
        }
        let c = self.source[self.position];
        if c == '(' {
            let elems = match self.read_list() {
                Ok(l) => l,
                Err(er) => {
                    return Err(er);
                },
            };
            self.skip_whitespace_or_comment();
            Ok(Expression::List(elems))
        } else if c == '\'' {
            self.position = self.position + 1;
            let e = match self.read_expr() {
                Ok(e) => e,
                Err(er) => {
                    return Err(er);
                },
            };
            let ghost ev = e@;
            let quoted = List::cons(
                Expression::Atom(Atom::Special(Special::Quote)),
                List::cons(e, List::Nil),
            );
            proof {
                assert(quoted@ =~= seq![ExprV::Special(Special::Quote), ev]);
            }
            Ok(Expression::List(quoted))
        } else {
            let a = match self.read_atom() {
                Ok(a) => a,
                Err(er) => {
                    return Err(er);
                },
            };
            self.skip_whitespace_or_comment();
            Ok(Expression::Atom(a))
        }
    }

    /// Reads a parenthesised list, the opening parenthesis at the current
    /// position.
    pub fn read_list(&mut self) -> (r: Result<List, ReadError>)
        requires
            old(self).wf(),
        ensures
            final(self).wf(),
            final(self).src() == old(self).src(),
            match r {
                Ok(l) => read_list_spec(old(self).src(), old(self).pos()) == Ok::<
                    (Seq<ExprV>, int),
                    ReadError,
                >((l@, final(self).pos())) && final(self).pos() > old(self).pos(),
                Err(er) => read_list_spec(old(self).src(), old(self).pos()) == Err::<
                    (Seq<ExprV>, int),
                    ReadError,
                >(er),
            },
        decreases self.src().len() - self.pos(), 1int,
    {
        if self.position >= self.source.len() {
            return Err(ReadError::UnexpectedEndOfInput);
        }
        let c = self.source[self.position];
        if c != '(' {
            return Err(ReadError::UnexpectedChar(c));
        }
        self.position = self.position + 1;
        self.skip_whitespace_or_comment();
        self.read_elems()
    }

    /// Reads list elements up to and including the closing parenthesis.
    fn read_elems(&mut self) -> (r: Result<List, ReadError>)
        requires
            old(self).wf(),
        ensures
            final(self).wf(),
            final(self).src() == old(self).src(),
            match r {
                Ok(l) => read_elems_spec(old(self).src(), old(self).pos()) == Ok::<
                    (Seq<ExprV>, int),
                    ReadError,
                >((l@, final(self).pos())) && final(self).pos() > old(self).pos(),
                Err(er) => read_elems_spec(old(self).src(), old(self).pos()) == Err::<
                    (Seq<ExprV>, int),
                    ReadError,
                >(er),
            },
        decreases self.src().len() - self.pos(), 3int,
    {
        if self.position >= self.source.len() {
            return Err(ReadError::UnexpectedEndOfInput);
        }
        let c = self.source[self.position];
        if c == ')' {
            self.position = self.position + 1;
            proof {
                assert(List::Nil@ =~= Seq::<ExprV>::empty());
            }
            return Ok(List::Nil);
        }
        let e = match self.read_expr() {
            Ok(e) => e,
            Err(er) => {
                return Err(er);
            },
        };
        let rest = match self.read_elems() {
            Ok(l) => l,
            Err(er) => {
                return Err(er);
            },
        };
        let l = List::cons(e, rest);
        Ok(l)
    }

    /// Reads one atom at the current position.
    pub fn read_atom(&mut self) -> (r: Result<Atom, ReadError>)
        requires
            old(self).wf(),
        ensures
            final(self).wf(),
            final(self).src() == old(self).src(),
            match r {
                Ok(a) => read_atom_spec(old(self).src(), old(self).pos()) == Ok::<
                    (ExprV, int),
                    ReadError,
                >((a.deep(), final(self).pos())) && final(self).pos() > old(self).pos(),
                Err(er) => read_atom_spec(old(self).src(), old(self).pos()) == Err::<
                    (ExprV, int),
                    ReadError,
                >(er),
            },
    {
        if self.position >= self.source.len() {
            return Err(ReadError::UnexpectedEndOfInput);
        }
        let c = self.source[self.position];
        if c == '"' {
            let text = match self.read_string() {
                Ok(t) => t,
                Err(er) => {
                    return Err(er);
                },
            };
            Ok(Atom::Str(text))
        } else if digit_char(c) {
            let n = match self.read_number() {
                Ok(n) => n,
                Err(er) => {
                    return Err(er);
                },
            };
            proof {
                lemma_scan_number_pos(
                    old(self).src(),
                    old(self).pos() + 1,
                    digit_val(old(self).src()[old(self).pos()]),
                );
            }
            Ok(Atom::Number(n))
        } else if operator_char(c) {
            let op = match self.read_operator() {
                Ok(op) => op,
                Err(er) => {
                    return Err(er);
                },
            };
            Ok(Atom::Special(Special::Operator(op)))
        } else if symbol_char(c) {
            let a = match self.read_symbol_or_special() {
                Ok(a) => a,
                Err(er) => {
                    return Err(er);
                },
            };
            proof {
                lemma_scan_symbol_pos(
                    old(self).src(),
                    old(self).pos() + 1,
                    seq![old(self).src()[old(self).pos()]],
                    true,
                    false,
                );
            }
            Ok(a)
        } else {
            Err(ReadError::UnexpectedChar(c))
        }
    }

    /// Reads a number: an unbroken digit run.
    pub fn read_number(&mut self) -> (r: Result<i64, ReadError>)
        requires
            old(self).wf(),
        ensures
            final(self).wf(),
            final(self).src() == old(self).src(),
            match r {
                Ok(n) => scan_number(old(self).src(), old(self).pos(), 0) == Ok::<
                    (ExprV, int),
                    ReadError,
                >((ExprV::Num(n), final(self).pos())) && final(self).pos() >= old(self).pos(),
                Err(er) => scan_number(old(self).src(), old(self).pos(), 0) == Err::<
                    (ExprV, int),
                    ReadError,
                >(er),
            },
    {
        self.scan_number_exec(0)
    }

    /// Scans the rest of a digit run, `acc` being the value so far.
    fn scan_number_exec(&mut self, acc: i64) -> (r: Result<i64, ReadError>)
        requires
            old(self).wf(),
            acc >= 0,
        ensures
            final(self).wf(),
            final(self).src() == old(self).src(),
            match r {
                Ok(n) => scan_number(old(self).src(), old(self).pos(), acc) == Ok::<
                    (ExprV, int),
                    ReadError,
                >((ExprV::Num(n), final(self).pos())) && final(self).pos() >= old(self).pos(),
                Err(er) => scan_number(old(self).src(), old(self).pos(), acc) == Err::<
                    (ExprV, int),
                    ReadError,
                >(er),
            },
        decreases self.src().len() - self.pos(),
    {
        if self.position >= self.source.len() {
            return Ok(acc);
        }
        let c = self.source[self.position];
        if c == ')' || ws_char(c) {
            return Ok(acc);
        }
        if !digit_char(c) {
            return Err(ReadError::UnexpectedChar(c));
        }
        let d: i64 = ((c as u32) - ('0' as u32)) as i64;
        assert(d == digit_val(c));
        if acc > (i64::MAX - d) / 10 {
            return Err(ReadError::UnexpectedChar(c));
        }
        self.position = self.position + 1;
        self.scan_number_exec(acc * 10 + d)
    }

    /// Reads a string literal: the characters between two double quotes.
    pub fn read_string(&mut self) -> (r: Result<String, ReadError>)
        requires
            old(self).wf(),
        ensures
            final(self).wf(),
            final(self).src() == old(self).src(),
            match r {
                Ok(t) => old(self).pos() < old(self).src().len() && old(self).src()[old(self).pos()]
                    == '"' && scan_string(old(self).src(), old(self).pos() + 1, Seq::<char>::empty())
                    == Ok::<(ExprV, int), ReadError>((ExprV::Text(t@), final(self).pos()))
                    && final(self).pos() > old(self).pos(),
                Err(er) => (if old(self).pos() >= old(self).src().len() {
                    er == ReadError::UnexpectedEndOfInput
                } else if old(self).src()[old(self).pos()] != '"' {
                    er == ReadError::UnexpectedChar(old(self).src()[old(self).pos()])
                } else {
                    scan_string(old(self).src(), old(self).pos() + 1, Seq::<char>::empty())
                        == Err::<(ExprV, int), ReadError>(er)
                }),
            },
    {
        if self.position >= self.source.len() {
            return Err(ReadError::UnexpectedEndOfInput);
        }
        let c = self.source[self.position];
        if c != '"' {
            return Err(ReadError::UnexpectedChar(c));
        }
        self.position = self.position + 1;
        let mut buf: Vec<char> = Vec::new();
        proof {
            lemma_scan_string_pos(self.src(), self.pos(), buf@);
        }
        match self.scan_string_exec(&mut buf) {
            Ok(_) => Ok(string_from_chars(&buf)),
            Err(er) => Err(er),
        }
    }

    /// Scans the rest of a string literal into `buf`.
    fn scan_string_exec(&mut self, buf: &mut Vec<char>) -> (r: Result<(), ReadError>)
        requires
            old(self).wf(),
        ensures
            final(self).wf(),
            final(self).src() == old(self).src(),
            match r {
                Ok(_) => scan_string(old(self).src(), old(self).pos(), old(buf)@) == Ok::<
                    (ExprV, int),
                    ReadError,
                >((ExprV::Text(final(buf)@), final(self).pos())),
                Err(er) => scan_string(old(self).src(), old(self).pos(), old(buf)@) == Err::<
                    (ExprV, int),
                    ReadError,
                >(er),
            },
        decreases self.src().len() - self.pos(),
    {
        if self.position >= self.source.len() {
            return Err(ReadError::UnexpectedEndOfInput);
        }
        let c = self.source[self.position];
        self.position = self.position + 1;
        if c == '"' {
            return Ok(());
        }
        buf.push(c);
        self.scan_string_exec(buf)
    }

    /// Reads one operator character.
    pub fn read_operator(&mut self) -> (r: Result<Operator, ReadError>)
        requires
            old(self).wf(),
        ensures
            final(self).wf(),
            final(self).src() == old(self).src(),
            match r {
                Ok(op) => old(self).pos() < old(self).src().len() && is_operator_char(
                    old(self).src()[old(self).pos()],
                ) && op == operator_of(old(self).src()[old(self).pos()]) && final(self).pos()
                    == old(self).pos() + 1,
                Err(er) => final(self).pos() == old(self).pos() && (if old(self).pos() >= old(
                    self,
                ).src().len() {
                    er == ReadError::UnexpectedEndOfInput
                } else {
                    !is_operator_char(old(self).src()[old(self).pos()]) && er
                        == ReadError::UnexpectedChar(old(self).src()[old(self).pos()])
                }),
            },
    {
        if self.position >= self.source.len() {
            return Err(ReadError::UnexpectedEndOfInput);
        }
        let c = self.source[self.position];
        let op = if c == '+' {
            Operator::Add
        } else if c == '-' {
            Operator::Sub
        } else if c == '*' {
            Operator::Mul
        } else if c == '/' {
            Operator::Div
        } else if c == '%' {
            Operator::Mod
        } else if c == '>' {
            Operator::Gt
        } else if c == '<' {
            Operator::Lt
        } else if c == '=' {
            Operator::Eq
        } else {
            return Err(ReadError::UnexpectedChar(c));
        };
        self.position = self.position + 1;
        Ok(op)
    }

    /// Reads a symbol and maps a reserved word to its special form.
    pub fn read_symbol_or_special(&mut self) -> (r: Result<Atom, ReadError>)
        requires
            old(self).wf(),
        ensures
            final(self).wf(),
            final(self).src() == old(self).src(),
            match r {
                Ok(a) => scan_symbol(
                    old(self).src(),
                    old(self).pos(),
                    Seq::<char>::empty(),
                    false,
                    false,
                ) matches Ok((name, p)) && a.deep() == symbol_or_special(name) && final(self).pos()
                    == p,
                Err(er) => scan_symbol(
                    old(self).src(),
                    old(self).pos(),
                    Seq::<char>::empty(),
                    false,
                    false,
                ) == Err::<(Seq<char>, int), ReadError>(er),
            },
    {
        let name = match self.read_symbol_chars() {
            Ok(v) => v,
            Err(er) => {
                return Err(er);
            },
        };
        match keyword_special(&name) {
            Some(sp) => Ok(Atom::Special(sp)),
            None => Ok(Atom::Symbol(Symbol::from_chars(&name))),
        }
    }

    /// Reads a symbol.
    pub fn read_symbol(&mut self) -> (r: Result<Symbol, ReadError>)
        requires
            old(self).wf(),
        ensures
            final(self).wf(),
            final(self).src() == old(self).src(),
            match r {
                Ok(sym) => scan_symbol(
                    old(self).src(),
                    old(self).pos(),
                    Seq::<char>::empty(),
                    false,
                    false,
                ) == Ok::<(Seq<char>, int), ReadError>((sym@, final(self).pos())),
                Err(er) => scan_symbol(
                    old(self).src(),
                    old(self).pos(),
                    Seq::<char>::empty(),
                    false,
                    false,
                ) == Err::<(Seq<char>, int), ReadError>(er),
            },
    {
        match self.read_symbol_chars() {
            Ok(v) => Ok(Symbol::from_chars(&v)),
            Err(er) => Err(er),
        }
    }

    /// Reads the characters of a symbol.
    fn read_symbol_chars(&mut self) -> (r: Result<Vec<char>, ReadError>)
        requires
            old(self).wf(),
        ensures
            final(self).wf(),
            final(self).src() == old(self).src(),
            match r {
                Ok(v) => scan_symbol(
                    old(self).src(),
                    old(self).pos(),
                    Seq::<char>::empty(),
                    false,
                    false,
                ) == Ok::<(Seq<char>, int), ReadError>((v@, final(self).pos())),
                Err(er) => scan_symbol(
                    old(self).src(),
                    old(self).pos(),
                    Seq::<char>::empty(),
                    false,
                    false,
                ) == Err::<(Seq<char>, int), ReadError>(er),
            },
    {
        let mut buf: Vec<char> = Vec::new();
        match self.scan_symbol_exec(&mut buf, false, false) {
            Ok(_) => Ok(buf),
            Err(er) => Err(er),
        }
    }

    /// Scans the rest of a symbol into `buf`.
    fn scan_symbol_exec(&mut self, buf: &mut Vec<char>, allow_punct: bool, must_end: bool) -> (r:
        Result<(), ReadError>)
        requires
            old(self).wf(),
        ensures
            final(self).wf(),
            final(self).src() == old(self).src(),
            match r {
                Ok(_) => scan_symbol(old(self).src(), old(self).pos(), old(buf)@, allow_punct, must_end)
                    == Ok::<(Seq<char>, int), ReadError>((final(buf)@, final(self).pos())),
                Err(er) => scan_symbol(
                    old(self).src(),
                    old(self).pos(),
                    old(buf)@,
                    allow_punct,
                    must_end,
                ) == Err::<(Seq<char>, int), ReadError>(er),
            },
        decreases self.src().len() - self.pos(),
    {
        let ended = if self.position >= self.source.len() {
            true
        } else {
            let c = self.source[self.position];
            c == ')' || ws_char(c)
        };
        if ended {
            if buf.len() > 0 {
                let last = buf[buf.len() - 1];
                if last == '-' || last == '/' {
                    return Err(ReadError::UnexpectedChar(last));
                }
            }
            return Ok(());
        }
        let c = self.source[self.position];
        if must_end {
            return Err(ReadError::UnexpectedChar(c));
        }
        if symbol_char(c) {
            self.position = self.position + 1;
            buf.push(c);
            self.scan_symbol_exec(buf, true, false)
        } else if (c == '-' || c == '/') && allow_punct {
            self.position = self.position + 1;
            buf.push(c);
            self.scan_symbol_exec(buf, false, false)
        } else if c == '?' {
            self.position = self.position + 1;
            buf.push(c);
            self.scan_symbol_exec(buf, true, true)
        } else {
            Err(ReadError::UnexpectedChar(c))
        }
    }

    /// Reads the top-level forms: one expression, then more until the
    /// text is exhausted.
    fn read_forms(&mut self) -> (r: Result<List, ReadError>)
        requires
            old(self).wf(),
        ensures
            final(self).wf(),
            final(self).src() == old(self).src(),
            match r {
                Ok(l) => read_forms_spec(old(self).src(), old(self).pos()) == Ok::<
                    Seq<ExprV>,
                    ReadError,
                >(l@),
                Err(er) => read_forms_spec(old(self).src(), old(self).pos()) == Err::<
                    Seq<ExprV>,
                    ReadError,
                >(er),
            },
        decreases self.src().len() - self.pos(), 3int,
    {
        let e = match self.read_expr() {
            Ok(e) => e,
            Err(er) => {
                return Err(er);
            },
        };
        if self.position >= self.source.len() {
            let l = List::cons(e, List::Nil);
            proof {
                assert(l@ =~= seq![l@[0]]);
            }
            return Ok(l);
        }
        let rest = match self.read_forms() {
            Ok(l) => l,
            Err(er) => {
                return Err(er);
            },
        };
        Ok(List::cons(e, rest))
    }
}

/// The special form a reserved word names, if the text is one.
fn keyword_special(text: &Vec<char>) -> (r: Option<Special>)
    ensures
        match r {
            Some(sp) => symbol_or_special(text@) == ExprV::Special(sp),
            None => symbol_or_special(text@) == ExprV::Sym(text@),
        },
{
    let n = text.len();
    if n == 2 && text[0] == 'd' && text[1] == 'o' {
        assert(text@ =~= seq!['d', 'o']);
        Some(Special::Do)
    } else if n == 3 && text[0] == 'd' && text[1] == 'e' && text[2] == 'f' {
        assert(text@ =~= seq!['d', 'e', 'f']);
        Some(Special::Define)
    } else if n == 6 && text[0] == 'd' && text[1] == 'e' && text[2] == 'f' && text[3] == 'i'
        && text[4] == 'n' && text[5] == 'e' {
        assert(text@ =~= seq!['d', 'e', 'f', 'i', 'n', 'e']);
        Some(Special::Define)
    } else if n == 2 && text[0] == 'f' && text[1] == 'n' {
        assert(text@ =~= seq!['f', 'n']);
        Some(Special::Function)
    } else if n == 8 && text[0] == 'f' && text[1] == 'u' && text[2] == 'n' && text[3] == 'c'
        && text[4] == 't' && text[5] == 'i' && text[6] == 'o' && text[7] == 'n' {
        assert(text@ =~= seq!['f', 'u', 'n', 'c', 't', 'i', 'o', 'n']);
        Some(Special::Function)
    } else if n == 5 && text[0] == 'm' && text[1] == 'a' && text[2] == 'c' && text[3] == 'r'
        && text[4] == 'o' {
        assert(text@ =~= seq!['m', 'a', 'c', 'r', 'o']);
        Some(Special::Macro)
    } else if n == 2 && text[0] == 'i' && text[1] == 'f' {
        assert(text@ =~= seq!['i', 'f']);
        Some(Special::If)
    } else if n == 5 && text[0] == 'q' && text[1] == 'u' && text[2] == 'o' && text[3] == 't'
        && text[4] == 'e' {
        assert(text@ =~= seq!['q', 'u', 'o', 't', 'e']);
        Some(Special::Quote)
    } else {
        proof {
            assert(text@ != seq!['d', 'o']);
            assert(text@ != seq!['d', 'e', 'f']);
            assert(text@ != seq!['d', 'e', 'f', 'i', 'n', 'e']);
            assert(text@ != seq!['f', 'n']);
            assert(text@ != seq!['f', 'u', 'n', 'c', 't', 'i', 'o', 'n']);
            assert(text@ != seq!['m', 'a', 'c', 'r', 'o']);
            assert(text@ != seq!['i', 'f']);
            assert(text@ != seq!['q', 'u', 'o', 't', 'e']);
        }
        None
    }
}

/// Reads a source text into one expression: its top-level forms wrapped
/// in a `do` form.
pub fn read(source: &str) -> (r: Result<Expression, ReadError>)
    ensures
        match r {
            Ok(e) => read_spec(source@) == Ok::<ExprV, ReadError>(e@),
            Err(er) => read_spec(source@) == Err::<ExprV, ReadError>(er),
        },
{
    let n = source.unicode_len();
    let mut chars: Vec<char> = Vec::new();
    let mut i: usize = 0;
    while i < n
        invariant
            i <= n,
            n == source@.len(),
            chars@ == source@.take(i as int),
        decreases n - i,
    {
        chars.push(source.get_char(i));
        assert(chars@ =~= source@.take(i + 1));
        i = i + 1;
    }
    assert(chars@ =~= source@);
    let mut reader = Reader::new(chars);
    let forms = match reader.read_forms() {
        Ok(l) => l,
        Err(er) => {
            return Err(er);
        },
    };
    let whole = List::cons(Expression::Atom(Atom::Special(Special::Do)), forms);
    proof {
        assert(whole@ =~= seq![ExprV::Special(Special::Do)] + forms@);
    }
    Ok(Expression::List(whole))
}

} // verus!
