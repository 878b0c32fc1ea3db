//! The expression data model: atoms, cons lists, closures, macros,
//! special forms and native functions, together with the mathematical
//! view (`ExprV`) that all contracts are stated over.

use vstd::prelude::*;
use std::rc::Rc;

verus! {

// === Interned symbols ========================================================
//
// Symbols are interned in a process-wide table so that equality is a
// pointer comparison on the interned handle. The handle type and the
// interning calls come from the `internment` crate; everything the rest
// of the crate knows about a handle is what `interned_str` says it holds.

/// The string held by an interned handle of the `internment` crate.
pub uninterp spec fn interned_str(h: internment::Intern<String>) -> Seq<char>;

#[verifier::external_type_specification]
#[verifier::external_body]
#[verifier::reject_recursive_types(T)]
pub struct ExIntern<T: 'static + ?Sized>(internment::Intern<T>);

/// Relies on `internment::Intern::new`: the returned handle holds exactly
/// the string it was given.
#[verifier::external_body]
fn intern_str_handle(text: &str) -> (h: internment::Intern<String>)
    ensures
        interned_str(h) == text@,
{
    internment::Intern::new(text.to_owned())
}

/// Relies on the interning invariant of `internment::Intern`: handles are
/// compared as pointers, and two handles carry the same pointer if and
/// only if the interned values are equal.
#[verifier::external_body]
fn intern_handles_equal(a: &internment::Intern<String>, b: &internment::Intern<String>) -> (r: bool)
    ensures
        r == (interned_str(*a) == interned_str(*b)),
{
    a == b
}

/// Relies on `internment::Intern::as_ref`: a handle dereferences to the
/// string it interned.
#[verifier::external_body]
fn intern_text<'a>(h: &'a internment::Intern<String>) -> (r: &'a str)
    ensures
        r@ == interned_str(*h),
{
    h.as_ref().as_str()
}

/// An interned, O(1)-comparable name. Two symbols are equal exactly when
/// their source strings are equal.
#[derive(Debug, Clone, Copy)]
pub struct Symbol {
    handle: internment::Intern<String>,
}

impl View for Symbol {
    type V = Seq<char>;

    closed spec fn view(&self) -> Seq<char> {
        interned_str(self.handle)
    }
}

impl Symbol {
    /// Interns `text` and returns the symbol for it.
    pub fn new(text: &str) -> (s: Symbol)
        ensures
            s@ == text@,
    {
        Symbol { handle: intern_str_handle(text) }
    }

    /// Interns the characters of `text` and returns the symbol for them.
    pub fn from_chars(text: &Vec<char>) -> (s: Symbol)
        ensures
            s@ == text@,
    {
        let owned = string_from_chars(text);
        Symbol { handle: intern_str_handle(owned.as_str()) }
    }

    /// The source string of the symbol.
    pub fn as_str(&self) -> (r: &str)
        ensures
            r@ == self@,
    {
        intern_text(&self.handle)
    }

    /// Symbol equality: true exactly when the source strings are equal.
    pub fn eq_symbol(&self, other: &Symbol) -> (r: bool)
        ensures
            r == (self@ == other@),
    {
        intern_handles_equal(&self.handle, &other.handle)
    }
}

// === The expression tree =====================================================

/// A tag for one of the built-in special forms.
#[derive(Debug, Clone, Copy, PartialEq, Eq, Structural)]
pub enum Special {
    Do,
    Define,
    Function,
    Macro,
    If,
    Quote,
    Operator(Operator),
}

/// A binary operator special form.
#[derive(Debug, Clone, Copy, PartialEq, Eq, Structural)]
pub enum Operator {
    Add,
    Sub,
    Mul,
    Div,
    Mod,
    Eq,
    Lt,
    Gt,
}

/// A tag for one of the native functions installed by the base frame.
#[derive(Debug, Clone, Copy, PartialEq, Eq, Structural)]
pub enum Native {
    Head,
    Tail,
    Cons,
    Print,
    IsNumber,
    IsString,
    IsSymbol,
    IsFunction,
    IsSpecial,
    IsNative,
}

/// An expression: either an atom or a cons list.
#[derive(Debug)]
pub enum Expression {
    Atom(Atom),
    List(List),
}

/// A non-compound expression.
#[derive(Debug)]
pub enum Atom {
    Number(i64),
    Str(String),
    Symbol(Symbol),
    Function(Function),
    Macro(Macro),
    Special(Special),
    Native(Native),
}

/// A persistent cons list: either a cell or the empty list.
#[derive(Debug)]
pub enum List {
    Cons(Cons),
    Nil,
}

/// One cons cell. Cells are shared by reference and never mutated.
#[derive(Debug)]
pub struct Cons {
    pub car: Rc<Expression>,
    pub cdr: Rc<List>,
}

/// A closure: the frame it was defined in (an index into the evaluator's
/// frame store), its parameter symbols, and its body.
#[derive(Debug)]
pub struct Function {
    pub frame: usize,
    pub parameters: Rc<Vec<Symbol>>,
    pub body: Rc<Expression>,
}

/// A macro: one parameter symbol, bound to the unevaluated argument list,
/// and a body.
#[derive(Debug)]
pub struct Macro {
    pub parameter: Symbol,
    pub body: Rc<Expression>,
}

// === The mathematical view ===================================================

/// The view of an expression: the same tree with interned handles replaced
/// by their strings, lists by sequences, and shared cells by plain values.
#[verifier::ext_equal]
pub enum ExprV {
    Num(i64),
    Text(Seq<char>),
    Sym(Seq<char>),
    Fun(FunV),
    Mac(MacV),
    Special(Special),
    Native(Native),
    Lst(Seq<ExprV>),
}

/// The view of a closure.
#[verifier::ext_equal]
pub struct FunV {
    pub frame: int,
    pub params: Seq<Seq<char>>,
    pub body: Box<ExprV>,
}

/// The view of a macro.
#[verifier::ext_equal]
pub struct MacV {
    pub param: Seq<char>,
    pub body: Box<ExprV>,
}

impl Expression {
    /// The mathematical value of this expression tree.
    pub open spec fn deep(self) -> ExprV
        decreases self,
    {
        match self {
            Expression::Atom(a) => a.deep(),
            Expression::List(l) => ExprV::Lst(l.deep()),
        }
    }
}

impl Atom {
    pub open spec fn deep(self) -> ExprV
        decreases self,
    {
        match self {
            Atom::Number(n) => ExprV::Num(n),
            Atom::Str(s) => ExprV::Text(s@),
            Atom::Symbol(s) => ExprV::Sym(s@),
            Atom::Function(f) => ExprV::Fun(f.deep_fun()),
            Atom::Macro(m) => ExprV::Mac(m.deep_mac()),
            Atom::Special(s) => ExprV::Special(s),
            Atom::Native(n) => ExprV::Native(n),
        }
    }
}

impl Function {
    pub open spec fn params_view(self) -> Seq<Seq<char>> {
        (*self.parameters)@.map_values(|s: Symbol| s@)
    }

    /// The view of this closure.
    pub open spec fn deep_fun(self) -> FunV
        decreases self,
    {
        FunV {
            frame: self.frame as int,
            params: self.params_view(),
            body: Box::new((*self.body).deep()),
        }
    }

    /// A closure over the frame at index `frame`.
    pub fn new(frame: usize, parameters: Vec<Symbol>, body: Expression) -> (r: Function)
        ensures
            r.deep_fun() == (FunV {
                frame: frame as int,
                params: parameters@.map_values(|s: Symbol| s@),
                body: Box::new(body@),
            }),
    {
        let r = Function { frame, parameters: Rc::new(parameters), body: Rc::new(body) };
        proof {
            assert(r.deep_fun() =~= FunV {
                frame: frame as int,
                params: r.params_view(),
                body: r.deep_fun().body,
            });
        }
        r
    }

    /// The index of the captured frame.
    pub fn frame(&self) -> (r: usize)
        ensures
            r as int == self.deep_fun().frame,
    {
        self.frame
    }

    /// The parameter symbols.
    pub fn parameters(&self) -> (r: &Vec<Symbol>)
        ensures
            r@.map_values(|s: Symbol| s@) == self.deep_fun().params,
    {
        &self.parameters
    }

    /// The body expression.
    pub fn body(&self) -> (r: &Expression)
        ensures
            r@ == *self.deep_fun().body,
    {
        &self.body
    }
}

impl Macro {
    /// The view of this macro.
    pub open spec fn deep_mac(self) -> MacV
        decreases self,
    {
        MacV { param: self.parameter@, body: Box::new((*self.body).deep()) }
    }

    /// A macro with one parameter and a body.
    pub fn new(parameter: Symbol, body: Expression) -> (r: Macro)
        ensures
            r.deep_mac() == (MacV { param: parameter@, body: Box::new(body@) }),
    {
        Macro { parameter, body: Rc::new(body) }
    }

    /// The parameter symbol, bound to the unevaluated argument list.
    pub fn parameter(&self) -> (r: &Symbol)
        ensures
            r@ == self.deep_mac().param,
    {
        &self.parameter
    }

    /// The body expression.
    pub fn body(&self) -> (r: &Expression)
        ensures
            r@ == *self.deep_mac().body,
    {
        &self.body
    }
}

impl List {
    /// The sequence of element values of this list.
    pub open spec fn deep(self) -> Seq<ExprV>
        decreases self,
    {
        match self {
            List::Nil => Seq::<ExprV>::empty(),
            List::Cons(c) => seq![(*c.car).deep()] + (*c.cdr).deep(),
        }
    }
}

impl View for Expression {
    type V = ExprV;

    open spec fn view(&self) -> ExprV {
        self.deep()
    }
}

impl View for List {
    type V = Seq<ExprV>;

    open spec fn view(&self) -> Seq<ExprV> {
        self.deep()
    }
}

// === The display form ========================================================

/// The decimal digit character for `d` (0 to 9).
pub open spec fn dec_digit(d: int) -> char {
    if d == 0 {
        '0'
    } else if d == 1 {
        '1'
    } else if d == 2 {
        '2'
    } else if d == 3 {
        '3'
    } else if d == 4 {
        '4'
    } else if d == 5 {
        '5'
    } else if d == 6 {
        '6'
    } else if d == 7 {
        '7'
    } else if d == 8 {
        '8'
    } else {
        '9'
    }
}

/// The decimal digits of a non-negative integer, most significant first.
pub open spec fn dec_nat(m: int) -> Seq<char>
    decreases m,
{
    if m < 10 {
        seq![dec_digit(m)]
    } else {
        dec_nat(m / 10).push(dec_digit(m % 10))
    }
}

/// The decimal form of an integer, with a leading minus sign if negative.
pub open spec fn dec_int(n: int) -> Seq<char> {
    if n < 0 {
        seq!['-'] + dec_nat(-n)
    } else {
        dec_nat(n)
    }
}

/// The display form of an expression: numbers in decimal, strings and
/// symbols as their text, callables as fixed tags, lists in parentheses
/// with elements separated by single spaces.
pub open spec fn display_of(e: ExprV) -> Seq<char>
    decreases e,
{
    match e {
        ExprV::Num(n) => dec_int(n as int),
        ExprV::Text(s) => s,
        ExprV::Sym(s) => s,
        ExprV::Fun(_) => "Function"@,
        ExprV::Mac(_) => "Macro"@,
        ExprV::Special(_) => "Special"@,
        ExprV::Native(_) => "Native Function"@,
        ExprV::Lst(items) => seq!['('] + display_items(items) + seq![')'],
    }
}

/// The display forms of list elements, separated by single spaces.
pub open spec fn display_items(items: Seq<ExprV>) -> Seq<char>
    decreases items,
{
    if items.len() == 0 {
        Seq::<char>::empty()
    } else if items.len() == 1 {
        display_of(items[0])
    } else {
        display_of(items[0]) + seq![' '] + display_items(items.drop_first())
    }
}

// === Cloning =================================================================
//
// Lists, closures and macros are shared by reference: cloning an
// expression copies tags and numbers and bumps reference counts, it never
// copies a cons cell.

/// Relies on `std::rc::Rc::clone`: the clone is a handle to the same value.
#[verifier::external_body]
fn rc_clone<T>(rc: &Rc<T>) -> (r: Rc<T>)
    ensures
        r == *rc,
{
    Rc::clone(rc)
}

impl Clone for Expression {
    fn clone(&self) -> (r: Self)
        ensures
            r == *self,
    {
        match self {
            Expression::Atom(a) => Expression::Atom(a.clone()),
            Expression::List(l) => Expression::List(l.clone()),
        }
    }
}

impl Clone for Atom {
    fn clone(&self) -> (r: Self)
        ensures
            r == *self,
    {
        match self {
            Atom::Number(n) => Atom::Number(*n),
            Atom::Str(s) => Atom::Str(s.clone()),
            Atom::Symbol(s) => Atom::Symbol(*s),
            Atom::Function(f) => Atom::Function(f.clone()),
            Atom::Macro(m) => Atom::Macro(m.clone()),
            Atom::Special(s) => Atom::Special(*s),
            Atom::Native(n) => Atom::Native(*n),
        }
    }
}

impl Clone for List {
    fn clone(&self) -> (r: Self)
        ensures
            r == *self,
    {
        match self {
            List::Cons(c) => List::Cons(c.clone()),
            List::Nil => List::Nil,
        }
    }
}

impl Clone for Cons {
    fn clone(&self) -> (r: Self)
        ensures
            r == *self,
    {
        Cons { car: rc_clone(&self.car), cdr: rc_clone(&self.cdr) }
    }
}

impl Clone for Function {
    fn clone(&self) -> (r: Self)
        ensures
            r == *self,
    {
        Function {
            frame: self.frame,
            parameters: rc_clone(&self.parameters),
            body: rc_clone(&self.body),
        }
    }
}

impl Clone for Macro {
    fn clone(&self) -> (r: Self)
        ensures
            r == *self,
    {
        Macro { parameter: self.parameter, body: rc_clone(&self.body) }
    }
}

// === Basic operations ========================================================

impl Expression {
    /// Every expression is truthy except the empty list.
    pub open spec fn is_truthy_spec(self) -> bool {
        self.deep() != ExprV::Lst(Seq::<ExprV>::empty())
    }

    /// Every expression is truthy except the empty list.
    pub fn is_truthy(&self) -> (r: bool)
        ensures
            r == self.is_truthy_spec(),
    {
        match self {
            Expression::List(List::Nil) => {
                assert(self.deep() == ExprV::Lst(Seq::<ExprV>::empty()));
                false
            },
            Expression::List(List::Cons(c)) => {
                assert(self.deep() matches ExprV::Lst(s) && s.len() > 0);
                true
            },
            Expression::Atom(a) => {
                assert(!(self.deep() is Lst));
                true
            },
        }
    }
}

impl List {
    /// Prepends `car` to `cdr`, sharing `cdr`.
    pub fn cons(car: Expression, cdr: List) -> (r: List)
        ensures
            r@ == seq![car@] + cdr@,
    {
        List::Cons(Cons { car: Rc::new(car), cdr: Rc::new(cdr) })
    }

    /// The head expression, if the list is not empty.
    pub fn car(&self) -> (r: Option<&Expression>)
        ensures
            match r {
                Some(e) => self@.len() > 0 && e@ == self@[0],
                None => self@.len() == 0,
            },
    {
        match self {
            List::Cons(c) => Some(&*c.car),
            List::Nil => None,
        }
    }

    /// The tail list, if the list is not empty.
    pub fn cdr(&self) -> (r: Option<&List>)
        ensures
            match r {
                Some(t) => self@.len() > 0 && t@ == self@.drop_first(),
                None => self@.len() == 0,
            },
    {
        match self {
            List::Cons(c) => {
                assert(self@.drop_first() =~= (*c.cdr)@);
                Some(&*c.cdr)
            },
            List::Nil => None,
        }
    }

    /// The element at `index`, if the list is that long.
    pub fn get(&self, index: usize) -> (r: Option<&Expression>)
        ensures
            match r {
                Some(e) => index < self@.len() && e@ == self@[index as int],
                None => self@.len() <= index,
            },
        decreases self@.len(),
    {
        match self {
            List::Nil => None,
            List::Cons(c) => {
                if index == 0 {
                    Some(&*c.car)
                } else {
                    let r = c.cdr.get(index - 1);
                    assert(match r {
                        Some(e) => index < self@.len() && e@ == self@[index as int],
                        None => self@.len() <= index,
                    });
                    r
                }
            },
        }
    }

    /// The list with `expression` appended at the end; the original is
    /// shared, not copied, up to the last cell.
    pub fn push(&self, expression: Expression) -> (r: List)
        ensures
            r@ == self@.push(expression@),
        decreases self,
    {
        match self {
            List::Nil => {
                let r = List::cons(expression, List::Nil);
                proof {
                    assert(r@ =~= self@.push(r@[0]));
                }
                r
            },
            List::Cons(c) => {
                let rest = c.cdr.push(expression);
                let r = List::Cons(Cons { car: rc_clone(&c.car), cdr: Rc::new(rest) });
                proof {
                    assert(r@ =~= self@.push(expression@));
                }
                r
            },
        }
    }

    /// The number of elements, saturating at `usize::MAX`.
    pub fn len(&self) -> (r: usize)
        ensures
            r == self@.len() || (r == usize::MAX && self@.len() >= usize::MAX),
        decreases self@.len(),
    {
        match self {
            List::Nil => 0,
            List::Cons(c) => {
                let rest = c.cdr.len();
                if rest == usize::MAX {
                    usize::MAX
                } else {
                    1 + rest
                }
            },
        }
    }
}

// === Building the display form ===============================================

/// Relies on std's `String::push`: appends one character.
#[verifier::external_body]
fn push_char(s: &mut String, c: char)
    ensures
        final(s)@ == old(s)@.push(c),
{
    s.push(c);
}

/// The decimal digit character for `d`.
fn digit_char(d: u64) -> (c: char)
    requires
        d < 10,
    ensures
        c == dec_digit(d as int),
{
    if d == 0 {
        '0'
    } else if d == 1 {
        '1'
    } else if d == 2 {
        '2'
    } else if d == 3 {
        '3'
    } else if d == 4 {
        '4'
    } else if d == 5 {
        '5'
    } else if d == 6 {
        '6'
    } else if d == 7 {
        '7'
    } else if d == 8 {
        '8'
    } else {
        '9'
    }
}

/// Appends the decimal digits of `m`.
fn write_u64_dec(buf: &mut String, m: u64)
    ensures
        final(buf)@ == old(buf)@ + dec_nat(m as int),
    decreases m,
{
    if m < 10 {
        push_char(buf, digit_char(m));
        assert(final(buf)@ =~= old(buf)@ + dec_nat(m as int));
    } else {
        write_u64_dec(buf, m / 10);
        push_char(buf, digit_char(m % 10));
        assert(final(buf)@ =~= old(buf)@ + dec_nat(m as int));
    }
}

/// Appends the decimal form of `n`, with a minus sign if negative.
fn write_i64_dec(buf: &mut String, n: i64)
    ensures
        final(buf)@ == old(buf)@ + dec_int(n as int),
{
    if n >= 0 {
        write_u64_dec(buf, n as u64);
    } else {
        push_char(buf, '-');
        let mag: u64 = ((-(n + 1)) as u64) + 1;
        assert(mag as int == -(n as int));
        write_u64_dec(buf, mag);
        assert(final(buf)@ =~= old(buf)@ + dec_int(n as int));
    }
}

/// Appends the display form of `e`.
fn write_expr(buf: &mut String, e: &Expression)
    ensures
        final(buf)@ == old(buf)@ + display_of(e@),
    decreases e,
{
    match e {
        Expression::Atom(a) => match a {
            Atom::Number(n) => write_i64_dec(buf, *n),
            Atom::Str(s) => buf.append(s.as_str()),
            Atom::Symbol(s) => buf.append(s.as_str()),
            Atom::Function(_) => buf.append("Function"),
            Atom::Macro(_) => buf.append("Macro"),
            Atom::Special(_) => buf.append("Special"),
            Atom::Native(_) => buf.append("Native Function"),
        },
        Expression::List(l) => {
            push_char(buf, '(');
            write_items(buf, l);
            push_char(buf, ')');
            assert(final(buf)@ =~= old(buf)@ + display_of(e@));
        },
    }
}

/// Appends the display forms of the elements of `l`, space-separated.
fn write_items(buf: &mut String, l: &List)
    ensures
        final(buf)@ == old(buf)@ + display_items(l@),
    decreases l,
{
    match l {
        List::Nil => {
            assert(l@.len() == 0);
            assert(final(buf)@ =~= old(buf)@ + display_items(l@));
        },
        List::Cons(c) => {
            proof {
                assert(l@[0] == (*c.car)@);
                assert(l@.drop_first() =~= (*c.cdr)@);
            }
            write_expr(buf, &c.car);
            match &*c.cdr {
                List::Nil => {
                    assert(l@.len() == 1);
                    assert(final(buf)@ =~= old(buf)@ + display_items(l@));
                },
                _ => {
                    assert(l@.len() >= 2);
                    push_char(buf, ' ');
                    write_items(buf, &c.cdr);
                    assert(final(buf)@ =~= old(buf)@ + display_items(l@));
                },
            }
        },
    }
}

/// A `String` holding exactly the given characters.
pub fn string_from_chars(v: &Vec<char>) -> (s: String)
    ensures
        s@ == v@,
{
    let mut s = String::new();
    let mut i: usize = 0;
    while i < v.len()
        invariant
            i <= v@.len(),
            s@ == v@.take(i as int),
        decreases v@.len() - i,
    {
        push_char(&mut s, v[i]);
        assert(s@ =~= v@.take(i + 1));
        i = i + 1;
    }
    assert(s@ =~= v@);
    s
}

/// The display form of an expression, as the REPL and `print` show it.
pub fn display_string(e: &Expression) -> (s: String)
    ensures
        s@ == display_of(e@),
{
    let mut s = String::new();
    write_expr(&mut s, e);
    assert(s@ =~= display_of(e@));
    s
}

// === Structural equality =====================================================
//
// The `=` operator compares values structurally: same variant, same
// payload, recursively. Two symbols are equal exactly when their source
// strings are; two closures when their captured frame, parameters and
// bodies are.

/// Structural equality of expressions: true exactly when the views are
/// equal.
pub fn expr_eq(a: &Expression, b: &Expression) -> (r: bool)
    ensures
        r == (a@ == b@),
    decreases a,
{
    match (a, b) {
        (Expression::Atom(x), Expression::Atom(y)) => atom_eq(x, y),
        (Expression::List(x), Expression::List(y)) => list_eq(x, y),
        (Expression::Atom(x), Expression::List(_)) => {
            proof { lemma_atom_deep_not_list(*x); }
            false
        },
        (Expression::List(_), Expression::Atom(y)) => {
            proof { lemma_atom_deep_not_list(*y); }
            false
        },
    }
}

pub proof fn lemma_atom_deep_not_list(a: Atom)
    ensures
        !(a.deep() is Lst),
{
    match a {
        Atom::Number(_) => {},
        Atom::Str(_) => {},
        Atom::Symbol(_) => {},
        Atom::Function(_) => {},
        Atom::Macro(_) => {},
        Atom::Special(_) => {},
        Atom::Native(_) => {},
    }
}

/// Structural equality of atoms.
fn atom_eq(a: &Atom, b: &Atom) -> (r: bool)
    ensures
        r == (a.deep() == b.deep()),
    decreases a,
{
    match (a, b) {
        (Atom::Number(x), Atom::Number(y)) => *x == *y,
        (Atom::Str(x), Atom::Str(y)) => *x == *y,
        (Atom::Symbol(x), Atom::Symbol(y)) => x.eq_symbol(y),
        (Atom::Function(x), Atom::Function(y)) => {
            if x.frame == y.frame && symbols_eq(&x.parameters, &y.parameters) && expr_eq(
                &x.body,
                &y.body,
            ) {
                assert(a.deep() =~= b.deep());
                true
            } else {
                false
            }
        },
        (Atom::Macro(x), Atom::Macro(y)) => {
            if x.parameter.eq_symbol(&y.parameter) && expr_eq(&x.body, &y.body) {
                assert(a.deep() =~= b.deep());
                true
            } else {
                false
            }
        },
        (Atom::Special(x), Atom::Special(y)) => *x == *y,
        (Atom::Native(x), Atom::Native(y)) => *x == *y,
        _ => {
            proof {
                lemma_atom_deep_constructor(*a);
                lemma_atom_deep_constructor(*b);
            }
            false
        },
    }
}

/// The view of an atom uses the constructor that matches the atom's own.
pub proof fn lemma_atom_deep_constructor(a: Atom)
    ensures
        a is Number <==> a.deep() is Num,
        a is Str <==> a.deep() is Text,
        a is Symbol <==> a.deep() is Sym,
        a is Function <==> a.deep() is Fun,
        a is Macro <==> a.deep() is Mac,
        a is Special <==> a.deep() is Special,
        a is Native <==> a.deep() is Native,
{
    match a {
        Atom::Number(_) => {},
        Atom::Str(_) => {},
        Atom::Symbol(_) => {},
        Atom::Function(_) => {},
        Atom::Macro(_) => {},
        Atom::Special(_) => {},
        Atom::Native(_) => {},
    }
}

/// The view of an expression uses the constructor that matches the
/// expression's own shape.
pub proof fn lemma_expr_deep_constructor(e: Expression)
    ensures
        (e.deep() is Num) <==> e matches Expression::Atom(Atom::Number(_)),
        (e.deep() is Text) <==> e matches Expression::Atom(Atom::Str(_)),
        (e.deep() is Sym) <==> e matches Expression::Atom(Atom::Symbol(_)),
        (e.deep() is Fun) <==> e matches Expression::Atom(Atom::Function(_)),
        (e.deep() is Mac) <==> e matches Expression::Atom(Atom::Macro(_)),
        (e.deep() is Special) <==> e matches Expression::Atom(Atom::Special(_)),
        (e.deep() is Native) <==> e matches Expression::Atom(Atom::Native(_)),
        (e.deep() is Lst) <==> e matches Expression::List(_),
{
    match e {
        Expression::Atom(a) => lemma_atom_deep_constructor(a),
        Expression::List(_) => {},
    }
}

/// Pointwise equality of two parameter vectors.
fn symbols_eq(a: &Vec<Symbol>, b: &Vec<Symbol>) -> (r: bool)
    ensures
        r == (a@.map_values(|s: Symbol| s@) == b@.map_values(|s: Symbol| s@)),
{
    let ghost av = a@.map_values(|s: Symbol| s@);
    let ghost bv = b@.map_values(|s: Symbol| s@);
    if a.len() != b.len() {
        assert(av.len() != bv.len());
        return false;
    }
    let mut i: usize = 0;
    while i < a.len()
        invariant
            i <= a.len(),
            a@.len() == b@.len(),
            av == a@.map_values(|s: Symbol| s@),
            bv == b@.map_values(|s: Symbol| s@),
            forall|j: int| 0 <= j < i ==> av[j] == bv[j],
        decreases a@.len() - i,
    {
        if !a[i].eq_symbol(&b[i]) {
            assert(av[i as int] != bv[i as int]);
            return false;
        }
        i = i + 1;
    }
    assert(av =~= bv);
    true
}

/// Structural equality of lists.
fn list_eq(a: &List, b: &List) -> (r: bool)
    ensures
        r == (a@ == b@),
    decreases a,
{
    match (a, b) {
        (List::Nil, List::Nil) => true,
        (List::Cons(x), List::Cons(y)) => {
            let heads = expr_eq(&x.car, &y.car);
            if !heads {
                assert(a@[0] == (*x.car)@ && b@[0] == (*y.car)@);
                return false;
            }
            let tails = list_eq(&x.cdr, &y.cdr);
            proof {
                assert(a@.drop_first() =~= (*x.cdr)@);
                assert(b@.drop_first() =~= (*y.cdr)@);
                if tails {
                    assert(a@ =~= b@);
                }
            }
            tails
        },
        (List::Nil, List::Cons(_)) => {
            assert(a@.len() == 0 && b@.len() > 0);
            false
        },
        (List::Cons(_), List::Nil) => {
            assert(a@.len() > 0 && b@.len() == 0);
            false
        },
    }
}

} // verus!
