//! The evaluator.
//!
//! The meaning of an expression is fixed by the specification functions
//! in this module: `eval_spec` is a fuel-bounded, big-step, deterministic
//! interpreter over the mathematical views of expressions and frames.
//! The executable `Evaluator` is proved to return exactly what
//! `eval_spec` says, for every input and every fuel.
//!
//! Fuel bounds the nesting depth of evaluation. Where the depth would
//! exceed the fuel, evaluation stops with `RecursionLimit`; no other
//! behaviour depends on the fuel.

use vstd::prelude::*;
use vstd::pervasive::VecAdditionalExecFns;
use std::rc::Rc;
use crate::ast::{
    display_of, display_string, expr_eq, lemma_expr_deep_constructor, Atom, Expression, ExprV,
    FunV, Function, List, MacV, Macro, Native, Operator, Special, Symbol,
};
use crate::env::{lookup, lookup_spec, store_view, Frame, FrameV};
use crate::prelude::{base_frame_view, build_base_frame};

verus! {

// === Errors ==================================================================

/// The view of an evaluation error.
pub enum ErrV {
    /// An expression of the wrong shape where a specific one was needed.
    InvalidType,
    /// An argument-count mismatch.
    WrongArity,
    /// A symbol that no frame along the chain binds.
    UndefinedSymbol(Seq<char>),
    /// The head of a non-empty list evaluated to a non-callable.
    NotCallable,
    /// A division or remainder with a zero divisor.
    DivisionByZero,
    /// The nesting depth of evaluation exceeded the fuel.
    RecursionLimit,
}

/// An evaluation error.
#[derive(Debug)]
pub enum EvalError {
    InvalidType,
    WrongArity,
    UndefinedSymbol(Symbol),
    NotCallable,
    DivisionByZero,
    RecursionLimit,
}

impl View for EvalError {
    type V = ErrV;

    open spec fn view(&self) -> ErrV {
        match self {
            EvalError::InvalidType => ErrV::InvalidType,
            EvalError::WrongArity => ErrV::WrongArity,
            EvalError::UndefinedSymbol(s) => ErrV::UndefinedSymbol(s@),
            EvalError::NotCallable => ErrV::NotCallable,
            EvalError::DivisionByZero => ErrV::DivisionByZero,
            EvalError::RecursionLimit => ErrV::RecursionLimit,
        }
    }
}

impl Clone for EvalError {
    fn clone(&self) -> (r: Self)
        ensures
            r == *self,
    {
        match self {
            EvalError::InvalidType => EvalError::InvalidType,
            EvalError::WrongArity => EvalError::WrongArity,
            EvalError::UndefinedSymbol(s) => EvalError::UndefinedSymbol(*s),
            EvalError::NotCallable => EvalError::NotCallable,
            EvalError::DivisionByZero => EvalError::DivisionByZero,
            EvalError::RecursionLimit => EvalError::RecursionLimit,
        }
    }
}

// === The specification interpreter ===========================================

/// The view of the evaluator's mutable state: the frame store and the
/// lines printed so far.
#[verifier::ext_equal]
pub struct StateV {
    pub frames: Seq<FrameV>,
    pub out: Seq<Seq<char>>,
}

impl StateV {
    /// The state with one more frame.
    pub open spec fn push_frame(self, f: FrameV) -> StateV {
        StateV { frames: self.frames.push(f), out: self.out }
    }

    /// The state with `name` bound to `v` in frame `idx`.
    pub open spec fn set_binding(self, idx: int, name: Seq<char>, v: ExprV) -> StateV {
        StateV {
            frames: self.frames.update(
                idx,
                FrameV {
                    parent: self.frames[idx].parent,
                    bindings: self.frames[idx].bindings.insert(name, v),
                },
            ),
            out: self.out,
        }
    }

    /// The state with one more printed line.
    pub open spec fn print(self, line: Seq<char>) -> StateV {
        StateV { frames: self.frames, out: self.out.push(line) }
    }
}

/// The outcome of evaluating one expression.
pub enum Outcome {
    Done(StateV, ExprV),
    Fail(StateV, ErrV),
}

/// The outcome of evaluating a sequence of argument expressions.
pub enum ArgsOutcome {
    AllDone(StateV, Seq<ExprV>),
    Fail(StateV, ErrV),
}

/// The empty list, the one falsy value.
pub open spec fn nil_v() -> ExprV {
    ExprV::Lst(Seq::<ExprV>::empty())
}

/// The truth symbol.
pub open spec fn truth_v() -> ExprV {
    ExprV::Sym("true"@)
}

/// Every value is truthy except the empty list.
pub open spec fn truthy_v(v: ExprV) -> bool {
    v != nil_v()
}

/// The frame bindings of a call: parameters bound to arguments, left to
/// right, a later duplicate shadowing an earlier one.
pub open spec fn bind_params(params: Seq<Seq<char>>, vals: Seq<ExprV>) -> Map<Seq<char>, ExprV>
    decreases params.len(),
{
    if params.len() == 0 {
        Map::<Seq<char>, ExprV>::empty()
    } else {
        bind_params(params.drop_last(), vals.drop_last()).insert(
            params.last(),
            vals[params.len() - 1],
        )
    }
}

/// Evaluation of one expression in frame `cur`.
///
/// Atoms other than symbols and the empty list evaluate to themselves; a
/// symbol resolves along the frame chain; a non-empty list evaluates its
/// head and dispatches on the callable the head denotes.
pub open spec fn eval_spec(st: StateV, cur: int, e: ExprV, fuel: nat) -> Outcome
    decreases fuel, 3int,
{
    if fuel == 0 {
        Outcome::Fail(st, ErrV::RecursionLimit)
    } else {
        match e {
            ExprV::Sym(name) => match lookup_spec(st.frames, cur, name) {
                Some(v) => Outcome::Done(st, v),
                None => Outcome::Fail(st, ErrV::UndefinedSymbol(name)),
            },
            ExprV::Lst(elems) => if elems.len() == 0 {
                Outcome::Done(st, e)
            } else {
                match eval_spec(st, cur, elems[0], (fuel - 1) as nat) {
                    Outcome::Done(st1, head) => match head {
                        ExprV::Fun(f) => call_fun_spec(
                            st1,
                            cur,
                            f,
                            elems.drop_first(),
                            (fuel - 1) as nat,
                        ),
                        ExprV::Mac(m) => call_macro_spec(
                            st1,
                            cur,
                            m,
                            elems.drop_first(),
                            (fuel - 1) as nat,
                        ),
                        ExprV::Special(s) => special_spec(
                            st1,
                            cur,
                            s,
                            elems.drop_first(),
                            (fuel - 1) as nat,
                        ),
                        ExprV::Native(n) => call_native_spec(
                            st1,
                            cur,
                            n,
                            elems.drop_first(),
                            (fuel - 1) as nat,
                        ),
                        _ => Outcome::Fail(st1, ErrV::NotCallable),
                    },
                    fail => fail,
                }
            },
            _ => Outcome::Done(st, e),
        }
    }
}

/// Left-to-right evaluation of argument expressions.
pub open spec fn eval_args_spec(st: StateV, cur: int, args: Seq<ExprV>, fuel: nat) -> ArgsOutcome
    decreases fuel, 1int,
{
    if args.len() == 0 {
        ArgsOutcome::AllDone(st, Seq::<ExprV>::empty())
    } else if fuel == 0 {
        ArgsOutcome::Fail(st, ErrV::RecursionLimit)
    } else {
        match eval_spec(st, cur, args[0], (fuel - 1) as nat) {
            Outcome::Done(st1, v) => match eval_args_spec(
                st1,
                cur,
                args.drop_first(),
                (fuel - 1) as nat,
            ) {
                ArgsOutcome::AllDone(st2, vs) => ArgsOutcome::AllDone(st2, seq![v] + vs),
                fail => fail,
            },
            Outcome::Fail(st1, er) => ArgsOutcome::Fail(st1, er),
        }
    }
}

/// A call of a closure: the arguments are evaluated in the current frame,
/// then the body is evaluated in a fresh frame that binds the parameters
/// and whose parent is the frame the closure captured.
pub open spec fn call_fun_spec(st: StateV, cur: int, f: FunV, args: Seq<ExprV>, fuel: nat) -> Outcome
    decreases fuel, 2int,
{
    if fuel == 0 {
        Outcome::Fail(st, ErrV::RecursionLimit)
    } else {
        match eval_args_spec(st, cur, args, fuel) {
        ArgsOutcome::AllDone(st1, vals) => if vals.len() != f.params.len() {
            Outcome::Fail(st1, ErrV::WrongArity)
        } else {
            let body_frame = st1.frames.len() as int;
            let st2 = st1.push_frame(
                FrameV { parent: Some(f.frame), bindings: bind_params(f.params, vals) },
            );
            eval_spec(st2, body_frame, *f.body, (fuel - 1) as nat)
        },
        ArgsOutcome::Fail(st1, er) => Outcome::Fail(st1, er),
        }
    }
}

/// A call of a macro: the whole unevaluated argument list is bound to the
/// macro's parameter in a fresh child of the current frame; the body's
/// result is then evaluated back in the current frame.
pub open spec fn call_macro_spec(st: StateV, cur: int, m: MacV, args: Seq<ExprV>, fuel: nat) -> Outcome
    decreases fuel, 2int,
{
    if fuel == 0 {
        Outcome::Fail(st, ErrV::RecursionLimit)
    } else {
        let body_frame = st.frames.len() as int;
        let st1 = st.push_frame(
            FrameV {
                parent: Some(cur),
                bindings: Map::<Seq<char>, ExprV>::empty().insert(m.param, ExprV::Lst(args)),
            },
        );
        match eval_spec(st1, body_frame, *m.body, (fuel - 1) as nat) {
            Outcome::Done(st2, expansion) => eval_spec(st2, cur, expansion, (fuel - 1) as nat),
            fail => fail,
        }
    }
}

/// The parameter names of a closure, if every element is a symbol.
pub open spec fn params_of(elems: Seq<ExprV>) -> Option<Seq<Seq<char>>>
    decreases elems.len(),
{
    if elems.len() == 0 {
        Some(Seq::<Seq<char>>::empty())
    } else {
        match elems[0] {
            ExprV::Sym(name) => match params_of(elems.drop_first()) {
                Some(rest) => Some(seq![name] + rest),
                None => None,
            },
            _ => None,
        }
    }
}

/// The special forms.
pub open spec fn special_spec(st: StateV, cur: int, s: Special, args: Seq<ExprV>, fuel: nat) -> Outcome
    decreases fuel, 2int,
{
    match s {
        Special::Do => if args.len() == 0 {
            Outcome::Fail(st, ErrV::WrongArity)
        } else {
            do_spec(st, cur, args, fuel)
        },
        Special::Define => define_spec(st, cur, args, fuel),
        Special::Function => function_form_spec(st, cur, args),
        Special::Macro => macro_form_spec(st, args),
        Special::If => if_spec(st, cur, args, fuel),
        Special::Quote => if args.len() == 0 {
            Outcome::Fail(st, ErrV::WrongArity)
        } else {
            Outcome::Done(st, args[0])
        },
        Special::Operator(op) => op_spec(st, cur, op, args, fuel),
    }
}

/// The `function` form: builds a closure over the current frame. The
/// parameter list must be a list of symbols; nothing is evaluated.
pub open spec fn function_form_spec(st: StateV, cur: int, args: Seq<ExprV>) -> Outcome {
    if args.len() == 0 {
        Outcome::Fail(st, ErrV::WrongArity)
    } else {
        match args[0] {
            ExprV::Lst(param_elems) => match params_of(param_elems) {
                Some(params) => if args.len() < 2 {
                    Outcome::Fail(st, ErrV::WrongArity)
                } else {
                    Outcome::Done(
                        st,
                        ExprV::Fun(FunV { frame: cur, params: params, body: Box::new(args[1]) }),
                    )
                },
                None => Outcome::Fail(st, ErrV::InvalidType),
            },
            _ => Outcome::Fail(st, ErrV::InvalidType),
        }
    }
}

/// The parameter of a `macro` form: one symbol, written either in a
/// one-element list, `(macro (p) body)`, or bare, `(macro p body)`.
pub open spec fn macro_param(arg: ExprV) -> Option<Seq<char>> {
    match arg {
        ExprV::Sym(p) => Some(p),
        ExprV::Lst(elems) => if elems.len() == 1 {
            match elems[0] {
                ExprV::Sym(p) => Some(p),
                _ => None,
            }
        } else {
            None
        },
        _ => None,
    }
}

/// The `macro` form: builds a macro from one parameter symbol and a body;
/// nothing is evaluated.
pub open spec fn macro_form_spec(st: StateV, args: Seq<ExprV>) -> Outcome {
    if args.len() == 0 {
        Outcome::Fail(st, ErrV::WrongArity)
    } else {
        match macro_param(args[0]) {
            Some(param) => if args.len() < 2 {
                Outcome::Fail(st, ErrV::WrongArity)
            } else {
                Outcome::Done(st, ExprV::Mac(MacV { param: param, body: Box::new(args[1]) }))
            },
            None => Outcome::Fail(st, ErrV::InvalidType),
        }
    }
}

/// `do`: evaluate each form in order, return the last value.
pub open spec fn do_spec(st: StateV, cur: int, args: Seq<ExprV>, fuel: nat) -> Outcome
    decreases fuel, 1int,
{
    if fuel == 0 {
        Outcome::Fail(st, ErrV::RecursionLimit)
    } else if args.len() <= 1 {
        eval_spec(st, cur, args[0], (fuel - 1) as nat)
    } else {
        match eval_spec(st, cur, args[0], (fuel - 1) as nat) {
            Outcome::Done(st1, _) => do_spec(st1, cur, args.drop_first(), (fuel - 1) as nat),
            fail => fail,
        }
    }
}

/// `define`: evaluate the value, then bind the symbol in the current
/// frame; the binding is written only after the value has been computed.
pub open spec fn define_spec(st: StateV, cur: int, args: Seq<ExprV>, fuel: nat) -> Outcome
    decreases fuel, 1int,
{
    if fuel == 0 {
        Outcome::Fail(st, ErrV::RecursionLimit)
    } else if args.len() == 0 {
        Outcome::Fail(st, ErrV::WrongArity)
    } else {
        match args[0] {
            ExprV::Sym(name) => if args.len() < 2 {
                Outcome::Fail(st, ErrV::WrongArity)
            } else {
                match eval_spec(st, cur, args[1], (fuel - 1) as nat) {
                    Outcome::Done(st1, v) => Outcome::Done(st1.set_binding(cur, name, v), v),
                    fail => fail,
                }
            },
            _ => Outcome::Fail(st, ErrV::InvalidType),
        }
    }
}

/// `if`: evaluate the condition, then exactly one of the two branches.
pub open spec fn if_spec(st: StateV, cur: int, args: Seq<ExprV>, fuel: nat) -> Outcome
    decreases fuel, 1int,
{
    if fuel == 0 {
        Outcome::Fail(st, ErrV::RecursionLimit)
    } else if args.len() == 0 {
        Outcome::Fail(st, ErrV::WrongArity)
    } else {
        match eval_spec(st, cur, args[0], (fuel - 1) as nat) {
            Outcome::Done(st1, c) => if truthy_v(c) {
                if args.len() < 2 {
                    Outcome::Fail(st1, ErrV::WrongArity)
                } else {
                    eval_spec(st1, cur, args[1], (fuel - 1) as nat)
                }
            } else {
                if args.len() < 3 {
                    Outcome::Fail(st1, ErrV::WrongArity)
                } else {
                    eval_spec(st1, cur, args[2], (fuel - 1) as nat)
                }
            },
            fail => fail,
        }
    }
}

/// A binary operator form: both operands are evaluated left to right,
/// then the operator is applied.
pub open spec fn op_spec(st: StateV, cur: int, op: Operator, args: Seq<ExprV>, fuel: nat) -> Outcome
    decreases fuel, 1int,
{
    if fuel == 0 {
        Outcome::Fail(st, ErrV::RecursionLimit)
    } else if args.len() < 2 {
        Outcome::Fail(st, ErrV::WrongArity)
    } else {
        match eval_spec(st, cur, args[0], (fuel - 1) as nat) {
            Outcome::Done(st1, a) => match eval_spec(st1, cur, args[1], (fuel - 1) as nat) {
                Outcome::Done(st2, b) => match op_result(op, a, b) {
                    Ok(v) => Outcome::Done(st2, v),
                    Err(er) => Outcome::Fail(st2, er),
                },
                fail => fail,
            },
            fail => fail,
        }
    }
}

/// What each operator returns. Arithmetic is on 64-bit integers and
/// wraps; division and remainder truncate towards zero and fail on a
/// zero divisor; `=` is structural equality on values; `<` and `>`
/// compare numbers.
pub open spec fn op_result(op: Operator, a: ExprV, b: ExprV) -> Result<ExprV, ErrV> {
    match op {
        Operator::Eq => Ok(if a == b { truth_v() } else { nil_v() }),
        _ => match (a, b) {
            (ExprV::Num(x), ExprV::Num(y)) => match op {
                Operator::Add => Ok(ExprV::Num(x.wrapping_add(y))),
                Operator::Sub => Ok(ExprV::Num(x.wrapping_sub(y))),
                Operator::Mul => Ok(ExprV::Num(x.wrapping_mul(y))),
                Operator::Div => if y == 0 {
                    Err(ErrV::DivisionByZero)
                } else {
                    Ok(
                        ExprV::Num(
                            match x.checked_div(y) {
                                Some(q) => q,
                                None => i64::MIN,
                            },
                        ),
                    )
                },
                Operator::Mod => if y == 0 {
                    Err(ErrV::DivisionByZero)
                } else {
                    Ok(
                        ExprV::Num(
                            match x.checked_rem(y) {
                                Some(r) => r,
                                None => 0,
                            },
                        ),
                    )
                },
                Operator::Lt => Ok(if x < y { truth_v() } else { nil_v() }),
                Operator::Gt => Ok(if x > y { truth_v() } else { nil_v() }),
                Operator::Eq => Ok(nil_v()),
            },
            _ => Err(ErrV::InvalidType),
        },
    }
}

/// A call of a native function: the arguments are evaluated in the
/// current frame and the native is applied to the values.
pub open spec fn call_native_spec(st: StateV, cur: int, n: Native, args: Seq<ExprV>, fuel: nat) -> Outcome
    decreases fuel, 2int,
{
    match eval_args_spec(st, cur, args, fuel) {
        ArgsOutcome::AllDone(st1, vals) => apply_native_spec(st1, n, vals),
        ArgsOutcome::Fail(st1, er) => Outcome::Fail(st1, er),
    }
}

/// What each native function returns. Every native takes one argument,
/// except `cons`, which takes two. `head` and `tail` fail on the empty
/// list and on a non-list; `cons` prepends to a list; `print` records
/// the display form of its argument and returns it; the predicates
/// return the truth symbol or the empty list.
pub open spec fn apply_native_spec(st: StateV, n: Native, vals: Seq<ExprV>) -> Outcome {
    match n {
        Native::Cons => if vals.len() != 2 {
            Outcome::Fail(st, ErrV::WrongArity)
        } else {
            match vals[1] {
                ExprV::Lst(items) => Outcome::Done(st, ExprV::Lst(seq![vals[0]] + items)),
                _ => Outcome::Fail(st, ErrV::InvalidType),
            }
        },
        _ => if vals.len() != 1 {
            Outcome::Fail(st, ErrV::WrongArity)
        } else {
            let v = vals[0];
            match n {
                Native::Head => match v {
                    ExprV::Lst(items) => if items.len() == 0 {
                        Outcome::Fail(st, ErrV::InvalidType)
                    } else {
                        Outcome::Done(st, items[0])
                    },
                    _ => Outcome::Fail(st, ErrV::InvalidType),
                },
                Native::Tail => match v {
                    ExprV::Lst(items) => if items.len() == 0 {
                        Outcome::Fail(st, ErrV::InvalidType)
                    } else {
                        Outcome::Done(st, ExprV::Lst(items.drop_first()))
                    },
                    _ => Outcome::Fail(st, ErrV::InvalidType),
                },
                Native::Print => Outcome::Done(st.print(display_of(v)), v),
                Native::IsNumber => Outcome::Done(st, if v is Num { truth_v() } else { nil_v() }),
                Native::IsString => Outcome::Done(st, if v is Text { truth_v() } else { nil_v() }),
                Native::IsSymbol => Outcome::Done(st, if v is Sym { truth_v() } else { nil_v() }),
                Native::IsFunction => Outcome::Done(st, if v is Fun { truth_v() } else { nil_v() }),
                Native::IsSpecial => Outcome::Done(
                    st,
                    if v is Special { truth_v() } else { nil_v() },
                ),
                Native::IsNative => Outcome::Done(st, if v is Native { truth_v() } else { nil_v() }),
                Native::Cons => Outcome::Fail(st, ErrV::WrongArity),
            }
        },
    }
}

// === The executable evaluator ================================================

/// The views of a sequence of evaluated expressions.
pub open spec fn exprs_view(s: Seq<Expression>) -> Seq<ExprV> {
    s.map_values(|e: Expression| e@)
}

/// The state a fresh evaluator starts from: the base frame alone, nothing
/// printed yet.
pub open spec fn initial_state() -> StateV {
    StateV { frames: seq![base_frame_view()], out: Seq::<Seq<char>>::empty() }
}

/// The fuel that the fuel-less entry points give to evaluation.
pub const DEFAULT_FUEL: u64 = 10000;

/// A stateful evaluator: the frame store, the current frame, and the
/// lines printed so far. Frames are never removed; the current frame is
/// saved and restored around every call, on error paths too.
pub struct Evaluator {
    frames: Vec<Frame>,
    current: usize,
    output: Vec<String>,
}

impl Evaluator {
    /// The view of the mutable state.
    pub closed spec fn stv(&self) -> StateV {
        StateV {
            frames: store_view(self.frames@),
            out: self.output@.map_values(|s: String| s@),
        }
    }

    /// The index of the current frame.
    pub closed spec fn cur(&self) -> int {
        self.current as int
    }

    /// The current frame lies inside the store.
    pub closed spec fn wf(&self) -> bool {
        (self.current as int) < self.frames@.len()
    }

    /// A fresh evaluator over the base frame.
    pub fn new() -> (r: Evaluator)
        ensures
            r.wf(),
            r.cur() == 0,
            r.stv() == initial_state(),
    {
        let mut frames: Vec<Frame> = Vec::new();
        frames.push(build_base_frame());
        let output: Vec<String> = Vec::new();
        let r = Evaluator { frames, current: 0, output };
        proof {
            assert(store_view(r.frames@) =~= seq![base_frame_view()]);
            assert(r.output@.map_values(|s: String| s@) =~= Seq::<Seq<char>>::empty());
            assert(r.stv() =~= initial_state());
        }
        r
    }

    /// Evaluates one expression in the current frame, with the given
    /// fuel. Returns exactly what `eval_spec` says; the current frame is
    /// the same afterwards, and the frame store has only grown.
    pub fn expression(&mut self, e: &Expression, fuel: u64) -> (r: Result<Expression, EvalError>)
        requires
            old(self).wf(),
        ensures
            final(self).wf(),
            final(self).cur() == old(self).cur(),
            final(self).stv().frames.len() >= old(self).stv().frames.len(),
            match r {
                Ok(v) => eval_spec(old(self).stv(), old(self).cur(), e@, fuel as nat)
                    == Outcome::Done(final(self).stv(), v@),
                Err(er) => eval_spec(old(self).stv(), old(self).cur(), e@, fuel as nat)
                    == Outcome::Fail(final(self).stv(), er@),
            },
        decreases fuel, 3int,
    {
        if fuel == 0 {
            return Err(EvalError::RecursionLimit);
        }
        match e {
            Expression::List(l) => self.list(l, fuel),
            Expression::Atom(a) => self.atom(a, fuel),
        }
    }

    /// Evaluates an atom: a symbol resolves along the frame chain, every
    /// other atom evaluates to itself.
    pub fn atom(&mut self, atom: &Atom, fuel: u64) -> (r: Result<Expression, EvalError>)
        requires
            old(self).wf(),
        ensures
            final(self).wf(),
            final(self).cur() == old(self).cur(),
            final(self).stv().frames.len() >= old(self).stv().frames.len(),
            match r {
                Ok(v) => eval_spec(old(self).stv(), old(self).cur(), atom.deep(), fuel as nat)
                    == Outcome::Done(final(self).stv(), v@),
                Err(er) => eval_spec(old(self).stv(), old(self).cur(), atom.deep(), fuel as nat)
                    == Outcome::Fail(final(self).stv(), er@),
            },
    {
        if fuel == 0 {
            return Err(EvalError::RecursionLimit);
        }
        proof {
            crate::ast::lemma_atom_deep_constructor(*atom);
        }
        match atom {
            Atom::Symbol(s) => {
                match lookup(&self.frames, self.current, s) {
                    Some(v) => Ok(v),
                    None => Err(EvalError::UndefinedSymbol(*s)),
                }
            },
            _ => Ok(Expression::Atom(atom.clone())),
        }
    }

    /// Evaluates a list: the empty list evaluates to itself; otherwise
    /// the head is evaluated and must denote a callable, which is applied
    /// to the tail.
    pub fn list(&mut self, list: &List, fuel: u64) -> (r: Result<Expression, EvalError>)
        requires
            old(self).wf(),
        ensures
            final(self).wf(),
            final(self).cur() == old(self).cur(),
            final(self).stv().frames.len() >= old(self).stv().frames.len(),
            match r {
                Ok(v) => eval_spec(old(self).stv(), old(self).cur(), ExprV::Lst(list@), fuel as nat)
                    == Outcome::Done(final(self).stv(), v@),
                Err(er) => eval_spec(old(self).stv(), old(self).cur(), ExprV::Lst(list@), fuel as nat)
                    == Outcome::Fail(final(self).stv(), er@),
            },
        decreases fuel, 2int,
    {
        if fuel == 0 {
            return Err(EvalError::RecursionLimit);
        }
        match list {
            List::Nil => {
                proof {
                    assert(list@ =~= Seq::<ExprV>::empty());
                }
                Ok(Expression::List(List::Nil))
            },
            List::Cons(c) => {
                proof {
                    assert(list@[0] == (*c.car)@);
                    assert(list@.drop_first() =~= (*c.cdr)@);
                }
                let head = match self.expression(&c.car, fuel - 1) {
                    Ok(h) => h,
                    Err(er) => {
                        return Err(er);
                    },
                };
                proof {
                    lemma_expr_deep_constructor(head);
                }
                match head {
                    Expression::Atom(Atom::Function(f)) => self.function(&f, &c.cdr, fuel - 1),
                    Expression::Atom(Atom::Macro(m)) => self.macro_(&m, &c.cdr, fuel - 1),
                    Expression::Atom(Atom::Special(s)) => self.special(s, &c.cdr, fuel - 1),
                    Expression::Atom(Atom::Native(n)) => self.native(n, &c.cdr, fuel - 1),
                    _ => Err(EvalError::NotCallable),
                }
            },
        }
    }

    /// Evaluates the argument expressions left to right.
    fn eval_args(&mut self, args: &List, fuel: u64) -> (r: Result<Vec<Expression>, EvalError>)
        requires
            old(self).wf(),
        ensures
            final(self).wf(),
            final(self).cur() == old(self).cur(),
            final(self).stv().frames.len() >= old(self).stv().frames.len(),
            match r {
                Ok(vals) => eval_args_spec(old(self).stv(), old(self).cur(), args@, fuel as nat)
                    == ArgsOutcome::AllDone(final(self).stv(), exprs_view(vals@)),
                Err(er) => eval_args_spec(old(self).stv(), old(self).cur(), args@, fuel as nat)
                    == ArgsOutcome::Fail(final(self).stv(), er@),
            },
        decreases fuel, 1int,
    {
        match args {
            List::Nil => {
                proof {
                    assert(args@ =~= Seq::<ExprV>::empty());
                    assert(exprs_view(Seq::<Expression>::empty()) =~= Seq::<ExprV>::empty());
                }
                Ok(Vec::new())
            },
            List::Cons(c) => {
                proof {
                    assert(args@[0] == (*c.car)@);
                    assert(args@.drop_first() =~= (*c.cdr)@);
                }
                if fuel == 0 {
                    return Err(EvalError::RecursionLimit);
                }
                let v = match self.expression(&c.car, fuel - 1) {
                    Ok(v) => v,
                    Err(er) => {
                        return Err(er);
                    },
                };
                let mut rest = match self.eval_args(&c.cdr, fuel - 1) {
                    Ok(r) => r,
                    Err(er) => {
                        return Err(er);
                    },
                };
                let ghost rest_view = exprs_view(rest@);
                rest.insert(0, v);
                proof {
                    assert(exprs_view(rest@) =~= seq![v@] + rest_view);
                }
                Ok(rest)
            },
        }
    }

    /// Calls a closure: arguments are evaluated in the current frame,
    /// the body in a fresh frame over the closure's captured frame.
    pub fn function(&mut self, function: &Function, arguments: &List, fuel: u64) -> (r: Result<
        Expression,
        EvalError,
    >)
        requires
            old(self).wf(),
        ensures
            final(self).wf(),
            final(self).cur() == old(self).cur(),
            final(self).stv().frames.len() >= old(self).stv().frames.len(),
            match r {
                Ok(v) => call_fun_spec(
                    old(self).stv(),
                    old(self).cur(),
                    function.deep_fun(),
                    arguments@,
                    fuel as nat,
                ) == Outcome::Done(final(self).stv(), v@),
                Err(er) => call_fun_spec(
                    old(self).stv(),
                    old(self).cur(),
                    function.deep_fun(),
                    arguments@,
                    fuel as nat,
                ) == Outcome::Fail(final(self).stv(), er@),
            },
        decreases fuel, 2int,
    {
        if fuel == 0 {
            return Err(EvalError::RecursionLimit);
        }
        let ghost fv = function.deep_fun();
        let vals = match self.eval_args(arguments, fuel) {
            Ok(v) => v,
            Err(er) => {
                return Err(er);
            },
        };
        let ghost vs = exprs_view(vals@);
        let ghost st1 = self.stv();
        let params = &*function.parameters;
        if vals.len() != params.len() {
            return Err(EvalError::WrongArity);
        }
        let mut fr = Frame::with_parent(function.frame);
        let n = params.len();
        let mut i: usize = 0;
        while i < n
            invariant
                i <= n,
                n == params@.len(),
                n == vals@.len(),
                fv.params == params@.map_values(|s: Symbol| s@),
                vs == exprs_view(vals@),
                fr@.parent == Some(function.frame as int),
                fr@.bindings == bind_params(fv.params.take(i as int), vs.take(i as int)),
            decreases n - i,
        {
            proof {
                assert(fv.params.take(i + 1).drop_last() =~= fv.params.take(i as int));
                assert(vs.take(i + 1).drop_last() =~= vs.take(i as int));
                assert(fv.params.take(i + 1).last() == fv.params[i as int]);
                assert(vs.take(i + 1)[fv.params.take(i + 1).len() - 1] == vs[i as int]);
            }
            fr.set(params[i], vals[i].clone());
            i = i + 1;
        }
        proof {
            assert(fv.params.take(n as int) =~= fv.params);
            assert(vs.take(n as int) =~= vs);
        }
        let body_frame = self.frames.len();
        self.frames.push(fr);
        proof {
            assert(store_view(self.frames@) =~= st1.frames.push(
                FrameV { parent: Some(fv.frame), bindings: bind_params(fv.params, vs) },
            ));
            assert(self.stv() =~= st1.push_frame(
                FrameV { parent: Some(fv.frame), bindings: bind_params(fv.params, vs) },
            ));
        }
        let saved = self.current;
        self.current = body_frame;
        let result = self.expression(&function.body, fuel - 1);
        self.current = saved;
        result
    }

    /// Calls a macro: the whole unevaluated argument list is bound to the
    /// parameter in a fresh child of the current frame, and the body's
    /// result is evaluated back in the current frame.
    pub fn macro_(&mut self, makro: &Macro, arguments: &List, fuel: u64) -> (r: Result<
        Expression,
        EvalError,
    >)
        requires
            old(self).wf(),
        ensures
            final(self).wf(),
            final(self).cur() == old(self).cur(),
            final(self).stv().frames.len() >= old(self).stv().frames.len(),
            match r {
                Ok(v) => call_macro_spec(
                    old(self).stv(),
                    old(self).cur(),
                    makro.deep_mac(),
                    arguments@,
                    fuel as nat,
                ) == Outcome::Done(final(self).stv(), v@),
                Err(er) => call_macro_spec(
                    old(self).stv(),
                    old(self).cur(),
                    makro.deep_mac(),
                    arguments@,
                    fuel as nat,
                ) == Outcome::Fail(final(self).stv(), er@),
            },
        decreases fuel, 2int,
    {
        if fuel == 0 {
            return Err(EvalError::RecursionLimit);
        }
        let ghost st0 = self.stv();
        let mut fr = Frame::with_parent(self.current);
        fr.set(makro.parameter, Expression::List(arguments.clone()));
        let body_frame = self.frames.len();
        self.frames.push(fr);
        proof {
            let fv = FrameV {
                parent: Some(old(self).cur()),
                bindings: Map::<Seq<char>, ExprV>::empty().insert(
                    makro.deep_mac().param,
                    ExprV::Lst(arguments@),
                ),
            };
            assert(store_view(self.frames@) =~= st0.frames.push(fv));
            assert(self.stv() =~= st0.push_frame(fv));
        }
        let saved = self.current;
        self.current = body_frame;
        let expansion = self.expression(&makro.body, fuel - 1);
        self.current = saved;
        let expansion = match expansion {
            Ok(x) => x,
            Err(er) => {
                return Err(er);
            },
        };
        self.expression(&expansion, fuel - 1)
    }

    /// Applies a special form to its unevaluated arguments.
    pub fn special(&mut self, special: Special, arguments: &List, fuel: u64) -> (r: Result<
        Expression,
        EvalError,
    >)
        requires
            old(self).wf(),
        ensures
            final(self).wf(),
            final(self).cur() == old(self).cur(),
            final(self).stv().frames.len() >= old(self).stv().frames.len(),
            match r {
                Ok(v) => special_spec(old(self).stv(), old(self).cur(), special, arguments@, fuel as nat)
                    == Outcome::Done(final(self).stv(), v@),
                Err(er) => special_spec(old(self).stv(), old(self).cur(), special, arguments@, fuel as nat)
                    == Outcome::Fail(final(self).stv(), er@),
            },
        decreases fuel, 2int,
    {
        match special {
            Special::Do => {
                match arguments {
                    List::Nil => {
                        assert(arguments@.len() == 0);
                        Err(EvalError::WrongArity)
                    },
                    List::Cons(_) => {
                        assert(arguments@.len() > 0);
                        self.special_do(arguments, fuel)
                    },
                }
            },
            Special::Define => self.special_define(arguments, fuel),
            Special::Function => self.special_function(arguments),
            Special::Macro => self.special_macro(arguments),
            Special::If => self.special_if(arguments, fuel),
            Special::Quote => {
                match arguments.car() {
                    Some(e) => Ok(e.clone()),
                    None => Err(EvalError::WrongArity),
                }
            },
            Special::Operator(op) => self.operator(op, arguments, fuel),
        }
    }

    /// `do`: evaluates each form in order and returns the last value.
    pub fn special_do(&mut self, arguments: &List, fuel: u64) -> (r: Result<Expression, EvalError>)
        requires
            old(self).wf(),
            arguments@.len() > 0,
        ensures
            final(self).wf(),
            final(self).cur() == old(self).cur(),
            final(self).stv().frames.len() >= old(self).stv().frames.len(),
            match r {
                Ok(v) => do_spec(old(self).stv(), old(self).cur(), arguments@, fuel as nat)
                    == Outcome::Done(final(self).stv(), v@),
                Err(er) => do_spec(old(self).stv(), old(self).cur(), arguments@, fuel as nat)
                    == Outcome::Fail(final(self).stv(), er@),
            },
        decreases fuel, 1int,
    {
        if fuel == 0 {
            return Err(EvalError::RecursionLimit);
        }
        match arguments {
            List::Nil => {
                assert(false);
                Err(EvalError::WrongArity)
            },
            List::Cons(c) => {
                proof {
                    assert(arguments@[0] == (*c.car)@);
                    assert(arguments@.drop_first() =~= (*c.cdr)@);
                }
                let v = match self.expression(&c.car, fuel - 1) {
                    Ok(v) => v,
                    Err(er) => {
                        return Err(er);
                    },
                };
                match &*c.cdr {
                    List::Nil => {
                        assert(arguments@.len() == 1);
                        Ok(v)
                    },
                    _ => {
                        assert(arguments@.len() >= 2);
                        self.special_do(&c.cdr, fuel - 1)
                    },
                }
            },
        }
    }

    /// `define`: evaluates the value, then binds the symbol in the
    /// current frame and returns the value. Nothing is bound if the value
    /// expression fails.
    pub fn special_define(&mut self, arguments: &List, fuel: u64) -> (r: Result<
        Expression,
        EvalError,
    >)
        requires
            old(self).wf(),
        ensures
            final(self).wf(),
            final(self).cur() == old(self).cur(),
            final(self).stv().frames.len() >= old(self).stv().frames.len(),
            match r {
                Ok(v) => define_spec(old(self).stv(), old(self).cur(), arguments@, fuel as nat)
                    == Outcome::Done(final(self).stv(), v@),
                Err(er) => define_spec(old(self).stv(), old(self).cur(), arguments@, fuel as nat)
                    == Outcome::Fail(final(self).stv(), er@),
            },
        decreases fuel, 1int,
    {
        if fuel == 0 {
            return Err(EvalError::RecursionLimit);
        }
        let name = match arguments.car() {
            None => {
                return Err(EvalError::WrongArity);
            },
            Some(e) => {
                proof {
                    lemma_expr_deep_constructor(*e);
                }
                match e {
                    Expression::Atom(Atom::Symbol(s)) => *s,
                    _ => {
                        return Err(EvalError::InvalidType);
                    },
                }
            },
        };
        let value_expr = match arguments.get(1) {
            None => {
                return Err(EvalError::WrongArity);
            },
            Some(e) => e,
        };
        let v = match self.expression(value_expr, fuel - 1) {
            Ok(v) => v,
            Err(er) => {
                return Err(er);
            },
        };
        let ghost st1 = self.stv();
        let cur = self.current;
        let mut tmp = Frame::new();
        self.frames.set_and_swap(cur, &mut tmp);
        tmp.set(name, v.clone());
        self.frames.set_and_swap(cur, &mut tmp);
        proof {
            assert(store_view(self.frames@) =~= st1.frames.update(
                cur as int,
                FrameV {
                    parent: st1.frames[cur as int].parent,
                    bindings: st1.frames[cur as int].bindings.insert(name@, v@),
                },
            ));
            assert(self.stv() =~= st1.set_binding(cur as int, name@, v@));
        }
        Ok(v)
    }

    /// `function`: builds a closure capturing the current frame.
    pub fn special_function(&mut self, arguments: &List) -> (r: Result<Expression, EvalError>)
        requires
            old(self).wf(),
        ensures
            final(self).wf(),
            final(self).cur() == old(self).cur(),
            final(self).stv() == old(self).stv(),
            match r {
                Ok(v) => function_form_spec(old(self).stv(), old(self).cur(), arguments@)
                    == Outcome::Done(final(self).stv(), v@),
                Err(er) => function_form_spec(old(self).stv(), old(self).cur(), arguments@)
                    == Outcome::Fail(final(self).stv(), er@),
            },
    {
        let params_list = match arguments.car() {
            None => {
                return Err(EvalError::WrongArity);
            },
            Some(e) => {
                proof {
                    lemma_expr_deep_constructor(*e);
                }
                match e {
                    Expression::List(l) => l,
                    _ => {
                        return Err(EvalError::InvalidType);
                    },
                }
            },
        };
        let params = match Self::collect_params(params_list) {
            Ok(p) => p,
            Err(er) => {
                return Err(er);
            },
        };
        let body = match arguments.get(1) {
            None => {
                return Err(EvalError::WrongArity);
            },
            Some(e) => e.clone(),
        };
        let f = Function {
            frame: self.current,
            parameters: Rc::new(params),
            body: Rc::new(body),
        };
        proof {
            assert(f.deep_fun() =~= FunV {
                frame: old(self).cur(),
                params: params_of(params_list@).unwrap(),
                body: Box::new(arguments@[1]),
            });
        }
        Ok(Expression::Atom(Atom::Function(f)))
    }

    /// The parameter symbols of a `function` form; fails if any element
    /// of the list is not a symbol.
    fn collect_params(l: &List) -> (r: Result<Vec<Symbol>, EvalError>)
        ensures
            match r {
                Ok(v) => params_of(l@) == Some(v@.map_values(|s: Symbol| s@)),
                Err(er) => params_of(l@) is None && er@ == ErrV::InvalidType,
            },
        decreases l,
    {
        match l {
            List::Nil => {
                proof {
                    assert(l@ =~= Seq::<ExprV>::empty());
                    assert(Seq::<Symbol>::empty().map_values(|s: Symbol| s@) =~= Seq::<
                        Seq<char>,
                    >::empty());
                }
                Ok(Vec::new())
            },
            List::Cons(c) => {
                proof {
                    assert(l@[0] == (*c.car)@);
                    assert(l@.drop_first() =~= (*c.cdr)@);
                }
                match &*c.car {
                    Expression::Atom(Atom::Symbol(s)) => {
                        let mut rest = match Self::collect_params(&c.cdr) {
                            Ok(v) => v,
                            Err(er) => {
                                return Err(er);
                            },
                        };
                        let ghost rest_view = rest@.map_values(|s: Symbol| s@);
                        rest.insert(0, *s);
                        proof {
                            assert(rest@.map_values(|s: Symbol| s@) =~= seq![s@] + rest_view);
                        }
                        Ok(rest)
                    },
                    other => {
                        proof {
                            lemma_expr_deep_constructor(*other);
                        }
                        Err(EvalError::InvalidType)
                    },
                }
            },
        }
    }

    /// `macro`: builds a macro from one parameter symbol and a body.
    pub fn special_macro(&mut self, arguments: &List) -> (r: Result<Expression, EvalError>)
        requires
            old(self).wf(),
        ensures
            final(self).wf(),
            final(self).cur() == old(self).cur(),
            final(self).stv() == old(self).stv(),
            match r {
                Ok(v) => macro_form_spec(old(self).stv(), arguments@) == Outcome::Done(
                    final(self).stv(),
                    v@,
                ),
                Err(er) => macro_form_spec(old(self).stv(), arguments@) == Outcome::Fail(
                    final(self).stv(),
                    er@,
                ),
            },
    {
        let param = match arguments.car() {
            None => {
                return Err(EvalError::WrongArity);
            },
            Some(e) => {
                proof {
                    lemma_expr_deep_constructor(*e);
                }
                match e {
                    Expression::Atom(Atom::Symbol(s)) => *s,
                    Expression::List(List::Cons(c)) => {
                        proof {
                            assert(e@ matches ExprV::Lst(elems) && elems[0] == (*c.car)@
                                && elems.drop_first() =~= (*c.cdr)@);
                        }
                        match &*c.car {
                            Expression::Atom(Atom::Symbol(s)) => {
                                match &*c.cdr {
                                    List::Nil => *s,
                                    List::Cons(_) => {
                                        proof {
                                            assert((*c.cdr)@.len() > 0);
                                        }
                                        return Err(EvalError::InvalidType);
                                    },
                                }
                            },
                            other => {
                                proof {
                                    lemma_expr_deep_constructor(*other);
                                }
                                return Err(EvalError::InvalidType);
                            },
                        }
                    },
                    _ => {
                        return Err(EvalError::InvalidType);
                    },
                }
            },
        };
        let body = match arguments.get(1) {
            None => {
                return Err(EvalError::WrongArity);
            },
            Some(e) => e.clone(),
        };
        let m = Macro { parameter: param, body: Rc::new(body) };
        proof {
            assert(m.deep_mac() =~= MacV { param: param@, body: Box::new(arguments@[1]) });
        }
        Ok(Expression::Atom(Atom::Macro(m)))
    }

    /// `if`: evaluates the condition, then exactly one branch.
    pub fn special_if(&mut self, arguments: &List, fuel: u64) -> (r: Result<Expression, EvalError>)
        requires
            old(self).wf(),
        ensures
            final(self).wf(),
            final(self).cur() == old(self).cur(),
            final(self).stv().frames.len() >= old(self).stv().frames.len(),
            match r {
                Ok(v) => if_spec(old(self).stv(), old(self).cur(), arguments@, fuel as nat)
                    == Outcome::Done(final(self).stv(), v@),
                Err(er) => if_spec(old(self).stv(), old(self).cur(), arguments@, fuel as nat)
                    == Outcome::Fail(final(self).stv(), er@),
            },
        decreases fuel, 1int,
    {
        if fuel == 0 {
            return Err(EvalError::RecursionLimit);
        }
        let cond_expr = match arguments.car() {
            None => {
                return Err(EvalError::WrongArity);
            },
            Some(e) => e,
        };
        let c = match self.expression(cond_expr, fuel - 1) {
            Ok(v) => v,
            Err(er) => {
                return Err(er);
            },
        };
        if c.is_truthy() {
            match arguments.get(1) {
                None => Err(EvalError::WrongArity),
                Some(e) => self.expression(e, fuel - 1),
            }
        } else {
            match arguments.get(2) {
                None => Err(EvalError::WrongArity),
                Some(e) => self.expression(e, fuel - 1),
            }
        }
    }

    /// A binary operator form: evaluates both operands left to right,
    /// then applies the operator.
    pub fn operator(&mut self, op: Operator, arguments: &List, fuel: u64) -> (r: Result<
        Expression,
        EvalError,
    >)
        requires
            old(self).wf(),
        ensures
            final(self).wf(),
            final(self).cur() == old(self).cur(),
            final(self).stv().frames.len() >= old(self).stv().frames.len(),
            match r {
                Ok(v) => op_spec(old(self).stv(), old(self).cur(), op, arguments@, fuel as nat)
                    == Outcome::Done(final(self).stv(), v@),
                Err(er) => op_spec(old(self).stv(), old(self).cur(), op, arguments@, fuel as nat)
                    == Outcome::Fail(final(self).stv(), er@),
            },
        decreases fuel, 1int,
    {
        if fuel == 0 {
            return Err(EvalError::RecursionLimit);
        }
        let first = match arguments.get(0) {
            None => {
                return Err(EvalError::WrongArity);
            },
            Some(e) => e,
        };
        let second = match arguments.get(1) {
            None => {
                return Err(EvalError::WrongArity);
            },
            Some(e) => e,
        };
        let a = match self.expression(first, fuel - 1) {
            Ok(v) => v,
            Err(er) => {
                return Err(er);
            },
        };
        let b = match self.expression(second, fuel - 1) {
            Ok(v) => v,
            Err(er) => {
                return Err(er);
            },
        };
        apply_op(op, &a, &b)
    }

    /// Calls a native function: arguments are evaluated in the current
    /// frame, then the native is applied to the values.
    pub fn native(&mut self, native: Native, arguments: &List, fuel: u64) -> (r: Result<
        Expression,
        EvalError,
    >)
        requires
            old(self).wf(),
        ensures
            final(self).wf(),
            final(self).cur() == old(self).cur(),
            final(self).stv().frames.len() >= old(self).stv().frames.len(),
            match r {
                Ok(v) => call_native_spec(old(self).stv(), old(self).cur(), native, arguments@, fuel as nat)
                    == Outcome::Done(final(self).stv(), v@),
                Err(er) => call_native_spec(old(self).stv(), old(self).cur(), native, arguments@, fuel as nat)
                    == Outcome::Fail(final(self).stv(), er@),
            },
        decreases fuel, 2int,
    {
        let vals = match self.eval_args(arguments, fuel) {
            Ok(v) => v,
            Err(er) => {
                return Err(er);
            },
        };
        self.apply_native(native, &vals)
    }

    /// Applies a native function to already-evaluated values.
    fn apply_native(&mut self, native: Native, vals: &Vec<Expression>) -> (r: Result<
        Expression,
        EvalError,
    >)
        requires
            old(self).wf(),
        ensures
            final(self).wf(),
            final(self).cur() == old(self).cur(),
            final(self).stv().frames == old(self).stv().frames,
            match r {
                Ok(v) => apply_native_spec(old(self).stv(), native, exprs_view(vals@))
                    == Outcome::Done(final(self).stv(), v@),
                Err(er) => apply_native_spec(old(self).stv(), native, exprs_view(vals@))
                    == Outcome::Fail(final(self).stv(), er@),
            },
    {
        let ghost vs = exprs_view(vals@);
        match native {
            Native::Cons => {
                if vals.len() != 2 {
                    return Err(EvalError::WrongArity);
                }
                proof {
                    lemma_expr_deep_constructor(vals@[1]);
                }
                match &vals[1] {
                    Expression::List(l) => {
                        let r = List::cons(vals[0].clone(), l.clone());
                        proof {
                            assert(vs[1] == ExprV::Lst(l@));
                            assert(vs[0] == vals@[0]@);
                        }
                        Ok(Expression::List(r))
                    },
                    _ => Err(EvalError::InvalidType),
                }
            },
            _ => {
                if vals.len() != 1 {
                    return Err(EvalError::WrongArity);
                }
                let v = &vals[0];
                proof {
                    lemma_expr_deep_constructor(vals@[0]);
                }
                match native {
                    Native::Head => {
                        match v {
                            Expression::List(l) => {
                                match l.car() {
                                    Some(e) => Ok(e.clone()),
                                    None => Err(EvalError::InvalidType),
                                }
                            },
                            _ => Err(EvalError::InvalidType),
                        }
                    },
                    Native::Tail => {
                        match v {
                            Expression::List(l) => {
                                match l.cdr() {
                                    Some(t) => Ok(Expression::List(t.clone())),
                                    None => Err(EvalError::InvalidType),
                                }
                            },
                            _ => Err(EvalError::InvalidType),
                        }
                    },
                    Native::Print => {
                        let ghost st0 = self.stv();
                        let line = display_string(v);
                        self.output.push(line);
                        proof {
                            assert(self.output@.map_values(|s: String| s@) =~= st0.out.push(
                                display_of(vs[0]),
                            ));
                            assert(self.stv() =~= st0.print(display_of(vs[0])));
                        }
                        Ok(v.clone())
                    },
                    Native::IsNumber => {
                        match v {
                            Expression::Atom(Atom::Number(_)) => Ok(truth_expr()),
                            _ => Ok(nil_expr()),
                        }
                    },
                    Native::IsString => {
                        match v {
                            Expression::Atom(Atom::Str(_)) => Ok(truth_expr()),
                            _ => Ok(nil_expr()),
                        }
                    },
                    Native::IsSymbol => {
                        match v {
                            Expression::Atom(Atom::Symbol(_)) => Ok(truth_expr()),
                            _ => Ok(nil_expr()),
                        }
                    },
                    Native::IsFunction => {
                        match v {
                            Expression::Atom(Atom::Function(_)) => Ok(truth_expr()),
                            _ => Ok(nil_expr()),
                        }
                    },
                    Native::IsSpecial => {
                        match v {
                            Expression::Atom(Atom::Special(_)) => Ok(truth_expr()),
                            _ => Ok(nil_expr()),
                        }
                    },
                    Native::IsNative => {
                        match v {
                            Expression::Atom(Atom::Native(_)) => Ok(truth_expr()),
                            _ => Ok(nil_expr()),
                        }
                    },
                    Native::Cons => {
                        assert(false);
                        Err(EvalError::WrongArity)
                    },
                }
            },
        }
    }

    /// Evaluates one expression with the default fuel, keeping the
    /// evaluator's accumulated definitions.
    pub fn eval(&mut self, e: &Expression) -> (r: Result<Expression, EvalError>)
        requires
            old(self).wf(),
        ensures
            final(self).wf(),
            final(self).cur() == old(self).cur(),
            match r {
                Ok(v) => eval_spec(old(self).stv(), old(self).cur(), e@, DEFAULT_FUEL as nat)
                    == Outcome::Done(final(self).stv(), v@),
                Err(er) => eval_spec(old(self).stv(), old(self).cur(), e@, DEFAULT_FUEL as nat)
                    == Outcome::Fail(final(self).stv(), er@),
            },
    {
        self.expression(e, DEFAULT_FUEL)
    }

    /// The lines printed so far, oldest first.
    pub fn output_line(&self, i: usize) -> (r: Option<&String>)
        ensures
            match r {
                Some(s) => i < self.stv().out.len() && s@ == self.stv().out[i as int],
                None => i >= self.stv().out.len(),
            },
    {
        if i < self.output.len() {
            Some(&self.output[i])
        } else {
            None
        }
    }

    /// How many lines have been printed so far.
    pub fn output_len(&self) -> (n: usize)
        ensures
            n == self.stv().out.len(),
    {
        self.output.len()
    }
}

/// The truth symbol as an expression.
fn truth_expr() -> (r: Expression)
    ensures
        r@ == truth_v(),
{
    Expression::Atom(Atom::Symbol(Symbol::new("true")))
}

/// The empty list as an expression.
fn nil_expr() -> (r: Expression)
    ensures
        r@ == nil_v(),
{
    let r = Expression::List(List::Nil);
    proof {
        assert(List::Nil@ =~= Seq::<ExprV>::empty());
    }
    r
}

/// The number held by an expression, if it is one.
fn as_number(e: &Expression) -> (r: Option<i64>)
    ensures
        match r {
            Some(n) => e@ == ExprV::Num(n),
            None => !(e@ is Num),
        },
{
    proof {
        lemma_expr_deep_constructor(*e);
    }
    match e {
        Expression::Atom(Atom::Number(n)) => Some(*n),
        _ => None,
    }
}

/// Applies a binary operator to two evaluated values.
fn apply_op(op: Operator, a: &Expression, b: &Expression) -> (r: Result<Expression, EvalError>)
    ensures
        match r {
            Ok(v) => op_result(op, a@, b@) == Ok::<ExprV, ErrV>(v@),
            Err(er) => op_result(op, a@, b@) == Err::<ExprV, ErrV>(er@),
        },
{
    match op {
        Operator::Eq => {
            if expr_eq(a, b) {
                Ok(truth_expr())
            } else {
                Ok(nil_expr())
            }
        },
        _ => {
            let x = match as_number(a) {
                Some(x) => x,
                None => {
                    return Err(EvalError::InvalidType);
                },
            };
            let y = match as_number(b) {
                Some(y) => y,
                None => {
                    return Err(EvalError::InvalidType);
                },
            };
            match op {
                Operator::Add => Ok(Expression::Atom(Atom::Number(x.wrapping_add(y)))),
                Operator::Sub => Ok(Expression::Atom(Atom::Number(x.wrapping_sub(y)))),
                Operator::Mul => Ok(Expression::Atom(Atom::Number(x.wrapping_mul(y)))),
                Operator::Div => {
                    if y == 0 {
                        Err(EvalError::DivisionByZero)
                    } else {
                        match x.checked_div(y) {
                            Some(q) => Ok(Expression::Atom(Atom::Number(q))),
                            None => Ok(Expression::Atom(Atom::Number(i64::MIN))),
                        }
                    }
                },
                Operator::Mod => {
                    if y == 0 {
                        Err(EvalError::DivisionByZero)
                    } else {
                        match x.checked_rem(y) {
                            Some(m) => Ok(Expression::Atom(Atom::Number(m))),
                            None => Ok(Expression::Atom(Atom::Number(0))),
                        }
                    }
                },
                Operator::Lt => {
                    if x < y {
                        Ok(truth_expr())
                    } else {
                        Ok(nil_expr())
                    }
                },
                Operator::Gt => {
                    if x > y {
                        Ok(truth_expr())
                    } else {
                        Ok(nil_expr())
                    }
                },
                Operator::Eq => {
                    assert(false);
                    Err(EvalError::InvalidType)
                },
            }
        },
    }
}

/// One-shot evaluation of an expression against a fresh base frame, with
/// the default fuel.
pub fn eval(expr: Expression) -> (r: Result<Expression, EvalError>)
    ensures
        match r {
            Ok(v) => eval_spec(initial_state(), 0, expr@, DEFAULT_FUEL as nat) matches
                Outcome::Done(_, vv) && v@ == vv,
            Err(er) => eval_spec(initial_state(), 0, expr@, DEFAULT_FUEL as nat) matches
                Outcome::Fail(_, ev) && er@ == ev,
        },
{
    let mut evaluator = Evaluator::new();
    evaluator.eval(&expr)
}

} // verus!
