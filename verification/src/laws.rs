//! Laws of evaluation, stated over the specification interpreter and
//! proved once and for all.

use vstd::prelude::*;
use crate::ast::{ExprV, FunV};
use crate::env::{lookup_spec, on_chain, FrameV};
use crate::eval::{
    bind_params, call_fun_spec, eval_args_spec, eval_spec, if_spec, nil_v, op_result, op_spec,
    special_spec, truth_v, truthy_v, ArgsOutcome, ErrV, Outcome, StateV,
};
use crate::ast::{Operator, Special};

verus! {

/// Every expression that is neither a symbol nor a non-empty list
/// evaluates to itself, leaving the state untouched.
pub proof fn lemma_self_evaluating(st: StateV, cur: int, e: ExprV, fuel: nat)
    requires
        fuel > 0,
        !(e is Sym),
        e matches ExprV::Lst(elems) ==> elems.len() == 0,
    ensures
        eval_spec(st, cur, e, fuel) == Outcome::Done(st, e),
{
}

/// Quoting is the identity: `(quote E)` evaluates to `E` itself, for
/// every atom and every list, leaving the state untouched.
pub proof fn lemma_quote(st: StateV, cur: int, e: ExprV, fuel: nat)
    requires
        fuel >= 2,
    ensures
        eval_spec(st, cur, ExprV::Lst(seq![ExprV::Special(Special::Quote), e]), fuel)
            == Outcome::Done(st, e),
{
    let elems = seq![ExprV::Special(Special::Quote), e];
    assert(eval_spec(st, cur, elems[0], (fuel - 1) as nat) == Outcome::Done(st, elems[0]));
    assert(elems.drop_first() =~= seq![e]);
    assert(eval_spec(st, cur, ExprV::Lst(elems), fuel) == special_spec(
        st,
        cur,
        Special::Quote,
        elems.drop_first(),
        (fuel - 1) as nat,
    ));
    assert(special_spec(st, cur, Special::Quote, elems.drop_first(), (fuel - 1) as nat)
        == Outcome::Done(st, e));
}

/// Growing the frame store does not change what any existing frame
/// resolves: lookups walk parent chains, and those only reach earlier
/// frames.
pub proof fn lemma_lookup_push(frames: Seq<FrameV>, f: FrameV, idx: int, name: Seq<char>)
    requires
        0 <= idx < frames.len(),
    ensures
        lookup_spec(frames.push(f), idx, name) == lookup_spec(frames, idx, name),
    decreases idx,
{
    assert(frames.push(f)[idx] == frames[idx]);
    if !frames[idx].bindings.contains_key(name) {
        match frames[idx].parent {
            Some(p) => {
                if 0 <= p < idx {
                    lemma_lookup_push(frames, f, p, name);
                }
            },
            None => {},
        }
    }
}

/// Calling a closure evaluates its body in a fresh frame that binds the
/// parameters to the argument values and whose parent is the frame the
/// closure captured — not the frame of the call.
pub proof fn lemma_closure_call(
    st: StateV,
    cur: int,
    f: FunV,
    args: Seq<ExprV>,
    st1: StateV,
    vals: Seq<ExprV>,
    fuel: nat,
)
    requires
        fuel >= 2,
        eval_args_spec(st, cur, args, (fuel - 1) as nat) == ArgsOutcome::AllDone(st1, vals),
        vals.len() == f.params.len(),
    ensures
        ({
            let body_frame = st1.frames.len() as int;
            let st2 = st1.push_frame(
                FrameV { parent: Some(f.frame), bindings: bind_params(f.params, vals) },
            );
            eval_spec(st, cur, ExprV::Lst(seq![ExprV::Fun(f)] + args), fuel) == eval_spec(
                st2,
                body_frame,
                *f.body,
                (fuel - 2) as nat,
            )
        }),
{
    let elems = seq![ExprV::Fun(f)] + args;
    assert(elems[0] == ExprV::Fun(f));
    assert(eval_spec(st, cur, elems[0], (fuel - 1) as nat) == Outcome::Done(st, elems[0]));
    assert(elems.drop_first() =~= args);
    assert(eval_spec(st, cur, ExprV::Lst(elems), fuel) == call_fun_spec(
        st,
        cur,
        f,
        args,
        (fuel - 1) as nat,
    ));
}

/// In the frame a closure call creates, a name resolves to its parameter
/// binding if it is a parameter, and otherwise exactly as it did in the
/// closure's captured environment — whatever has been bound elsewhere
/// since the closure was created.
pub proof fn lemma_closure_env(st1: StateV, f: FunV, vals: Seq<ExprV>, name: Seq<char>)
    requires
        0 <= f.frame < st1.frames.len(),
    ensures
        ({
            let body_frame = st1.frames.len() as int;
            let st2 = st1.push_frame(
                FrameV { parent: Some(f.frame), bindings: bind_params(f.params, vals) },
            );
            lookup_spec(st2.frames, body_frame, name) == if bind_params(
                f.params,
                vals,
            ).contains_key(name) {
                Some(bind_params(f.params, vals)[name])
            } else {
                lookup_spec(st1.frames, f.frame, name)
            }
        }),
{
    let body_frame = st1.frames.len() as int;
    let fr = FrameV { parent: Some(f.frame), bindings: bind_params(f.params, vals) };
    let st2 = st1.push_frame(fr);
    assert(st2.frames[body_frame] == fr);
    if !fr.bindings.contains_key(name) {
        lemma_lookup_push(st1.frames, fr, f.frame, name);
    }
}

/// A lookup consults only the frames on its own parent chain: replacing
/// any frame off that chain — bindings and all — changes nothing.
pub proof fn lemma_lookup_off_chain(
    frames: Seq<FrameV>,
    idx: int,
    j: int,
    f2: FrameV,
    name: Seq<char>,
)
    requires
        0 <= j < frames.len(),
        !on_chain(frames, idx, j),
    ensures
        lookup_spec(frames.update(j, f2), idx, name) == lookup_spec(frames, idx, name),
    decreases (if idx >= 0 { idx + 1 } else { 0 }),
{
    if 0 <= idx < frames.len() {
        assert(frames.update(j, f2)[idx] == frames[idx]);
        if !frames[idx].bindings.contains_key(name) {
            match frames[idx].parent {
                Some(p) => {
                    if 0 <= p < idx {
                        lemma_lookup_off_chain(frames, p, j, f2, name);
                    }
                },
                None => {},
            }
        }
    }
}

/// Scope is lexical, not dynamic: binding a name in any frame off a
/// closure's captured chain — the caller's frame among them — changes
/// nothing about what the closure's free variables resolve to.
pub proof fn lemma_rebinding_elsewhere_invisible(
    st: StateV,
    j: int,
    bound: Seq<char>,
    v: ExprV,
    idx: int,
    name: Seq<char>,
)
    requires
        0 <= j < st.frames.len(),
        !on_chain(st.frames, idx, j),
    ensures
        lookup_spec(st.set_binding(j, bound, v).frames, idx, name) == lookup_spec(
            st.frames,
            idx,
            name,
        ),
{
    lemma_lookup_off_chain(
        st.frames,
        idx,
        j,
        FrameV { parent: st.frames[j].parent, bindings: st.frames[j].bindings.insert(bound, v) },
        name,
    );
}

/// `if` evaluates the condition and then exactly one branch: the value of
/// the whole form is the value of the selected branch alone.
pub proof fn lemma_if_selects(
    st: StateV,
    cur: int,
    c: ExprV,
    a: ExprV,
    b: ExprV,
    st1: StateV,
    cv: ExprV,
    fuel: nat,
)
    requires
        fuel > 0,
        eval_spec(st, cur, c, (fuel - 1) as nat) == Outcome::Done(st1, cv),
    ensures
        if_spec(st, cur, seq![c, a, b], fuel) == if truthy_v(cv) {
            eval_spec(st1, cur, a, (fuel - 1) as nat)
        } else {
            eval_spec(st1, cur, b, (fuel - 1) as nat)
        },
{
    let args = seq![c, a, b];
    assert(args[0] == c && args[1] == a && args[2] == b);
}

/// The branch `if` does not select is not evaluated: the outcome does not
/// depend on it in any way.
pub proof fn lemma_if_ignores_unselected(
    st: StateV,
    cur: int,
    c: ExprV,
    a: ExprV,
    b: ExprV,
    a2: ExprV,
    b2: ExprV,
    fuel: nat,
)
    requires
        fuel > 0,
    ensures
        match eval_spec(st, cur, c, (fuel - 1) as nat) {
            Outcome::Done(_, cv) => (truthy_v(cv) ==> if_spec(st, cur, seq![c, a, b], fuel)
                == if_spec(st, cur, seq![c, a, b2], fuel)) && (!truthy_v(cv) ==> if_spec(
                st,
                cur,
                seq![c, a, b],
                fuel,
            ) == if_spec(st, cur, seq![c, a2, b], fuel)),
            Outcome::Fail(_, _) => true,
        },
{
    let args = seq![c, a, b];
    let args_b2 = seq![c, a, b2];
    let args_a2 = seq![c, a2, b];
    assert(args[0] == c && args[1] == a && args[2] == b);
    assert(args_b2[0] == c && args_b2[1] == a && args_b2[2] == b2);
    assert(args_a2[0] == c && args_a2[1] == a2 && args_a2[2] == b);
}

/// Evaluation is deterministic: the outcome is a mathematical function of
/// the initial state, the current frame, the expression and the fuel, and
/// the evaluator is proved to return exactly that outcome; two
/// evaluations of the same expression from the same state agree.
pub proof fn lemma_eval_deterministic(
    st: StateV,
    cur: int,
    e: ExprV,
    fuel: nat,
    o1: Outcome,
    o2: Outcome,
)
    requires
        o1 == eval_spec(st, cur, e, fuel),
        o2 == eval_spec(st, cur, e, fuel),
    ensures
        o1 == o2,
{
}

/// Symbol equality is structural equality of the interned names: it is
/// reflexive and transitive, and `=` on two equal symbols is the truth
/// symbol.
pub proof fn lemma_symbol_equality(a: Seq<char>, b: Seq<char>, c: Seq<char>)
    ensures
        op_result(Operator::Eq, ExprV::Sym(a), ExprV::Sym(a)) == Ok::<ExprV, ErrV>(truth_v()),
        op_result(Operator::Eq, ExprV::Sym(a), ExprV::Sym(b)) == Ok::<ExprV, ErrV>(truth_v())
            && op_result(Operator::Eq, ExprV::Sym(b), ExprV::Sym(c)) == Ok::<ExprV, ErrV>(truth_v())
            ==> op_result(Operator::Eq, ExprV::Sym(a), ExprV::Sym(c)) == Ok::<ExprV, ErrV>(
            truth_v(),
        ),
{
    assert(truth_v() != nil_v());
}

/// `(= 'foo 'foo)` is the truth symbol: quoting the same name twice and
/// comparing yields `true`, in every state and every frame.
pub proof fn lemma_quoted_symbol_self_equal(st: StateV, cur: int, name: Seq<char>, fuel: nat)
    requires
        fuel >= 4,
    ensures
        ({
            let quoted = ExprV::Lst(seq![ExprV::Special(Special::Quote), ExprV::Sym(name)]);
            eval_spec(
                st,
                cur,
                ExprV::Lst(seq![ExprV::Special(Special::Operator(Operator::Eq)), quoted, quoted]),
                fuel,
            ) == Outcome::Done(st, truth_v())
        }),
{
    let quoted = ExprV::Lst(seq![ExprV::Special(Special::Quote), ExprV::Sym(name)]);
    let elems = seq![ExprV::Special(Special::Operator(Operator::Eq)), quoted, quoted];
    assert(eval_spec(st, cur, elems[0], (fuel - 1) as nat) == Outcome::Done(st, elems[0]));
    let args = elems.drop_first();
    assert(args =~= seq![quoted, quoted]);
    assert(eval_spec(st, cur, ExprV::Lst(elems), fuel) == special_spec(
        st,
        cur,
        Special::Operator(Operator::Eq),
        args,
        (fuel - 1) as nat,
    ));
    assert(special_spec(st, cur, Special::Operator(Operator::Eq), args, (fuel - 1) as nat)
        == op_spec(st, cur, Operator::Eq, args, (fuel - 1) as nat));
    lemma_quote(st, cur, ExprV::Sym(name), (fuel - 2) as nat);
    assert(args[0] == quoted && args[1] == quoted);
    assert(eval_spec(st, cur, args[0], (fuel - 2) as nat) == Outcome::Done(st, ExprV::Sym(name)));
    assert(op_result(Operator::Eq, ExprV::Sym(name), ExprV::Sym(name)) == Ok::<ExprV, ErrV>(
        truth_v(),
    ));
}

} // verus!

