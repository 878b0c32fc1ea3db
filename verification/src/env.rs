//! Lexically linked binding frames.
//!
//! Frames live in a store owned by the evaluator (a growing vector); a
//! frame names its parent by index. A frame's bindings are a map from
//! symbol to expression; `set` writes into one frame only, `lookup`
//! walks the parent chain. Because a child is always created after its
//! parent, a parent index is always smaller than the child's own index,
//! and lookup treats any other index as the end of the chain.

use vstd::prelude::*;
use crate::ast::{Expression, ExprV, Symbol};

verus! {

/// The view of one frame: its parent index and its bindings.
#[verifier::ext_equal]
pub struct FrameV {
    pub parent: Option<int>,
    pub bindings: Map<Seq<char>, ExprV>,
}

/// One level of lexical binding. Bindings are kept as an association
/// vector; a later entry for the same name shadows an earlier one, so the
/// view is the map in which the last write wins.
pub struct Frame {
    parent: Option<usize>,
    bindings: Vec<(Symbol, Expression)>,
}

/// The map described by an association sequence: later entries win.
pub open spec fn assoc_view(s: Seq<(Symbol, Expression)>) -> Map<Seq<char>, ExprV>
    decreases s.len(),
{
    if s.len() == 0 {
        Map::<Seq<char>, ExprV>::empty()
    } else {
        assoc_view(s.drop_last()).insert(s.last().0@, s.last().1@)
    }
}

impl View for Frame {
    type V = FrameV;

    closed spec fn view(&self) -> FrameV {
        FrameV {
            parent: match self.parent {
                Some(p) => Some(p as int),
                None => None,
            },
            bindings: assoc_view(self.bindings@),
        }
    }
}

impl Frame {
    /// An empty frame with no parent.
    pub fn new() -> (r: Frame)
        ensures
            r@.parent is None,
            r@.bindings == Map::<Seq<char>, ExprV>::empty(),
    {
        Frame { parent: None, bindings: Vec::new() }
    }

    /// An empty frame whose lookups fall through to `parent`.
    pub fn with_parent(parent: usize) -> (r: Frame)
        ensures
            r@.parent == Some(parent as int),
            r@.bindings == Map::<Seq<char>, ExprV>::empty(),
    {
        Frame { parent: Some(parent), bindings: Vec::new() }
    }

    /// Binds `symbol` to `expr` in this frame alone, shadowing any
    /// earlier binding of the same name here; ancestors are untouched.
    pub fn set(&mut self, symbol: Symbol, expr: Expression)
        ensures
            final(self)@.parent == old(self)@.parent,
            final(self)@.bindings == old(self)@.bindings.insert(symbol@, expr@),
    {
        let ghost old_seq = self.bindings@;
        self.bindings.push((symbol, expr));
        assert(self.bindings@.drop_last() =~= old_seq);
    }

    /// The expression bound to `symbol` in this frame alone; the parent
    /// chain is not consulted.
    pub fn get_local(&self, symbol: &Symbol) -> (r: Option<&Expression>)
        ensures
            match r {
                Some(e) => self@.bindings.contains_key(symbol@) && e@ == self@.bindings[symbol@],
                None => !self@.bindings.contains_key(symbol@),
            },
    {
        let n = self.bindings.len();
        assert(self.bindings@.take(n as int) =~= self.bindings@);
        Self::get_assoc(&self.bindings, n, symbol)
    }

    /// Searches the first `n` entries of `bindings`, newest first.
    fn get_assoc<'a>(bindings: &'a Vec<(Symbol, Expression)>, n: usize, symbol: &Symbol) -> (r:
        Option<&'a Expression>)
        requires
            n <= bindings@.len(),
        ensures
            match r {
                Some(e) => assoc_view(bindings@.take(n as int)).contains_key(symbol@) && e@
                    == assoc_view(bindings@.take(n as int))[symbol@],
                None => !assoc_view(bindings@.take(n as int)).contains_key(symbol@),
            },
        decreases n,
    {
        if n == 0 {
            assert(bindings@.take(0) =~= Seq::<(Symbol, Expression)>::empty());
            None
        } else {
            let ghost taken = bindings@.take(n as int);
            assert(taken.drop_last() =~= bindings@.take(n as int - 1));
            assert(taken.last() == bindings@[n as int - 1]);
            let entry = &bindings[n - 1];
            if entry.0.eq_symbol(symbol) {
                Some(&entry.1)
            } else {
                Self::get_assoc(bindings, n - 1, symbol)
            }
        }
    }

    /// The base frame constructed by the prelude.
    pub fn base() -> (r: Frame)
        ensures
            r@ == crate::prelude::base_frame_view(),
    {
        crate::prelude::build_base_frame()
    }

    /// The parent index, if any.
    pub fn parent_index(&self) -> (r: Option<usize>)
        ensures
            match r {
                Some(p) => self@.parent == Some(p as int),
                None => self@.parent is None,
            },
    {
        self.parent
    }
}

// === The frame store =========================================================

/// The view of a whole frame store.
pub open spec fn store_view(frames: Seq<Frame>) -> Seq<FrameV> {
    frames.map_values(|f: Frame| f@)
}

/// What a name resolves to from frame `idx`: the binding in the nearest
/// frame along the parent chain that knows the name. A parent index that
/// does not point at an earlier frame ends the chain.
pub open spec fn lookup_spec(frames: Seq<FrameV>, idx: int, name: Seq<char>) -> Option<ExprV>
    decreases (if idx >= 0 { idx + 1 } else { 0 }),
{
    if !(0 <= idx < frames.len()) {
        None
    } else if frames[idx].bindings.contains_key(name) {
        Some(frames[idx].bindings[name])
    } else {
        match frames[idx].parent {
            Some(p) => if 0 <= p < idx {
                lookup_spec(frames, p, name)
            } else {
                None
            },
            None => None,
        }
    }
}

/// Whether frame `j` lies on the parent chain that starts at `idx` —
/// the frames a lookup from `idx` may consult.
pub open spec fn on_chain(frames: Seq<FrameV>, idx: int, j: int) -> bool
    decreases (if idx >= 0 { idx + 1 } else { 0 }),
{
    if !(0 <= idx < frames.len()) {
        false
    } else if idx == j {
        true
    } else {
        match frames[idx].parent {
            Some(p) => 0 <= p < idx && on_chain(frames, p, j),
            None => false,
        }
    }
}

/// Walks the parent chain from `idx`, nearest frame first.
pub fn lookup(frames: &Vec<Frame>, idx: usize, symbol: &Symbol) -> (r: Option<Expression>)
    requires
        idx < frames@.len(),
    ensures
        match r {
            Some(e) => lookup_spec(store_view(frames@), idx as int, symbol@) == Some(e@),
            None => lookup_spec(store_view(frames@), idx as int, symbol@) is None,
        },
    decreases idx,
{
    let frame = &frames[idx];
    match frame.get_local(symbol) {
        Some(e) => Some(e.clone()),
        None => {
            match frame.parent_index() {
                Some(p) => {
                    if p < idx {
                        lookup(frames, p, symbol)
                    } else {
                        None
                    }
                },
                None => None,
            }
        },
    }
}

} // verus!
