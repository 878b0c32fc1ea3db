//! The base frame: the bindings every evaluation starts from.
//!
//! It binds the truth symbol to itself, the native list operations under
//! both their traditional and their spelled-out names, `print`, and the
//! type predicates.

use vstd::prelude::*;
use crate::ast::{Atom, Expression, ExprV, Native, Symbol};
use crate::env::{Frame, FrameV};

verus! {

/// The bindings of the base frame.
pub open spec fn base_bindings() -> Map<Seq<char>, ExprV> {
    Map::<Seq<char>, ExprV>::empty().insert("true"@, ExprV::Sym("true"@)).insert(
        "head"@,
        ExprV::Native(Native::Head),
    ).insert("car"@, ExprV::Native(Native::Head)).insert(
        "tail"@,
        ExprV::Native(Native::Tail),
    ).insert("cdr"@, ExprV::Native(Native::Tail)).insert(
        "cons"@,
        ExprV::Native(Native::Cons),
    ).insert("print"@, ExprV::Native(Native::Print)).insert(
        "number?"@,
        ExprV::Native(Native::IsNumber),
    ).insert("string?"@, ExprV::Native(Native::IsString)).insert(
        "symbol?"@,
        ExprV::Native(Native::IsSymbol),
    ).insert("function?"@, ExprV::Native(Native::IsFunction)).insert(
        "special?"@,
        ExprV::Native(Native::IsSpecial),
    ).insert("native?"@, ExprV::Native(Native::IsNative))
}

/// The view of the base frame: no parent, the base bindings.
pub open spec fn base_frame_view() -> FrameV {
    FrameV { parent: None, bindings: base_bindings() }
}

/// Builds the base frame.
pub fn build_base_frame() -> (r: Frame)
    ensures
        r@ == base_frame_view(),
{
    let mut frame = Frame::new();
    frame.set(Symbol::new("true"), Expression::Atom(Atom::Symbol(Symbol::new("true"))));
    frame.set(Symbol::new("head"), Expression::Atom(Atom::Native(Native::Head)));
    frame.set(Symbol::new("car"), Expression::Atom(Atom::Native(Native::Head)));
    frame.set(Symbol::new("tail"), Expression::Atom(Atom::Native(Native::Tail)));
    frame.set(Symbol::new("cdr"), Expression::Atom(Atom::Native(Native::Tail)));
    frame.set(Symbol::new("cons"), Expression::Atom(Atom::Native(Native::Cons)));
    frame.set(Symbol::new("print"), Expression::Atom(Atom::Native(Native::Print)));
    frame.set(Symbol::new("number?"), Expression::Atom(Atom::Native(Native::IsNumber)));
    frame.set(Symbol::new("string?"), Expression::Atom(Atom::Native(Native::IsString)));
    frame.set(Symbol::new("symbol?"), Expression::Atom(Atom::Native(Native::IsSymbol)));
    frame.set(Symbol::new("function?"), Expression::Atom(Atom::Native(Native::IsFunction)));
    frame.set(Symbol::new("special?"), Expression::Atom(Atom::Native(Native::IsSpecial)));
    frame.set(Symbol::new("native?"), Expression::Atom(Atom::Native(Native::IsNative)));
    assert(frame@.bindings =~= base_bindings());
    frame
}

} // verus!
