//! A symbol: a pyramid placed on one cell, with a shape, a colour and a size.
//!
//! Each of the three attributes is changed by stepping through a fixed cycle.

use vstd::prelude::*;
use crate::grid::Position;

verus! {

/// The shape of a pyramid.
#[derive(Clone, Copy, Debug, PartialEq, Eq, Structural)]
pub enum PyramidType {
    Straight,
    Angled,
}

/// The colour of a pyramid, one of a palette of three.
#[derive(Clone, Copy, Debug, PartialEq, Eq, Structural)]
pub enum SymbolColor {
    Red,
    Blue,
    Yellow,
}

/// The size of a pyramid.
#[derive(Clone, Copy, Debug, PartialEq, Eq, Structural)]
pub enum SymbolSize {
    Small,
    Medium,
    Large,
}

/// A symbol placed on the cell `pos`.
#[derive(Clone, Copy, Debug, PartialEq, Eq, Structural)]
pub struct Datos {
    pub pos: Position,
    pub pyramid_type: PyramidType,
    pub color: SymbolColor,
    pub size: SymbolSize,
}

impl PyramidType {
    /// The shape that follows this one: straight, angled, straight again.
    pub open spec fn following(self) -> PyramidType {
        match self {
            PyramidType::Straight => PyramidType::Angled,
            PyramidType::Angled => PyramidType::Straight,
        }
    }

    /// The shape that follows this one in the cycle.
    pub fn next(self) -> (r: PyramidType)
        ensures
            r == self.following(),
    {
        match self {
            PyramidType::Straight => PyramidType::Angled,
            PyramidType::Angled => PyramidType::Straight,
        }
    }
}

impl SymbolColor {
    /// The colour that follows this one: red, blue, yellow, red again.
    pub open spec fn following(self) -> SymbolColor {
        match self {
            SymbolColor::Red => SymbolColor::Blue,
            SymbolColor::Blue => SymbolColor::Yellow,
            SymbolColor::Yellow => SymbolColor::Red,
        }
    }

    /// The colour that follows this one in the cycle.
    pub fn next(self) -> (r: SymbolColor)
        ensures
            r == self.following(),
    {
        match self {
            SymbolColor::Red => SymbolColor::Blue,
            SymbolColor::Blue => SymbolColor::Yellow,
            SymbolColor::Yellow => SymbolColor::Red,
        }
    }
}

impl SymbolSize {
    /// The size that follows this one: small, medium, large, small again.
    pub open spec fn following(self) -> SymbolSize {
        match self {
            SymbolSize::Small => SymbolSize::Medium,
            SymbolSize::Medium => SymbolSize::Large,
            SymbolSize::Large => SymbolSize::Small,
        }
    }

    /// The size that follows this one in the cycle.
    pub fn next(self) -> (r: SymbolSize)
        ensures
            r == self.following(),
    {
        match self {
            SymbolSize::Small => SymbolSize::Medium,
            SymbolSize::Medium => SymbolSize::Large,
            SymbolSize::Large => SymbolSize::Small,
        }
    }
}

impl Datos {
    /// The symbol that a cell gets when a shape is asked for and the cell is
    /// empty: a straight, blue pyramid of medium size.
    pub open spec fn fresh(pos: Position) -> Datos {
        Datos {
            pos,
            pyramid_type: PyramidType::Straight,
            color: SymbolColor::Blue,
            size: SymbolSize::Medium,
        }
    }

    /// This symbol with the next shape.
    pub open spec fn with_next_type(self) -> Datos {
        Datos { pyramid_type: self.pyramid_type.following(), ..self }
    }

    /// This symbol with the next colour.
    pub open spec fn with_next_color(self) -> Datos {
        Datos { color: self.color.following(), ..self }
    }

    /// This symbol with the next size.
    pub open spec fn with_next_size(self) -> Datos {
        Datos { size: self.size.following(), ..self }
    }

    /// A straight, blue pyramid of medium size on the cell `pos`.
    pub fn new(pos: Position) -> (r: Datos)
        ensures
            r == Datos::fresh(pos),
    {
        Datos {
            pos,
            pyramid_type: PyramidType::Straight,
            color: SymbolColor::Blue,
            size: SymbolSize::Medium,
        }
    }

    /// The same symbol with the next shape of the cycle.
    pub fn cycle_type(self) -> (r: Datos)
        ensures
            r == self.with_next_type(),
    {
        Datos {
            pos: self.pos,
            pyramid_type: self.pyramid_type.next(),
            color: self.color,
            size: self.size,
        }
    }

    /// The same symbol with the next colour of the cycle.
    pub fn cycle_color(self) -> (r: Datos)
        ensures
            r == self.with_next_color(),
    {
        Datos {
            pos: self.pos,
            pyramid_type: self.pyramid_type,
            color: self.color.next(),
            size: self.size,
        }
    }

    /// The same symbol with the next size of the cycle.
    pub fn cycle_size(self) -> (r: Datos)
        ensures
            r == self.with_next_size(),
    {
        Datos {
            pos: self.pos,
            pyramid_type: self.pyramid_type,
            color: self.color,
            size: self.size.next(),
        }
    }
}

/// The shapes form a cycle of length two.
pub proof fn lemma_type_cycle(t: PyramidType)
    ensures
        t.following() != t,
        t.following().following() == t,
{
}

/// The colours form a cycle of length three.
pub proof fn lemma_color_cycle(c: SymbolColor)
    ensures
        c.following() != c,
        c.following().following() != c,
        c.following().following().following() == c,
{
}

/// The sizes form a cycle of length three.
pub proof fn lemma_size_cycle(s: SymbolSize)
    ensures
        s.following() != s,
        s.following().following() != s,
        s.following().following().following() == s,
{
}

/// Stepping through a cycle changes one attribute of a symbol and nothing
/// else; after a whole turn of the cycle the symbol is what it was.
pub proof fn lemma_symbol_cycles(d: Datos)
    ensures
        d.with_next_type().pos == d.pos,
        d.with_next_color().pos == d.pos,
        d.with_next_size().pos == d.pos,
        d.with_next_type().with_next_type() == d,
        d.with_next_color().with_next_color().with_next_color() == d,
        d.with_next_size().with_next_size().with_next_size() == d,
{
}

} // verus!
