//! Nested types of [`Shirt`](crate::items::Shirt).

use vstd::prelude::*;

verus! {

/// A shirt size; its wire numbers are 0, 1 and 2.
#[derive(Clone, Copy, Debug, PartialEq, Eq, Structural, Hash, PartialOrd, Ord)]
pub enum Size {
    Small,
    Medium,
    Large,
}

impl Size {
    pub open spec fn number(self) -> int {
        match self {
            Size::Small => 0,
            Size::Medium => 1,
            Size::Large => 2,
        }
    }

    /// The size with wire number `n`, or small where `n` names none.
    pub open spec fn from_number_or_default(n: int) -> Size {
        if n == 1 {
            Size::Medium
        } else if n == 2 {
            Size::Large
        } else {
            Size::Small
        }
    }

    pub fn as_i32(self) -> (r: i32)
        ensures
            r as int == self.number(),
    {
        match self {
            Size::Small => 0,
            Size::Medium => 1,
            Size::Large => 2,
        }
    }

    /// The size with wire number `v`, if there is one.
    pub fn from_i32(v: i32) -> (r: Option<Size>)
        ensures
            r matches Some(s) ==> s.number() == v as int,
            (r is None) <==> !(0 <= v <= 2),
    {
        if v == 0 {
            Some(Size::Small)
        } else if v == 1 {
            Some(Size::Medium)
        } else if v == 2 {
            Some(Size::Large)
        } else {
            None
        }
    }
}

} // verus!
