use vstd::prelude::*;

verus! {

/// Whether the advertisement is published or withdrawn.
#[derive(Debug, Clone, Copy, PartialEq, Eq, Structural)]
pub enum Visibility {
    Visible,
    Invisible,
}

impl Visibility {
    /// The visibility that a raw byte stands for: zero is `Visible`, every
    /// other value is `Invisible`.
    pub open spec fn of_raw(value: u8) -> Visibility {
        if value == 0 {
            Visibility::Visible
        } else {
            Visibility::Invisible
        }
    }

    /// The byte that stands for a visibility: 0 for `Visible`, 1 for
    /// `Invisible`.
    pub open spec fn to_raw(self) -> u8 {
        match self {
            Visibility::Visible => 0,
            Visibility::Invisible => 1,
        }
    }

    pub fn from_raw_value(value: u8) -> (v: Self)
        ensures
            v == Self::of_raw(value),
    {
        match value {
            0 => Visibility::Visible,
            _ => Visibility::Invisible,
        }
    }

    pub fn raw_value(self) -> (value: u8)
        ensures
            value == self.to_raw(),
    {
        match self {
            Visibility::Visible => 0,
            Visibility::Invisible => 1,
        }
    }
}

/// Reading back the byte of a visibility gives that visibility.
pub proof fn raw_value_round_trip(v: Visibility)
    ensures
        Visibility::of_raw(v.to_raw()) == v,
{
}

} // verus!
