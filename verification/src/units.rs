//! Unsigned integers of the bit widths that MIDI fields have.
//!
//! Each type holds a value that fits its width. A value out of range cannot be
//! made: `new` hands back `None` for it, so the top bit of every data byte
//! that is built from these types is clear.
use vstd::prelude::*;

verus! {

/// An unsigned integer of 3 bits: the kind of a time code quarter frame.
#[derive(Clone, Copy, Debug, PartialEq, Eq, Structural)]
pub struct U3 {
    value: u8,
}

impl View for U3 {
    type V = u8;

    closed spec fn view(&self) -> u8 {
        self.value
    }
}

impl U3 {
    /// The largest value of the type.
    pub const MAX: u8 = 0x07;

    /// Whether the value fits in 3 bits. Every value that executable code
    /// holds does.
    #[verifier::type_invariant]
    pub open spec fn wf(self) -> bool {
        self@ <= Self::MAX
    }

    /// The value of this type whose view is `value`.
    pub closed spec fn of(value: u8) -> U3 {
        U3 { value }
    }

    /// The view of `of(value)` is `value`.
    pub broadcast proof fn lemma_of_view(value: u8)
        ensures
            #[trigger] Self::of(value)@ == value,
    {
    }

    /// A value is `of` its view: two values with one view are equal.
    pub broadcast proof fn lemma_view_of(x: U3)
        ensures
            #[trigger] Self::of(x@) == x,
    {
    }

    /// Makes the value, if it fits in 3 bits.
    pub fn new(value: u8) -> (r: Option<U3>)
        ensures
            r == (if value <= Self::MAX {
                Some(Self::of(value))
            } else {
                None
            }),
    {
        if value <= Self::MAX {
            Some(U3 { value })
        } else {
            None
        }
    }

    /// The value in the next wider machine integer.
    pub fn get(self) -> (value: u8)
        ensures
            value == self@,
            self.wf(),
    {
        proof {
            use_type_invariant(&self);
        }
        self.value
    }
}

/// An unsigned integer of 4 bits: a channel, or the value of a time code quarter frame.
#[derive(Clone, Copy, Debug, PartialEq, Eq, Structural)]
pub struct U4 {
    value: u8,
}

impl View for U4 {
    type V = u8;

    closed spec fn view(&self) -> u8 {
        self.value
    }
}

impl U4 {
    /// The largest value of the type.
    pub const MAX: u8 = 0x0F;

    /// Whether the value fits in 4 bits. Every value that executable code
    /// holds does.
    #[verifier::type_invariant]
    pub open spec fn wf(self) -> bool {
        self@ <= Self::MAX
    }

    /// The value of this type whose view is `value`.
    pub closed spec fn of(value: u8) -> U4 {
        U4 { value }
    }

    /// The view of `of(value)` is `value`.
    pub broadcast proof fn lemma_of_view(value: u8)
        ensures
            #[trigger] Self::of(value)@ == value,
    {
    }

    /// A value is `of` its view: two values with one view are equal.
    pub broadcast proof fn lemma_view_of(x: U4)
        ensures
            #[trigger] Self::of(x@) == x,
    {
    }

    /// Makes the value, if it fits in 4 bits.
    pub fn new(value: u8) -> (r: Option<U4>)
        ensures
            r == (if value <= Self::MAX {
                Some(Self::of(value))
            } else {
                None
            }),
    {
        if value <= Self::MAX {
            Some(U4 { value })
        } else {
            None
        }
    }

    /// The value in the next wider machine integer.
    pub fn get(self) -> (value: u8)
        ensures
            value == self@,
            self.wf(),
    {
        proof {
            use_type_invariant(&self);
        }
        self.value
    }
}

/// An unsigned integer of 7 bits: the payload of one data byte.
#[derive(Clone, Copy, Debug, PartialEq, Eq, Structural)]
pub struct U7 {
    value: u8,
}

impl View for U7 {
    type V = u8;

    closed spec fn view(&self) -> u8 {
        self.value
    }
}

impl U7 {
    /// The largest value of the type.
    pub const MAX: u8 = 0x7F;

    /// Whether the value fits in 7 bits. Every value that executable code
    /// holds does.
    #[verifier::type_invariant]
    pub open spec fn wf(self) -> bool {
        self@ <= Self::MAX
    }

    /// The value of this type whose view is `value`.
    pub closed spec fn of(value: u8) -> U7 {
        U7 { value }
    }

    /// The view of `of(value)` is `value`.
    pub broadcast proof fn lemma_of_view(value: u8)
        ensures
            #[trigger] Self::of(value)@ == value,
    {
    }

    /// A value is `of` its view: two values with one view are equal.
    pub broadcast proof fn lemma_view_of(x: U7)
        ensures
            #[trigger] Self::of(x@) == x,
    {
    }

    /// Makes the value, if it fits in 7 bits.
    pub fn new(value: u8) -> (r: Option<U7>)
        ensures
            r == (if value <= Self::MAX {
                Some(Self::of(value))
            } else {
                None
            }),
    {
        if value <= Self::MAX {
            Some(U7 { value })
        } else {
            None
        }
    }

    /// The value in the next wider machine integer.
    pub fn get(self) -> (value: u8)
        ensures
            value == self@,
            self.wf(),
    {
        proof {
            use_type_invariant(&self);
        }
        self.value
    }
}

/// An unsigned integer of 14 bits: the payload of two data bytes.
#[derive(Clone, Copy, Debug, PartialEq, Eq, Structural)]
pub struct U14 {
    value: u16,
}

impl View for U14 {
    type V = u16;

    closed spec fn view(&self) -> u16 {
        self.value
    }
}

impl U14 {
    /// The largest value of the type.
    pub const MAX: u16 = 0x3FFF;

    /// Whether the value fits in 14 bits. Every value that executable code
    /// holds does.
    #[verifier::type_invariant]
    pub open spec fn wf(self) -> bool {
        self@ <= Self::MAX
    }

    /// The value of this type whose view is `value`.
    pub closed spec fn of(value: u16) -> U14 {
        U14 { value }
    }

    /// The view of `of(value)` is `value`.
    pub broadcast proof fn lemma_of_view(value: u16)
        ensures
            #[trigger] Self::of(value)@ == value,
    {
    }

    /// A value is `of` its view: two values with one view are equal.
    pub broadcast proof fn lemma_view_of(x: U14)
        ensures
            #[trigger] Self::of(x@) == x,
    {
    }

    /// Makes the value, if it fits in 14 bits.
    pub fn new(value: u16) -> (r: Option<U14>)
        ensures
            r == (if value <= Self::MAX {
                Some(Self::of(value))
            } else {
                None
            }),
    {
        if value <= Self::MAX {
            Some(U14 { value })
        } else {
            None
        }
    }

    /// The value in the next wider machine integer.
    pub fn get(self) -> (value: u16)
        ensures
            value == self@,
            self.wf(),
    {
        proof {
            use_type_invariant(&self);
        }
        self.value
    }
}

/// The facts that tie each type's `of` to its view.
pub broadcast group group_units {
    U3::lemma_of_view,
    U3::lemma_view_of,
    U4::lemma_of_view,
    U4::lemma_view_of,
    U7::lemma_of_view,
    U7::lemma_view_of,
    U14::lemma_of_view,
    U14::lemma_view_of,
}

} // verus!
