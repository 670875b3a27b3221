use vstd::prelude::*;

use crate::text::{decimal, decimal_string};

verus! {

/// Number of han (big) points.
#[derive(Copy, Clone, Debug, Ord, PartialOrd, Eq, PartialEq, Hash, Structural)]
pub struct Han(i32);

impl View for Han {
    type V = int;

    /// The number that the object holds.
    closed spec fn view(&self) -> int {
        self.0 as int
    }
}

impl Han {
    /// The `Han` object that holds `value`.
    pub closed spec fn of(value: i32) -> Self {
        Han(value)
    }

    /// The object made of a number holds that number.
    pub proof fn lemma_of(value: i32)
        ensures
            Self::of(value)@ == value,
    {
    }

    /// Constructs new `Han` object.
    #[verifier::when_used_as_spec(of)]
    pub fn new(value: i32) -> (r: Self)
        ensures
            r == Self::of(value),
            r@ == value,
    {
        Self(value)
    }

    /// Gets the integer value for a `Han` object.
    pub fn get(&self) -> (r: i32)
        ensures
            r == self@,
    {
        self.0
    }

    /// Two `Han` objects that hold the same number are the same object.
    pub proof fn lemma_view_injective(self, other: Self)
        ensures
            self@ == other@ <==> self == other,
    {
    }

    /// The text that the object is shown with: the number, then `han`.
    pub open spec fn text(self) -> Seq<char> {
        decimal(self@) + " han"@
    }

    /// Returns the text that the object is shown with.
    pub fn to_string(&self) -> (r: String)
        ensures
            r@ == self.text(),
    {
        decimal_string(self.0 as i128).concat(" han")
    }
}

impl<T: Into<i32>> From<T> for Han {
    fn from(value: T) -> (r: Self) {
        Self::new(value.into())
    }
}

impl<T: Into<i32>> vstd::std_specs::convert::FromSpecImpl<T> for Han {
    open spec fn obeys_from_spec() -> bool {
        <T as vstd::std_specs::convert::IntoSpec<i32>>::obeys_into_spec()
    }

    open spec fn from_spec(value: T) -> Self {
        Han::of(<T as vstd::std_specs::convert::IntoSpec<i32>>::into_spec(value))
    }
}

/// Number of fu (small) points.
#[derive(Copy, Clone, Debug, Ord, PartialOrd, Eq, PartialEq, Hash, Structural)]
pub struct Fu(i32);

impl View for Fu {
    type V = int;

    /// The number that the object holds.
    closed spec fn view(&self) -> int {
        self.0 as int
    }
}

impl Fu {
    /// The `Fu` object that holds `value`.
    pub closed spec fn of(value: i32) -> Self {
        Fu(value)
    }

    /// The object made of a number holds that number.
    pub proof fn lemma_of(value: i32)
        ensures
            Self::of(value)@ == value,
    {
    }

    /// Constructs new `Fu` object.
    #[verifier::when_used_as_spec(of)]
    pub fn new(value: i32) -> (r: Self)
        ensures
            r == Self::of(value),
            r@ == value,
    {
        Self(value)
    }

    /// Gets the integer value for a `Fu` object.
    pub fn get(&self) -> (r: i32)
        ensures
            r == self@,
    {
        self.0
    }

    /// Two `Fu` objects that hold the same number are the same object.
    pub proof fn lemma_view_injective(self, other: Self)
        ensures
            self@ == other@ <==> self == other,
    {
    }

    /// The text that the object is shown with: the number, then `fu`.
    pub open spec fn text(self) -> Seq<char> {
        decimal(self@) + " fu"@
    }

    /// Returns the text that the object is shown with.
    pub fn to_string(&self) -> (r: String)
        ensures
            r@ == self.text(),
    {
        decimal_string(self.0 as i128).concat(" fu")
    }
}

impl<T: Into<i32>> From<T> for Fu {
    fn from(value: T) -> (r: Self) {
        Self::new(value.into())
    }
}

impl<T: Into<i32>> vstd::std_specs::convert::FromSpecImpl<T> for Fu {
    open spec fn obeys_from_spec() -> bool {
        <T as vstd::std_specs::convert::IntoSpec<i32>>::obeys_into_spec()
    }

    open spec fn from_spec(value: T) -> Self {
        Fu::of(<T as vstd::std_specs::convert::IntoSpec<i32>>::into_spec(value))
    }
}

/// Number of honbas (counter sticks).
#[derive(Copy, Clone, Debug, Ord, PartialOrd, Eq, PartialEq, Hash, Structural)]
pub struct Honbas(i32);

impl View for Honbas {
    type V = int;

    /// The number that the object holds.
    closed spec fn view(&self) -> int {
        self.0 as int
    }
}

impl Honbas {
    /// Zero honbas, which is also the default value.
    pub fn zero() -> (r: Self)
        ensures
            r@ == 0,
    {
        Self(0)
    }

    /// The `Honbas` object that holds `value`.
    pub closed spec fn of(value: i32) -> Self {
        Honbas(value)
    }

    /// The object made of a number holds that number.
    pub proof fn lemma_of(value: i32)
        ensures
            Self::of(value)@ == value,
    {
    }

    /// Constructs new `Honbas` object.
    #[verifier::when_used_as_spec(of)]
    pub fn new(value: i32) -> (r: Self)
        ensures
            r == Self::of(value),
            r@ == value,
    {
        Self(value)
    }

    /// Gets the integer value for a `Honbas` object.
    pub fn get(&self) -> (r: i32)
        ensures
            r == self@,
    {
        self.0
    }

    /// Two `Honbas` objects that hold the same number are the same object.
    pub proof fn lemma_view_injective(self, other: Self)
        ensures
            self@ == other@ <==> self == other,
    {
    }

    /// The text that the object is shown with: the number, then `honbas`.
    pub open spec fn text(self) -> Seq<char> {
        decimal(self@) + " honbas"@
    }

    /// Returns the text that the object is shown with.
    pub fn to_string(&self) -> (r: String)
        ensures
            r@ == self.text(),
    {
        decimal_string(self.0 as i128).concat(" honbas")
    }
}

impl<T: Into<i32>> From<T> for Honbas {
    fn from(value: T) -> (r: Self) {
        Self::new(value.into())
    }
}

impl<T: Into<i32>> vstd::std_specs::convert::FromSpecImpl<T> for Honbas {
    open spec fn obeys_from_spec() -> bool {
        <T as vstd::std_specs::convert::IntoSpec<i32>>::obeys_into_spec()
    }

    open spec fn from_spec(value: T) -> Self {
        Honbas::of(<T as vstd::std_specs::convert::IntoSpec<i32>>::into_spec(value))
    }
}

impl Default for Honbas {
    fn default() -> (r: Self)
        ensures
            r@ == 0,
    {
        Self::new(0)
    }
}

} // verus!
