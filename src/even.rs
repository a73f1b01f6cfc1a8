//! An `i32` that is known to be even, built only through a checked constructor.
use vstd::prelude::*;

verus! {

/// Whether `n` is divisible by two.
pub open spec fn is_even(n: int) -> bool {
    n % 2 == 0
}

/// Why a value was refused.
#[derive(Debug, Clone, Copy, PartialEq, Eq, Structural)]
pub enum ValidationError {
    /// The value was odd.
    NotEven,
}

/// An `i32` whose value is even for as long as it exists.
#[derive(Debug, Clone, Copy, PartialEq, Eq, Structural)]
pub struct EvenNumber {
    value: i32,
}

impl View for EvenNumber {
    type V = int;

    /// The wrapped value, as a mathematical integer.
    closed spec fn view(&self) -> int {
        self.value as int
    }
}

impl EvenNumber {
    #[verifier::type_invariant]
    spec fn well_formed(self) -> bool {
        is_even(self.value as int)
    }

    /// Wraps `raw` when it is even and refuses it with `NotEven` otherwise.
    pub fn construct(raw: i32) -> (r: Result<EvenNumber, ValidationError>)
        ensures
            is_even(raw as int) <==> r is Ok,
            r is Ok ==> r->Ok_0@ == raw as int,
            !is_even(raw as int) ==> r == Err::<EvenNumber, ValidationError>(ValidationError::NotEven),
    {
        if raw % 2 == 0 {
            Ok(EvenNumber { value: raw })
        } else {
            Err(ValidationError::NotEven)
        }
    }

    /// The wrapped value.
    pub fn value(&self) -> (r: i32)
        ensures
            r as int == self@,
            is_even(r as int),
    {
        proof {
            use_type_invariant(self);
        }
        self.value
    }
}

impl TryFrom<i32> for EvenNumber {
    type Error = ValidationError;

    /// Same as [`EvenNumber::construct`].
    fn try_from(raw: i32) -> (r: Result<EvenNumber, ValidationError>)
        ensures
            is_even(raw as int) <==> r is Ok,
            r is Ok ==> r->Ok_0@ == raw as int,
            !is_even(raw as int) ==> r == Err::<EvenNumber, ValidationError>(ValidationError::NotEven),
    {
        EvenNumber::construct(raw)
    }
}

impl vstd::std_specs::convert::TryFromSpecImpl<i32> for EvenNumber {
    open spec fn obeys_try_from_spec() -> bool {
        true
    }

    closed spec fn try_from_spec(raw: i32) -> Result<EvenNumber, ValidationError> {
        if is_even(raw as int) {
            Ok(EvenNumber { value: raw })
        } else {
            Err(ValidationError::NotEven)
        }
    }
}

} // verus!
