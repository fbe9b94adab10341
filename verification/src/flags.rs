//! The flag register: condition codes that a comparison sets.
use vstd::prelude::*;

verus! {

/// The condition codes of the machine.
///
/// A comparison writes `not_zero`, `less_than`, `greater_than` and `equals`
/// together. The other fields are reserved: no instruction writes them.
#[derive(Clone, Copy, Debug, PartialEq, Eq, Structural)]
pub struct Flags {
    /// The last comparison's operands differed.
    pub not_zero: bool,
    /// The last comparison's difference was negative.
    pub less_than: bool,
    /// The last comparison's difference was positive.
    pub greater_than: bool,
    /// The last comparison's operands were equal.
    pub equals: bool,
    /// Reserved.
    pub overflow: bool,
    /// Reserved.
    pub underflow: bool,
    /// Reserved.
    pub halted: bool,
    /// Reserved.
    pub carry: bool,
    /// Reserved.
    pub div_by_zero: bool,
}

impl Flags {
    /// The register with every flag down.
    pub open spec fn cleared() -> Flags {
        Flags {
            not_zero: false,
            less_than: false,
            greater_than: false,
            equals: false,
            overflow: false,
            underflow: false,
            halted: false,
            carry: false,
            div_by_zero: false,
        }
    }

    /// The register after a comparison whose difference is `diff`: the four
    /// comparison flags say how `diff` stands to zero, the reserved flags
    /// keep their values.
    pub open spec fn compared(self, diff: i32) -> Flags {
        Flags {
            not_zero: diff != 0,
            less_than: diff < 0,
            greater_than: diff > 0,
            equals: diff == 0,
            ..self
        }
    }

    /// A register with every flag down.
    pub fn new() -> (r: Flags)
        ensures
            r == Flags::cleared(),
    {
        Flags {
            not_zero: false,
            less_than: false,
            greater_than: false,
            equals: false,
            overflow: false,
            underflow: false,
            halted: false,
            carry: false,
            div_by_zero: false,
        }
    }

    /// Records a comparison whose difference is `diff`.
    pub fn record(&mut self, diff: i32)
        ensures
            *final(self) == old(self).compared(diff),
    {
        if diff < 0 {
            self.less_than = true;
            self.greater_than = false;
            self.not_zero = true;
            self.equals = false;
        } else if diff > 0 {
            self.less_than = false;
            self.greater_than = true;
            self.not_zero = true;
            self.equals = false;
        } else {
            self.less_than = false;
            self.greater_than = false;
            self.not_zero = false;
            self.equals = true;
        }
    }
}

/// After a comparison exactly one of `less_than`, `greater_than` and `equals`
/// is up, and `not_zero` is the complement of `equals`.
pub proof fn comparison_flags_are_exclusive(before: Flags, diff: i32)
    ensures
        ({
            let f = before.compared(diff);
            &&& f.not_zero == !f.equals
            &&& (f.less_than || f.greater_than || f.equals)
            &&& !(f.less_than && f.greater_than)
            &&& !(f.less_than && f.equals)
            &&& !(f.greater_than && f.equals)
        }),
{
}

} // verus!
