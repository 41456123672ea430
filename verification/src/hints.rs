//! Hints: directives for the runner that travel with an instruction.

use vstd::prelude::*;

verus! {

/// A directive for the runner, attached to an instruction and held as the code
/// that a listing shows between `%{` and `%}`.
#[derive(Debug)]
pub struct Hint {
    pub code: String,
}

impl View for Hint {
    type V = Seq<char>;

    open spec fn view(&self) -> Seq<char> {
        self.code@
    }
}

impl Hint {
    /// The hint whose code is `code`.
    pub fn new(code: &str) -> (hint: Self)
        ensures
            hint@ == code@,
    {
        Hint { code: code.to_owned() }
    }

    /// The code of the hint.
    pub fn to_string(&self) -> (code: String)
        ensures
            code@ == self@,
    {
        self.code.clone()
    }
}

impl Clone for Hint {
    fn clone(&self) -> (copy: Self)
        ensures
            copy@ == self@,
    {
        Hint { code: self.code.clone() }
    }
}

impl PartialEq for Hint {
    fn eq(&self, other: &Self) -> (equal: bool) {
        self.code == other.code
    }
}

impl vstd::std_specs::cmp::PartialEqSpecImpl for Hint {
    open spec fn obeys_eq_spec() -> bool {
        true
    }

    open spec fn eq_spec(&self, other: &Self) -> bool {
        self@ == other@
    }
}

impl Eq for Hint {

}

} // verus!
