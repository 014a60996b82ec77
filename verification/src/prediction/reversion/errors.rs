//! What can go wrong.

use vstd::prelude::*;

verus! {

#[derive(Debug)]
pub enum ReversionError {
    /// The configuration is not valid.
    Config(String),
    /// A computation gave no usable number.
    NumericalInstability { component: String, detail: String },
}

impl ReversionError {
    /// The error in words.
    pub open spec fn message_spec(self) -> Seq<char> {
        match self {
            ReversionError::Config(what) => "configuration invalid: "@ + what@,
            ReversionError::NumericalInstability { component, detail } => {
                "numerical instability in "@ + component@ + ": "@ + detail@
            },
        }
    }

    /// The error in words.
    pub fn message(&self) -> (r: String)
        ensures
            r@ == self.message_spec(),
    {
        match self {
            ReversionError::Config(what) => "configuration invalid: ".to_owned().concat(
                what.as_str(),
            ),
            ReversionError::NumericalInstability { component, detail } => {
                "numerical instability in ".to_owned().concat(component.as_str()).concat(
                    ": ",
                ).concat(detail.as_str())
            },
        }
    }
}

} // verus!
