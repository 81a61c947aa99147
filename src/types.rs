use crate::string::String;
use vstd::prelude::*;

pub mod building;
pub mod number;
pub mod unit;

verus! {

/// A category of value that a variable can hold; its view is the operand text.
pub trait Type: View<V = Seq<char>> + Sized {
    /// The value held by the variable called `name`.
    fn from_name(name: String) -> (r: Self)
        ensures
            r@ == name@,
    ;

    /// The operand text of the value.
    fn into_name(self) -> (r: String)
        ensures
            r@ == self@,
    ;
}

} // verus!
