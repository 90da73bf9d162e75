//! Greeting a person by name.

use vstd::prelude::*;

verus! {

/// Builds the greeting for the given name.
pub fn greeting(name: &str) -> (r: String)
    ensures
        r@ == "Hello "@ + name@ + "!"@,
{
    let mut text = String::from_str("Hello ");
    text.append(name);
    text.append("!");
    text
}

} // verus!
