//! Bridge between a desktop front end and a local inference daemon reached
//! through an external HTTP client: request construction, decoding of the
//! client's raw output, the decisions of each daemon operation, and the
//! extraction of list markup from the remote model catalog page.
use vstd::prelude::*;

pub mod catalog;
pub mod decode;
pub mod operations;
pub mod request;
pub mod text;

verus! {

/// `Hello, <name>!`
pub open spec fn greeting_text(name: Seq<char>) -> Seq<char> {
    "Hello, "@ + name + "!"@
}

/// Greets the front end's user by name.
pub fn greet(name: &str) -> (r: String)
    ensures
        r@ == greeting_text(name@),
{
    let mut r = String::from_str("Hello, ");
    r.append(name);
    r.append("!");
    r
}

} // verus!
