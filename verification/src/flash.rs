//! Flash messages shown after an operation.

use vstd::prelude::*;
use crate::strings::push_str;

verus! {

/// A success message: the message followed by a check mark.
pub fn flash_success(message: &str) -> (res: String)
    ensures
        res@ == message@ + " ✓"@,
{
    let mut s = String::new();
    push_str(&mut s, message);
    push_str(&mut s, " ✓");
    s
}

/// An error message naming the failed operation.
pub fn flash_error(operation: &str, error: &str) -> (res: String)
    ensures
        res@ == "Erreur "@ + operation@ + ": "@ + error@,
{
    let mut s = String::new();
    push_str(&mut s, "Erreur ");
    push_str(&mut s, operation);
    push_str(&mut s, ": ");
    push_str(&mut s, error);
    s
}

/// A free-form error message.
pub fn flash_error_message(message: &str) -> (res: String)
    ensures
        res@ == "Erreur: "@ + message@,
{
    let mut s = String::new();
    push_str(&mut s, "Erreur: ");
    push_str(&mut s, message);
    s
}

} // verus!
