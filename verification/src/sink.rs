//! What goes to the output sink.

use vstd::prelude::*;
use vstd::string::StringExecFns;

verus! {

/// The record that shows the caption `text` with the track label `tooltip`:
/// `{"text": "` text `", "tooltip": "` tooltip `"}`, both texts as they are.
pub open spec fn record(text: Seq<char>, tooltip: Seq<char>) -> Seq<char> {
    "{\"text\": \""@ + text + "\", \"tooltip\": \""@ + tooltip + "\"}"@
}

/// The record that is written to the sink for the caption `text` and the
/// track label `tooltip`.
pub fn output(text: &str, tooltip: &str) -> (r: String)
    ensures
        r@ == record(text@, tooltip@),
{
    let mut r = String::from_str("{\"text\": \"");
    r.append(text);
    r.append("\", \"tooltip\": \"");
    r.append(tooltip);
    r.append("\"}");
    r
}

} // verus!
