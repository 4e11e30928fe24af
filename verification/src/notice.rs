//! The text of the progress notification that precedes each import.

use vstd::prelude::*;
use vstd::string::StringExecFns;
use crate::catalog::System;

verus! {

/// What std's `Debug` for `str` writes for a text: the text between double
/// quotes, with what cannot be shown as it is escaped.
pub uninterp spec fn debug_text(text: Seq<char>) -> Seq<char>;

/// Calls std's `format!` with `{:?}` on a `str`. Not proved: the contract
/// takes it that the result depends on the text alone, and gives that result
/// its name. It says nothing of the quotes or of the escaping.
#[verifier::external_body]
fn debug_string(text: &str) -> (r: String)
    ensures
        r@ == debug_text(text@),
{
    format!("{:?}", text)
}

/// A label between the notification's opening words and its closing quote.
pub open spec fn framed(label: Seq<char>) -> Seq<char> {
    "Import System \""@ + label + "\""@
}

/// The notification's text for a system of this name.
pub open spec fn notice_text(name: Seq<char>) -> Seq<char> {
    framed(debug_text(name))
}

/// Puts a label into the notification's frame.
pub fn frame(label: &str) -> (r: String)
    ensures
        r@ == framed(label@),
{
    let mut text = String::from_str("Import System \"");
    text.append(label);
    text.append("\"");
    text
}

/// The line shown to the observer before `system` is imported. It names the
/// system and is never read back.
pub fn progress_message(system: &System) -> (r: String)
    ensures
        r@ == notice_text(system.name@),
{
    let label = debug_string(system.name.as_str());
    frame(label.as_str())
}

} // verus!
