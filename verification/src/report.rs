//! The report: a template in which a marker stands for the table.

use crate::text::{substitute, substitute_spec};
use vstd::prelude::*;

verus! {

/// The report made from `template`: each `%%DATA%%` in it gives way to `data`.
pub open spec fn render_spec(template: Seq<char>, data: Seq<char>) -> Seq<char> {
    substitute_spec(template, "%%DATA%%"@, data)
}

/// Fills the table into the template.
pub fn render(template: &str, data: &str) -> (r: String)
    ensures
        r@ == render_spec(template@, data@),
{
    substitute(template, "%%DATA%%", data)
}

} // verus!
