//! Rendering optional strings for status messages.

use vstd::prelude::*;

use crate::fields::opt_view;

verus! {

/// An optional string as it appears in a status message: its content between
/// single quotes, an absent value shown as empty.
pub open spec fn quoted(value: Option<Seq<char>>) -> Seq<char> {
    "'"@ + (match value {
        Some(s) => s,
        None => Seq::empty(),
    }) + "'"@
}

/// An optional string, to be rendered between single quotes.
#[derive(Debug)]
pub struct OptionString(pub Option<String>);

impl OptionString {
    /// The quoted rendering, an absent value showing as `''`.
    pub fn text(&self) -> (r: String)
        ensures
            r@ == quoted(opt_view(self.0)),
    {
        let mut out = "'".to_owned();
        match &self.0 {
            Some(s) => out.append(s.as_str()),
            None => (),
        }
        proof {
            if self.0 is None {
                assert("'"@ + Seq::<char>::empty() =~= "'"@);
            }
        }
        out.append("'");
        out
    }
}

/// Wraps an optional string for quoted rendering.
pub fn fos(value: &Option<String>) -> (r: OptionString)
    ensures
        r.0 == *value,
{
    OptionString(crate::fields::clone_opt(value))
}

} // verus!
