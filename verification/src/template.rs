//! The `{name}` template language: a single left-to-right scan with two
//! modes, literal and placeholder-capture.
//!
//! In literal mode a `{` opens a placeholder and any other character is
//! emitted verbatim. Inside a placeholder a `}` closes it: a known name emits
//! its value, an unknown one emits nothing. A `{` inside a placeholder is an
//! ordinary name character, not a nested placeholder, and an unterminated
//! placeholder is discarded silently.

use vstd::prelude::*;

use crate::lookup::FieldLookup;
use crate::lookup::table_get;

verus! {

/// What a closed placeholder emits: the value recorded under the name, or
/// nothing for an unknown name.
pub open spec fn placeholder_text(
    table: Seq<(Seq<char>, Seq<char>)>,
    name: Seq<char>,
) -> Seq<char> {
    match table_get(table, name) {
        Some(v) => v,
        None => Seq::empty(),
    }
}

/// The scan in literal mode over the remaining text.
pub open spec fn render_text(text: Seq<char>, table: Seq<(Seq<char>, Seq<char>)>) -> Seq<char>
    decreases text.len(),
{
    if text.len() == 0 {
        Seq::empty()
    } else if text[0] == '{' {
        render_capture(text.drop_first(), Seq::empty(), table)
    } else {
        seq![text[0]] + render_text(text.drop_first(), table)
    }
}

/// The scan while capturing a placeholder name over the remaining text; text
/// that ends here leaves the partial placeholder unemitted.
pub open spec fn render_capture(
    text: Seq<char>,
    name: Seq<char>,
    table: Seq<(Seq<char>, Seq<char>)>,
) -> Seq<char>
    decreases text.len(),
{
    if text.len() == 0 {
        Seq::empty()
    } else if text[0] == '}' {
        placeholder_text(table, name) + render_text(text.drop_first(), table)
    } else {
        render_capture(text.drop_first(), name.push(text[0]), table)
    }
}

/// A piece of text with `{name}` placeholders, ready to be rendered against
/// a substitution table.
#[derive(Debug)]
pub struct Template {
    /// The raw text, placeholders not yet substituted.
    pub text: String,
}

impl Template {
    /// Substitutes every placeholder in one pass.
    pub fn render(&self, table: &FieldLookup) -> (r: String)
        ensures
            r@ == render_text(self.text@, table@),
    {
        let n = self.text.as_str().unicode_len();
        let mut out = String::new();
        let mut name = String::new();
        let mut capturing = false;
        let mut i: usize = 0;
        proof {
            assert(self.text@.skip(0) =~= self.text@);
        }
        while i < n
            invariant
                n == self.text@.len(),
                i <= n,
                !capturing ==> name@ == Seq::<char>::empty(),
                !capturing ==> out@ + render_text(self.text@.skip(i as int), table@)
                    == render_text(self.text@, table@),
                capturing ==> out@ + render_capture(self.text@.skip(i as int), name@, table@)
                    == render_text(self.text@, table@),
            decreases n - i,
        {
            proof {
                assert(self.text@.skip(i as int).drop_first() =~= self.text@.skip(i + 1));
            }
            let c = self.text.as_str().get_char(i);
            if capturing {
                if c == '}' {
                    match table.get(&name) {
                        Some(v) => out.append(v.as_str()),
                        None => (),
                    }
                    capturing = false;
                    name = String::new();
                } else {
                    let piece = self.text.as_str().substring_char(i, i + 1);
                    proof {
                        assert(piece@ =~= seq![self.text@[i as int]]);
                        assert(name@ + piece@ =~= name@.push(self.text@[i as int]));
                    }
                    name.append(piece);
                }
            } else {
                if c == '{' {
                    capturing = true;
                } else {
                    let piece = self.text.as_str().substring_char(i, i + 1);
                    proof {
                        assert(piece@ =~= seq![self.text@[i as int]]);
                    }
                    out.append(piece);
                }
            }
            i += 1;
        }
        proof {
            assert(self.text@.skip(n as int) =~= Seq::<char>::empty());
        }
        out
    }
}

} // verus!
