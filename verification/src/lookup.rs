//! The substitution table a post is templated against: field names mapped to
//! rendered text, the first writer of a name winning.
//!
//! Names are populated in priority order — the five standard slots after the
//! default merge, then the post's own extra fields, then the defaults' extra
//! fields — and a later duplicate of a name is silently ignored.

use vstd::prelude::*;

use crate::fields::FieldsView;
use crate::fields::PostOptions;
use crate::fields::defaults_view;
use crate::fields::entries_view;
use crate::fields::merged;
use crate::fields::opt_view;

verus! {

/// First-match lookup in a list of name/text pairs.
pub open spec fn table_get(table: Seq<(Seq<char>, Seq<char>)>, name: Seq<char>) -> Option<
    Seq<char>,
>
    decreases table.len(),
{
    if table.len() == 0 {
        None
    } else if table[0].0 == name {
        Some(table[0].1)
    } else {
        table_get(table.drop_first(), name)
    }
}

/// Appends a pair unless the name is already present: first writer wins.
pub open spec fn table_put(
    table: Seq<(Seq<char>, Seq<char>)>,
    name: Seq<char>,
    value: Seq<char>,
) -> Seq<(Seq<char>, Seq<char>)> {
    if table_get(table, name) is Some {
        table
    } else {
        table.push((name, value))
    }
}

/// Adds a standard slot under its field name when the slot resolved to a
/// value; an absent slot contributes nothing.
pub open spec fn table_put_slot(
    table: Seq<(Seq<char>, Seq<char>)>,
    name: Seq<char>,
    value: Option<Seq<char>>,
) -> Seq<(Seq<char>, Seq<char>)> {
    match value {
        Some(v) => table_put(table, name, v),
        None => table,
    }
}

/// Adds every pair of a list in order, each under first-writer-wins.
pub open spec fn table_put_all(
    table: Seq<(Seq<char>, Seq<char>)>,
    entries: Seq<(Seq<char>, Seq<char>)>,
) -> Seq<(Seq<char>, Seq<char>)>
    decreases entries.len(),
{
    if entries.len() == 0 {
        table
    } else {
        table_put_all(table_put(table, entries[0].0, entries[0].1), entries.drop_first())
    }
}

/// The full substitution table of a post: standard slots in their fixed
/// order, then the post's extra fields, then the defaults' extra fields.
pub open spec fn field_table(post: FieldsView, defaults: Option<FieldsView>) -> Seq<
    (Seq<char>, Seq<char>),
> {
    let m = merged(post, defaults);
    let slots = table_put_slot(
        table_put_slot(
            table_put_slot(
                table_put_slot(
                    table_put_slot(Seq::empty(), "title"@, m.title),
                    "link"@,
                    m.link,
                ),
                "thumbnail"@,
                m.thumbnail,
            ),
            "alt_text"@,
            m.alt_text,
        ),
        "body"@,
        m.body,
    );
    table_put_all(table_put_all(slots, post.extra), defaults_view(defaults).extra)
}

/// The substitution table, built once per post and then only read.
pub struct FieldLookup {
    entries: Vec<(String, String)>,
}

impl View for FieldLookup {
    type V = Seq<(Seq<char>, Seq<char>)>;

    closed spec fn view(&self) -> Seq<(Seq<char>, Seq<char>)> {
        entries_view(self.entries@)
    }
}

impl FieldLookup {
    /// An empty table.
    pub fn new() -> (r: FieldLookup)
        ensures
            r@ == Seq::<(Seq<char>, Seq<char>)>::empty(),
    {
        let r = FieldLookup { entries: Vec::new() };
        proof {
            assert(r@ =~= Seq::<(Seq<char>, Seq<char>)>::empty());
        }
        r
    }

    /// Looks a name up, returning the first value recorded under it.
    pub fn get(&self, name: &String) -> (r: Option<&String>)
        ensures
            match r {
                Some(v) => table_get(self@, name@) == Some(v@),
                None => table_get(self@, name@) is None,
            },
    {
        let n = self.entries.len();
        let mut i: usize = 0;
        proof {
            assert(self@.skip(0) =~= self@);
        }
        while i < n
            invariant
                n == self.entries@.len(),
                i <= n,
                table_get(self@, name@) == table_get(self@.skip(i as int), name@),
            decreases n - i,
        {
            proof {
                assert(self@.skip(i as int).drop_first() =~= self@.skip(i + 1));
                assert(self@[i as int] == (self.entries@[i as int].0@, self.entries@[i as int].1@));
            }
            if self.entries[i].0 == *name {
                return Some(&self.entries[i].1);
            }
            i += 1;
        }
        proof {
            assert(self@.skip(n as int) =~= Seq::<(Seq<char>, Seq<char>)>::empty());
        }
        None
    }

    /// Records a value under a name unless the name is already present.
    pub fn put(&mut self, name: String, value: String)
        ensures
            final(self)@ == table_put(old(self)@, name@, value@),
    {
        let absent = match self.get(&name) {
            Some(_) => false,
            None => true,
        };
        if absent {
            proof {
                assert(entries_view(self.entries@.push((name, value))) =~= self@.push(
                    (name@, value@),
                ));
            }
            self.entries.push((name, value));
        }
    }

    /// Records a standard slot under its field name when it resolved to a
    /// value.
    pub fn put_slot(&mut self, name: &str, value: &Option<String>)
        ensures
            final(self)@ == table_put_slot(old(self)@, name@, opt_view(*value)),
    {
        match value {
            Some(v) => self.put(name.to_owned(), v.clone()),
            None => (),
        }
    }

    /// Records every pair of a list in order.
    pub fn put_all(&mut self, entries: &Vec<(String, String)>)
        ensures
            final(self)@ == table_put_all(old(self)@, entries_view(entries@)),
    {
        let n = entries.len();
        let mut i: usize = 0;
        proof {
            assert(entries_view(entries@).skip(0) =~= entries_view(entries@));
        }
        while i < n
            invariant
                n == entries@.len(),
                table_put_all(self@, entries_view(entries@).skip(i as int)) == table_put_all(
                    old(self)@,
                    entries_view(entries@),
                ),
                i <= n,
            decreases n - i,
        {
            proof {
                assert(entries_view(entries@).skip(i as int).drop_first() =~= entries_view(
                    entries@,
                ).skip(i + 1));
                assert(entries_view(entries@)[i as int] == (
                    entries@[i as int].0@,
                    entries@[i as int].1@,
                ));
            }
            self.put(entries[i].0.clone(), entries[i].1.clone());
            i += 1;
        }
        proof {
            assert(entries_view(entries@).skip(n as int) =~= Seq::<(Seq<char>, Seq<char>)>::empty());
        }
    }

    /// Builds the full substitution table of a post: the already merged
    /// standard slots under their field names, then the post's extra fields,
    /// then the defaults' extra fields.
    pub fn build(
        title: &Option<String>,
        link: &Option<String>,
        thumbnail: &Option<String>,
        alt_text: &Option<String>,
        body: &Option<String>,
        post: &PostOptions,
        defaults: Option<&PostOptions>,
    ) -> (r: FieldLookup)
        requires
            opt_view(*title) == merged(post@, defaults_arg_view(defaults)).title,
            opt_view(*link) == merged(post@, defaults_arg_view(defaults)).link,
            opt_view(*thumbnail) == merged(post@, defaults_arg_view(defaults)).thumbnail,
            opt_view(*alt_text) == merged(post@, defaults_arg_view(defaults)).alt_text,
            opt_view(*body) == merged(post@, defaults_arg_view(defaults)).body,
        ensures
            r@ == field_table(post@, defaults_arg_view(defaults)),
    {
        let mut table = FieldLookup::new();
        table.put_slot("title", title);
        table.put_slot("link", link);
        table.put_slot("thumbnail", thumbnail);
        table.put_slot("alt_text", alt_text);
        table.put_slot("body", body);
        table.put_all(&post.template_fields);
        match defaults {
            Some(d) => table.put_all(&d.template_fields),
            None => {
                proof {
                    assert(entries_view(Seq::<(String, String)>::empty()) =~= Seq::<
                        (Seq<char>, Seq<char>),
                    >::empty());
                    assert(table_put_all(table@, Seq::<(Seq<char>, Seq<char>)>::empty())
                        == table@);
                }
            },
        }
        table
    }
}

/// The view of an optional borrowed defaults record.
pub open spec fn defaults_arg_view(defaults: Option<&PostOptions>) -> Option<FieldsView> {
    match defaults {
        Some(d) => Some(d@),
        None => None,
    }
}

/// What a standard slot contributes to the table under a given name: the
/// merged value of the slot carrying that field name, if any.
pub open spec fn slot_value(
    post: FieldsView,
    defaults: Option<FieldsView>,
    name: Seq<char>,
) -> Option<Seq<char>> {
    let m = merged(post, defaults);
    if name == "title"@ {
        m.title
    } else if name == "link"@ {
        m.link
    } else if name == "thumbnail"@ {
        m.thumbnail
    } else if name == "alt_text"@ {
        m.alt_text
    } else if name == "body"@ {
        m.body
    } else {
        None
    }
}

/// What the full table resolves a name to, stated by priority: a standard
/// slot first, then the post's extra fields, then the defaults' extra fields.
pub open spec fn lookup_value(
    post: FieldsView,
    defaults: Option<FieldsView>,
    name: Seq<char>,
) -> Option<Seq<char>> {
    if slot_value(post, defaults, name) is Some {
        slot_value(post, defaults, name)
    } else if table_get(post.extra, name) is Some {
        table_get(post.extra, name)
    } else {
        table_get(defaults_view(defaults).extra, name)
    }
}

/// Appending a pair changes a lookup only for its name, and only when that
/// name was absent.
proof fn lemma_table_get_push(
    table: Seq<(Seq<char>, Seq<char>)>,
    entry: (Seq<char>, Seq<char>),
    name: Seq<char>,
)
    ensures
        table_get(table.push(entry), name) == (if table_get(table, name) is Some {
            table_get(table, name)
        } else if entry.0 == name {
            Some(entry.1)
        } else {
            None
        }),
    decreases table.len(),
{
    if table.len() == 0 {
        assert(table.push(entry)[0] == entry);
        assert(table.push(entry).drop_first() =~= Seq::<(Seq<char>, Seq<char>)>::empty());
    } else {
        assert(table.push(entry).drop_first() =~= table.drop_first().push(entry));
        lemma_table_get_push(table.drop_first(), entry, name);
    }
}

/// First-writer-wins insertion changes a lookup only for the inserted name,
/// and only when that name was absent.
proof fn lemma_table_get_put(
    table: Seq<(Seq<char>, Seq<char>)>,
    put_name: Seq<char>,
    put_value: Seq<char>,
    name: Seq<char>,
)
    ensures
        table_get(table_put(table, put_name, put_value), name) == (if table_get(
            table,
            name,
        ) is Some {
            table_get(table, name)
        } else if put_name == name {
            Some(put_value)
        } else {
            None
        }),
{
    if table_get(table, put_name) is None {
        lemma_table_get_push(table, (put_name, put_value), name);
    }
}

/// Inserting an optional slot behaves like the insertion of its value, or
/// does nothing when the slot is absent.
proof fn lemma_table_get_put_slot(
    table: Seq<(Seq<char>, Seq<char>)>,
    slot_name: Seq<char>,
    value: Option<Seq<char>>,
    name: Seq<char>,
)
    ensures
        table_get(table_put_slot(table, slot_name, value), name) == (if table_get(
            table,
            name,
        ) is Some {
            table_get(table, name)
        } else if slot_name == name {
            value
        } else {
            None
        }),
{
    match value {
        Some(v) => lemma_table_get_put(table, slot_name, v, name),
        None => (),
    }
}

/// Inserting a whole list resolves a name to what the table already held,
/// else to the list's own first match.
proof fn lemma_table_get_put_all(
    table: Seq<(Seq<char>, Seq<char>)>,
    entries: Seq<(Seq<char>, Seq<char>)>,
    name: Seq<char>,
)
    ensures
        table_get(table_put_all(table, entries), name) == (if table_get(table, name) is Some {
            table_get(table, name)
        } else {
            table_get(entries, name)
        }),
    decreases entries.len(),
{
    if entries.len() > 0 {
        lemma_table_get_put(table, entries[0].0, entries[0].1, name);
        lemma_table_get_put_all(table_put(table, entries[0].0, entries[0].1), entries.drop_first(), name);
    }
}

/// The five standard field names are pairwise distinct.
proof fn lemma_slot_names_distinct()
    ensures
        "title"@ != "link"@,
        "title"@ != "thumbnail"@,
        "title"@ != "alt_text"@,
        "title"@ != "body"@,
        "link"@ != "thumbnail"@,
        "link"@ != "alt_text"@,
        "link"@ != "body"@,
        "thumbnail"@ != "alt_text"@,
        "thumbnail"@ != "body"@,
        "alt_text"@ != "body"@,
{
    reveal_strlit("title");
    reveal_strlit("link");
    reveal_strlit("thumbnail");
    reveal_strlit("alt_text");
    reveal_strlit("body");
    assert("title"@.len() == 5 && "link"@.len() == 4 && "thumbnail"@.len() == 9
        && "alt_text"@.len() == 8 && "body"@.len() == 4);
    assert("link"@[0] == 'l' && "body"@[0] == 'b');
}

/// The full table resolves every name by priority: standard slots first,
/// then the post's extra fields, then the defaults' extra fields.
pub proof fn lemma_field_table_value(
    post: FieldsView,
    defaults: Option<FieldsView>,
    name: Seq<char>,
)
    ensures
        table_get(field_table(post, defaults), name) == lookup_value(post, defaults, name),
{
    let m = merged(post, defaults);
    let empty = Seq::<(Seq<char>, Seq<char>)>::empty();
    let t1 = table_put_slot(empty, "title"@, m.title);
    let t2 = table_put_slot(t1, "link"@, m.link);
    let t3 = table_put_slot(t2, "thumbnail"@, m.thumbnail);
    let t4 = table_put_slot(t3, "alt_text"@, m.alt_text);
    let t5 = table_put_slot(t4, "body"@, m.body);
    lemma_slot_names_distinct();
    lemma_table_get_put_slot(empty, "title"@, m.title, name);
    lemma_table_get_put_slot(t1, "link"@, m.link, name);
    lemma_table_get_put_slot(t2, "thumbnail"@, m.thumbnail, name);
    lemma_table_get_put_slot(t3, "alt_text"@, m.alt_text, name);
    lemma_table_get_put_slot(t4, "body"@, m.body, name);
    assert(table_get(t5, name) == slot_value(post, defaults, name));
    lemma_table_get_put_all(t5, post.extra, name);
    lemma_table_get_put_all(table_put_all(t5, post.extra), defaults_view(defaults).extra, name);
}

/// Shadowing between the two extra maps: a name the post's own extra fields
/// supply is never resolved from the defaults' extra fields. Standard slots,
/// which take precedence over both, are left aside by the precondition.
pub proof fn lemma_post_extra_shadows_defaults(
    post: FieldsView,
    defaults: Option<FieldsView>,
    name: Seq<char>,
)
    requires
        slot_value(post, defaults, name) is None,
        table_get(post.extra, name) is Some,
    ensures
        table_get(field_table(post, defaults), name) == table_get(post.extra, name),
{
    lemma_field_table_value(post, defaults, name);
}

} // verus!
