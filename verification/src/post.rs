//! A scheduled post definition and its evaluation: the default merge, the
//! substitution table, and one pass of template interpolation per slot.

use vstd::prelude::*;

use crate::fields::FieldsView;
use crate::fields::PostOptions;
use crate::fields::merged;
use crate::fields::opt_view;
use crate::fields::resolve_slot;
use crate::lookup::FieldLookup;
use crate::lookup::defaults_arg_view;
use crate::lookup::field_table;
use crate::template::Template;
use crate::template::render_text;

verus! {

/// A scheduled post definition.
#[derive(Debug)]
pub struct Post {
    /// When this post should be published, as Unix seconds.
    pub post_at: i64,
    /// The contents of the post.
    pub options: PostOptions,
}

/// One pass of template interpolation over an optional slot.
pub open spec fn render_slot_view(
    slot: Option<Seq<char>>,
    table: Seq<(Seq<char>, Seq<char>)>,
) -> Option<Seq<char>> {
    match slot {
        Some(text) => Some(render_text(text, table)),
        None => None,
    }
}

/// The contents of a post after evaluation: every slot merged with the
/// defaults and interpolated once against the post's substitution table; the
/// extra fields fully consumed into that table.
pub open spec fn evaluated(post: FieldsView, defaults: Option<FieldsView>) -> FieldsView {
    let m = merged(post, defaults);
    let table = field_table(post, defaults);
    FieldsView {
        title: render_slot_view(m.title, table),
        link: render_slot_view(m.link, table),
        body: render_slot_view(m.body, table),
        thumbnail: render_slot_view(m.thumbnail, table),
        alt_text: render_slot_view(m.alt_text, table),
        extra: Seq::empty(),
    }
}

/// Renders an owned optional slot against the substitution table.
fn render_slot(slot: Option<String>, table: &FieldLookup) -> (r: Option<String>)
    ensures
        opt_view(r) == render_slot_view(opt_view(slot), table@),
{
    match slot {
        Some(text) => {
            let template = Template { text };
            Some(template.render(table))
        },
        None => None,
    }
}

impl Post {
    /// Replaces missing fields with default values and interpolates template
    /// placeholders, once, in every standard slot.
    pub fn evaluate(self, defaults: Option<&PostOptions>) -> (r: Post)
        ensures
            r.post_at == self.post_at,
            r.options@ == evaluated(self.options@, defaults_arg_view(defaults)),
    {
        let Post { post_at, options } = self;

        let r_title = resolve_slot(
            &options.title,
            match defaults {
                Some(d) => Some(&d.title),
                None => None,
            },
        );
        let r_link = resolve_slot(
            &options.link,
            match defaults {
                Some(d) => Some(&d.link),
                None => None,
            },
        );
        let r_body = resolve_slot(
            &options.body,
            match defaults {
                Some(d) => Some(&d.body),
                None => None,
            },
        );
        let r_thumbnail = resolve_slot(
            &options.thumbnail,
            match defaults {
                Some(d) => Some(&d.thumbnail),
                None => None,
            },
        );
        let r_alt_text = resolve_slot(
            &options.alt_text,
            match defaults {
                Some(d) => Some(&d.alt_text),
                None => None,
            },
        );

        let table = FieldLookup::build(
            &r_title,
            &r_link,
            &r_thumbnail,
            &r_alt_text,
            &r_body,
            &options,
            defaults,
        );

        let evaluated_options = PostOptions {
            title: render_slot(r_title, &table),
            link: render_slot(r_link, &table),
            body: render_slot(r_body, &table),
            thumbnail: render_slot(r_thumbnail, &table),
            alt_text: render_slot(r_alt_text, &table),
            template_fields: Vec::new(),
        };
        proof {
            assert(evaluated_options@.extra =~= Seq::<(Seq<char>, Seq<char>)>::empty());
            assert(evaluated_options@ =~= evaluated(options@, defaults_arg_view(defaults)));
        }
        Post { post_at, options: evaluated_options }
    }
}

} // verus!
