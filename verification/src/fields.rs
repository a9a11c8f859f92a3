//! The contents of a post, and the per-slot merge of a post's own fields with
//! the shared defaults.
//!
//! Extra template fields are kept as name/text pairs: the text is the rendered
//! form of whatever scalar the configuration supplied, so the substitution
//! logic works on plain strings.

use vstd::prelude::*;

verus! {

/// The contents of a post. Slots that are `None` fall back to the matching
/// slot of the configured defaults, or stay absent.
#[derive(Debug)]
pub struct PostOptions {
    /// The title of the post.
    pub title: Option<String>,
    /// A URL the post will discuss.
    pub link: Option<String>,
    /// The main text content of the post.
    pub body: Option<String>,
    /// A small image to display beside the post.
    pub thumbnail: Option<String>,
    /// A text description of the thumbnail.
    pub alt_text: Option<String>,
    /// Miscellaneous named values that can be interpolated into the standard
    /// slots above, each already rendered as text.
    pub template_fields: Vec<(String, String)>,
}

/// The mathematical shape of `PostOptions`: each slot a sequence of
/// characters, the extra fields an ordered list of name/text pairs.
#[verifier::ext_equal]
pub struct FieldsView {
    pub title: Option<Seq<char>>,
    pub link: Option<Seq<char>>,
    pub body: Option<Seq<char>>,
    pub thumbnail: Option<Seq<char>>,
    pub alt_text: Option<Seq<char>>,
    pub extra: Seq<(Seq<char>, Seq<char>)>,
}

/// The view of an optional string slot.
pub open spec fn opt_view(slot: Option<String>) -> Option<Seq<char>> {
    match slot {
        Some(s) => Some(s@),
        None => None,
    }
}

/// The view of a list of name/text pairs.
pub open spec fn entries_view(entries: Seq<(String, String)>) -> Seq<(Seq<char>, Seq<char>)> {
    entries.map_values(|e: (String, String)| (e.0@, e.1@))
}

impl View for PostOptions {
    type V = FieldsView;

    open spec fn view(&self) -> FieldsView {
        FieldsView {
            title: opt_view(self.title),
            link: opt_view(self.link),
            body: opt_view(self.body),
            thumbnail: opt_view(self.thumbnail),
            alt_text: opt_view(self.alt_text),
            extra: entries_view(self.template_fields@),
        }
    }
}

/// A record with no field set at all: what absent defaults amount to.
pub open spec fn no_fields() -> FieldsView {
    FieldsView {
        title: None,
        link: None,
        body: None,
        thumbnail: None,
        alt_text: None,
        extra: Seq::empty(),
    }
}

/// The defaults record to merge against, absent defaults meaning none set.
pub open spec fn defaults_view(defaults: Option<FieldsView>) -> FieldsView {
    match defaults {
        Some(d) => d,
        None => no_fields(),
    }
}

/// Per-slot fallback: the post's own value when present, else the default.
pub open spec fn coalesce(own: Option<Seq<char>>, fallback: Option<Seq<char>>) -> Option<
    Seq<char>,
> {
    if own is Some {
        own
    } else {
        fallback
    }
}

/// The five standard slots after the default merge, before template
/// interpolation. The extra fields are fully consumed by the substitution
/// table, so the merged record carries none.
pub open spec fn merged(post: FieldsView, defaults: Option<FieldsView>) -> FieldsView {
    let d = defaults_view(defaults);
    FieldsView {
        title: coalesce(post.title, d.title),
        link: coalesce(post.link, d.link),
        body: coalesce(post.body, d.body),
        thumbnail: coalesce(post.thumbnail, d.thumbnail),
        alt_text: coalesce(post.alt_text, d.alt_text),
        extra: Seq::empty(),
    }
}

/// A slot the post sets itself is never replaced by a default, whatever the
/// defaults hold.
pub proof fn lemma_explicit_field_kept(post: FieldsView, defaults: Option<FieldsView>)
    ensures
        post.title is Some ==> merged(post, defaults).title == post.title,
        post.link is Some ==> merged(post, defaults).link == post.link,
        post.body is Some ==> merged(post, defaults).body == post.body,
        post.thumbnail is Some ==> merged(post, defaults).thumbnail == post.thumbnail,
        post.alt_text is Some ==> merged(post, defaults).alt_text == post.alt_text,
{
}

/// A slot absent from both the post and the defaults stays absent.
pub proof fn lemma_absent_field_stays_absent(post: FieldsView, defaults: Option<FieldsView>)
    ensures
        post.title is None && defaults_view(defaults).title is None ==> merged(
            post,
            defaults,
        ).title is None,
        post.link is None && defaults_view(defaults).link is None ==> merged(
            post,
            defaults,
        ).link is None,
        post.body is None && defaults_view(defaults).body is None ==> merged(
            post,
            defaults,
        ).body is None,
        post.thumbnail is None && defaults_view(defaults).thumbnail is None ==> merged(
            post,
            defaults,
        ).thumbnail is None,
        post.alt_text is None && defaults_view(defaults).alt_text is None ==> merged(
            post,
            defaults,
        ).alt_text is None,
{
}

/// Clones an optional string slot.
pub fn clone_opt(slot: &Option<String>) -> (r: Option<String>)
    ensures
        r == *slot,
{
    match slot {
        Some(s) => Some(s.clone()),
        None => None,
    }
}

/// The default merge for one slot: the post's own value when present, else
/// the matching slot of the defaults record when there is one.
pub fn resolve_slot(own: &Option<String>, fallback: Option<&Option<String>>) -> (r: Option<
    String,
>)
    ensures
        opt_view(r) == coalesce(
            opt_view(*own),
            match fallback {
                Some(f) => opt_view(*f),
                None => None,
            },
        ),
{
    match own {
        Some(s) => Some(s.clone()),
        None => match fallback {
            Some(f) => clone_opt(f),
            None => None,
        },
    }
}

} // verus!
