use lemmy_scheduled_post_bot::Post;
use lemmy_scheduled_post_bot::PostOptions;

fn options(title: Option<&str>, body: Option<&str>, extra: &[(&str, &str)]) -> PostOptions {
    PostOptions {
        title: title.map(|s| s.to_string()),
        link: None,
        body: body.map(|s| s.to_string()),
        thumbnail: None,
        alt_text: None,
        template_fields: extra
            .iter()
            .map(|(k, v)| (k.to_string(), v.to_string()))
            .collect(),
    }
}

fn post(title: Option<&str>, body: Option<&str>, extra: &[(&str, &str)]) -> Post {
    Post { post_at: 0, options: options(title, body, extra) }
}

#[test]
fn resolver_explicit_field_is_kept() {
    let defaults = options(Some("default title"), Some("default body"), &[]);
    let resolved = post(Some("own title"), None, &[]).evaluate(Some(&defaults));
    assert_eq!(resolved.options.title.as_deref(), Some("own title"));
}

#[test]
fn resolver_missing_field_falls_back_to_default() {
    let defaults = options(Some("default title"), Some("default body"), &[]);
    let resolved = post(Some("own title"), None, &[]).evaluate(Some(&defaults));
    assert_eq!(resolved.options.body.as_deref(), Some("default body"));
}

#[test]
fn resolver_merge_is_per_field_not_per_record() {
    let defaults = options(Some("default title"), Some("default body"), &[]);
    let resolved = post(None, Some("own body"), &[]).evaluate(Some(&defaults));
    assert_eq!(resolved.options.title.as_deref(), Some("default title"));
    assert_eq!(resolved.options.body.as_deref(), Some("own body"));
}

#[test]
fn resolver_absent_everywhere_stays_absent() {
    let defaults = options(Some("default title"), None, &[]);
    let resolved = post(Some("t"), None, &[]).evaluate(Some(&defaults));
    assert_eq!(resolved.options.body, None);
    assert_eq!(resolved.options.link, None);
}

#[test]
fn resolver_without_defaults_keeps_own_fields_only() {
    let resolved = post(Some("t"), None, &[]).evaluate(None);
    assert_eq!(resolved.options.title.as_deref(), Some("t"));
    assert_eq!(resolved.options.body, None);
}

#[test]
fn resolver_consumes_extra_fields() {
    let resolved = post(Some("t"), None, &[("k", "v")]).evaluate(None);
    assert!(resolved.options.template_fields.is_empty());
}

#[test]
fn resolver_keeps_publish_time() {
    let p = Post { post_at: 777, options: options(Some("t"), None, &[]) };
    assert_eq!(p.evaluate(None).post_at, 777);
}

#[test]
fn templating_uses_sibling_fields() {
    let resolved = post(Some("News: {topic}"), Some("{title}"), &[("topic", "rain")])
        .evaluate(None);
    assert_eq!(resolved.options.title.as_deref(), Some("News: rain"));
    // The body sees the untemplated sibling title, not its rendered output.
    assert_eq!(resolved.options.body.as_deref(), Some("News: {topic}"));
}

#[test]
fn templating_draws_from_default_extra_fields() {
    let defaults = options(None, None, &[("site", "example.com")]);
    let resolved = post(Some("see {site}"), None, &[]).evaluate(Some(&defaults));
    assert_eq!(resolved.options.title.as_deref(), Some("see example.com"));
}

#[test]
fn shadowing_post_extra_beats_default_extra() {
    let defaults = options(None, None, &[("who", "default author")]);
    let resolved = post(Some("by {who}"), None, &[("who", "own author")])
        .evaluate(Some(&defaults));
    assert_eq!(resolved.options.title.as_deref(), Some("by own author"));
}

#[test]
fn shadowing_standard_slot_beats_extra_fields() {
    let defaults = options(None, None, &[("title", "from defaults extra")]);
    let resolved = post(Some("mine"), Some("b: {title}"), &[("title", "from post extra")])
        .evaluate(Some(&defaults));
    assert_eq!(resolved.options.body.as_deref(), Some("b: mine"));
}
