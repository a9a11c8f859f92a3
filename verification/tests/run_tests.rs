use lemmy_scheduled_post_bot::Config;
use lemmy_scheduled_post_bot::Post;
use lemmy_scheduled_post_bot::PostOptions;
use lemmy_scheduled_post_bot::RunPlan;
use lemmy_scheduled_post_bot::Settings;
use lemmy_scheduled_post_bot::already_posted_message;
use lemmy_scheduled_post_bot::fos;
use lemmy_scheduled_post_bot::from_str;
use lemmy_scheduled_post_bot::login_header;
use lemmy_scheduled_post_bot::next_post_message;
use lemmy_scheduled_post_bot::plan_run;
use lemmy_scheduled_post_bot::require_title;
use lemmy_scheduled_post_bot::submit_message;

fn settings(enabled: Option<bool>) -> Settings {
    Settings {
        instance: "lemmy.example".to_string(),
        community: "news".to_string(),
        username_or_email: "bot".to_string(),
        password: "secret".to_string(),
        enabled,
    }
}

fn titled(post_at: i64, title: &str) -> Post {
    Post {
        post_at,
        options: PostOptions {
            title: Some(title.to_string()),
            link: None,
            body: None,
            thumbnail: None,
            alt_text: None,
            template_fields: Vec::new(),
        },
    }
}

#[test]
fn disabled_config_resolves_but_does_not_publish() {
    // One post due now, no defaults, enabled = false: the plan carries the
    // resolved title and asks for no submission.
    let config = Config {
        settings: settings(Some(false)),
        defaults: None,
        post: vec![titled(100, "Hello")],
    };
    match plan_run(config, 100) {
        RunPlan::DryRun { post } => {
            assert_eq!(post.options.title.as_deref(), Some("Hello"));
        },
        other => panic!("expected a dry run, got {:?}", other),
    }
}

#[test]
fn absent_enabled_flag_means_disabled() {
    let config = Config {
        settings: settings(None),
        defaults: None,
        post: vec![titled(100, "Hello")],
    };
    assert!(matches!(plan_run(config, 100), RunPlan::DryRun { .. }));
}

#[test]
fn enabled_config_plans_a_publication() {
    let config = Config {
        settings: settings(Some(true)),
        defaults: None,
        post: vec![titled(100, "Hello")],
    };
    match plan_run(config, 100) {
        RunPlan::Publish { post } => {
            assert_eq!(post.options.title.as_deref(), Some("Hello"));
        },
        other => panic!("expected a publication, got {:?}", other),
    }
}

#[test]
fn nothing_due_plans_nothing() {
    let config = Config {
        settings: settings(Some(true)),
        defaults: None,
        post: vec![titled(200, "Hello")],
    };
    assert!(matches!(plan_run(config, 100), RunPlan::NothingDue));
}

#[test]
fn plan_resolves_against_defaults() {
    let defaults = PostOptions {
        title: None,
        link: None,
        body: Some("shared {topic}".to_string()),
        thumbnail: None,
        alt_text: None,
        template_fields: vec![("topic".to_string(), "news".to_string())],
    };
    let config = Config {
        settings: settings(Some(false)),
        defaults: Some(defaults),
        post: vec![titled(50, "Hello")],
    };
    match plan_run(config, 100) {
        RunPlan::DryRun { post } => {
            assert_eq!(post.options.body.as_deref(), Some("shared news"));
        },
        other => panic!("expected a dry run, got {:?}", other),
    }
}

#[test]
fn login_with_token_builds_bearer_header() {
    let r = login_header(Some("tok123".to_string()), false, false);
    assert_eq!(r.unwrap(), "Bearer tok123");
}

#[test]
fn login_without_token_reports_pending_state() {
    let r: Result<String, _> = login_header(None, true, false);
    let e = r.unwrap_err();
    assert_eq!(e.message().as_str(), "Login pending, reg = true, email = false");
}

#[test]
fn title_is_required_for_submission() {
    let options = PostOptions {
        title: None,
        link: None,
        body: Some("b".to_string()),
        thumbnail: None,
        alt_text: None,
        template_fields: Vec::new(),
    };
    let e = require_title(&options).unwrap_err();
    assert_eq!(e.message().as_str(), "Posts must have a title!");
    let titled_options = PostOptions { title: Some("T".to_string()), ..options };
    assert_eq!(require_title(&titled_options).unwrap(), "T");
}

#[test]
fn error_carries_its_message() {
    let r: Result<(), _> = from_str("boom");
    assert_eq!(r.unwrap_err().message().as_str(), "boom");
}

#[test]
fn optional_titles_render_quoted() {
    assert_eq!(fos(&Some("Hello".to_string())).text(), "'Hello'");
    assert_eq!(fos(&None).text(), "''");
}

#[test]
fn status_messages_spell_the_title_out() {
    let title = Some("Hello".to_string());
    assert_eq!(next_post_message(&title), "Next post is 'Hello'");
    assert_eq!(
        already_posted_message(&title),
        "Post with title 'Hello' has already been posted"
    );
    assert_eq!(
        submit_message(&title, &"lemmy.example".to_string(), &"news".to_string()),
        "Making post with title 'Hello' to lemmy.example/c/news"
    );
}
