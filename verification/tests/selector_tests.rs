use lemmy_scheduled_post_bot::Post;
use lemmy_scheduled_post_bot::PostOptions;
use lemmy_scheduled_post_bot::select;

fn scheduled(post_at: i64) -> Post {
    Post {
        post_at,
        options: PostOptions {
            title: None,
            link: None,
            body: None,
            thumbnail: None,
            alt_text: None,
            template_fields: Vec::new(),
        },
    }
}

#[test]
fn selector_picks_most_recently_due() {
    let posts = vec![scheduled(10), scheduled(80), scheduled(40)];
    assert_eq!(select(&posts, 100), Some(1));
}

#[test]
fn selector_ignores_future_posts() {
    let posts = vec![scheduled(10), scheduled(150), scheduled(40)];
    assert_eq!(select(&posts, 100), Some(2));
}

#[test]
fn selector_accepts_post_due_exactly_now() {
    let posts = vec![scheduled(100)];
    assert_eq!(select(&posts, 100), Some(0));
}

#[test]
fn selector_empty_when_all_posts_are_future() {
    let posts = vec![scheduled(101), scheduled(500)];
    assert_eq!(select(&posts, 100), None);
}

#[test]
fn selector_empty_without_posts() {
    assert_eq!(select(&Vec::new(), 100), None);
}

#[test]
fn selector_tie_goes_to_earliest_entry() {
    let posts = vec![scheduled(10), scheduled(70), scheduled(70)];
    assert_eq!(select(&posts, 100), Some(1));
}
