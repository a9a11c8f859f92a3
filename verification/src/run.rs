//! The decisions of one run, separated from the network calls that carry
//! them out: which post to act on, whether the run is a dry run, what a
//! successful login turns into, and the status messages a run reports.
//!
//! The caller performs the outside work (fetching pages, logging in,
//! submitting) and feeds the plain outcomes back into these functions.

use vstd::prelude::*;

use crate::config::Config;
use crate::error::Error;
use crate::error::from_str;
use crate::fields::FieldsView;
use crate::fields::PostOptions;
use crate::fields::opt_view;
use crate::post::Post;
use crate::post::evaluated;
use crate::select::best_due;
use crate::select::select;
use crate::util::fos;
use crate::util::quoted;

verus! {

/// What one run should do after looking at the configuration and the clock.
#[derive(Debug)]
pub enum RunPlan {
    /// No post is due: the run does nothing.
    NothingDue,
    /// A post is due but the configuration is disabled: report the resolved
    /// post, submit nothing.
    DryRun { post: Post },
    /// A post is due and the configuration is enabled: check for a duplicate
    /// and submit.
    Publish { post: Post },
}

/// The view of an owned optional defaults record.
pub open spec fn owned_defaults_view(defaults: Option<PostOptions>) -> Option<FieldsView> {
    match defaults {
        Some(d) => Some(d@),
        None => None,
    }
}

/// Whether `post` is the due definition the configuration selects, after the
/// default merge and template interpolation.
pub open spec fn is_evaluated_choice(post: Post, config: Config, now: i64) -> bool {
    &&& best_due(config.post@, now) matches Some(i)
    &&& post.post_at == config.post@[i].post_at
    &&& post.options@ == evaluated(config.post@[i].options@, owned_defaults_view(config.defaults))
}

/// What a correct plan for a configuration at a moment looks like.
pub open spec fn run_plan_ok(plan: RunPlan, config: Config, now: i64) -> bool {
    match plan {
        RunPlan::NothingDue => best_due(config.post@, now) is None,
        RunPlan::DryRun { post } => !config.settings.is_enabled() && is_evaluated_choice(
            post,
            config,
            now,
        ),
        RunPlan::Publish { post } => config.settings.is_enabled() && is_evaluated_choice(
            post,
            config,
            now,
        ),
    }
}

/// Plans one run: selects the due post, if any, resolves it against the
/// defaults, and says whether it may actually be submitted.
pub fn plan_run(config: Config, now: i64) -> (r: RunPlan)
    ensures
        run_plan_ok(r, config, now),
{
    let enabled = config.settings.enabled_flag();
    let Config { settings: _, defaults, post: mut posts } = config;
    match select(&posts, now) {
        None => RunPlan::NothingDue,
        Some(i) => {
            let chosen = posts.remove(i);
            let post = chosen.evaluate(
                match &defaults {
                    Some(d) => Some(d),
                    None => None,
                },
            );
            if enabled {
                RunPlan::Publish { post }
            } else {
                RunPlan::DryRun { post }
            }
        },
    }
}

/// Relies on chrono::Utc::now for the wall-clock time of the run, reported
/// as Unix seconds; nothing further is assumed of the clock's value.
#[verifier::external_body]
fn now_timestamp() -> i64 {
    chrono::Utc::now().timestamp()
}

/// Plans one run at the present moment, also reporting which moment the
/// clock gave: the plan is exactly the plan for that timestamp.
pub fn plan_run_now(config: Config) -> (r: (i64, RunPlan))
    ensures
        run_plan_ok(r.1, config, r.0),
{
    let now = now_timestamp();
    let plan = plan_run(config, now);
    (now, plan)
}

/// A boolean as status messages spell it.
pub open spec fn bool_text(b: bool) -> Seq<char> {
    if b {
        "true"@
    } else {
        "false"@
    }
}

/// The message reported when a login stays pending instead of returning a
/// session token.
pub open spec fn login_pending_message(
    registration_created: bool,
    verify_email_sent: bool,
) -> Seq<char> {
    "Login pending, reg = "@ + bool_text(registration_created) + ", email = "@ + bool_text(
        verify_email_sent,
    )
}

/// Turns a login outcome into the authorization header to send from then on,
/// or into the error a pending login is reported as.
pub fn login_header(jwt: Option<String>, registration_created: bool, verify_email_sent: bool) -> (r:
    Result<String, Box<Error>>)
    ensures
        jwt matches Some(token) ==> (r matches Ok(h) && h@ == "Bearer "@ + token@),
        jwt is None ==> (r matches Err(e) && e.spec_message() == login_pending_message(
            registration_created,
            verify_email_sent,
        )),
{
    match jwt {
        Some(token) => {
            let mut header = "Bearer ".to_owned();
            header.append(token.as_str());
            Ok(header)
        },
        None => {
            let mut message = "Login pending, reg = ".to_owned();
            message.append(if registration_created { "true" } else { "false" });
            message.append(", email = ");
            message.append(if verify_email_sent { "true" } else { "false" });
            from_str(message.as_str())
        },
    }
}

/// Hands the resolved title out for submission, or reports the one fatal
/// resolution error: a post that still has no title.
pub fn require_title(options: &PostOptions) -> (r: Result<String, Box<Error>>)
    ensures
        options.title matches Some(t) ==> (r matches Ok(s) && s@ == t@),
        options.title is None ==> (r matches Err(e) && e.spec_message()
            == "Posts must have a title!"@),
{
    match &options.title {
        Some(t) => Ok(t.clone()),
        None => from_str("Posts must have a title!"),
    }
}

/// The dry-run report: which post would have been made.
pub fn next_post_message(title: &Option<String>) -> (r: String)
    ensures
        r@ == "Next post is "@ + quoted(opt_view(*title)),
{
    let mut message = "Next post is ".to_owned();
    let wrapped = fos(title);
    let text = wrapped.text();
    message.append(text.as_str());
    message
}

/// The report of a duplicate: the post was found already published.
pub fn already_posted_message(title: &Option<String>) -> (r: String)
    ensures
        r@ == "Post with title "@ + quoted(opt_view(*title)) + " has already been posted"@,
{
    let mut message = "Post with title ".to_owned();
    let wrapped = fos(title);
    let text = wrapped.text();
    message.append(text.as_str());
    message.append(" has already been posted");
    message
}

/// The report of an actual submission: which post goes to which community.
pub fn submit_message(title: &Option<String>, instance: &String, community: &String) -> (r: String)
    ensures
        r@ == "Making post with title "@ + quoted(opt_view(*title)) + " to "@ + instance@ + "/c/"@
            + community@,
{
    let mut message = "Making post with title ".to_owned();
    let wrapped = fos(title);
    let text = wrapped.text();
    message.append(text.as_str());
    message.append(" to ");
    message.append(instance.as_str());
    message.append("/c/");
    message.append(community.as_str());
    message
}

} // verus!
