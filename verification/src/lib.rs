//! Core pipeline of a scheduled community-post bot: picking the post whose
//! publish time most recently passed, merging its sparse fields with shared
//! defaults, interpolating `{name}` template placeholders, and deciding from a
//! newest-first post listing whether the post was already published.
//!
//! All network traffic and file handling live outside this crate; the types
//! here hold plain values (timestamps as Unix seconds, template scalars as
//! their rendered text) so that every decision the bot makes is verified.

pub mod config;
pub mod error;
pub mod fields;
pub mod lookup;
pub mod post;
pub mod run;
pub mod scan;
pub mod select;
pub mod settings;
pub mod template;
pub mod util;

pub use config::Config;
pub use error::Error;
pub use error::from_lemmy_error;
pub use error::from_str;
pub use fields::PostOptions;
pub use lookup::FieldLookup;
pub use post::Post;
pub use run::RunPlan;
pub use run::already_posted_message;
pub use run::login_header;
pub use run::next_post_message;
pub use run::plan_run;
pub use run::plan_run_now;
pub use run::require_title;
pub use run::submit_message;
pub use scan::RemoteRecord;
pub use scan::scan_conclude;
pub use scan::scan_page;
pub use select::select;
pub use settings::Settings;
pub use template::Template;
pub use util::OptionString;
pub use util::fos;
