//! The whole configuration of one run.

use vstd::prelude::*;

use crate::fields::PostOptions;
use crate::post::Post;
use crate::settings::Settings;

verus! {

/// Contains the necessary information to make one scheduled post.
#[derive(Debug)]
pub struct Config {
    /// Post destination information and general settings.
    pub settings: Settings,
    /// Fields of this record are used where a post leaves them out.
    pub defaults: Option<PostOptions>,
    /// The list of scheduled posts.
    pub post: Vec<Post>,
}

} // verus!
