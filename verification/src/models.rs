//! The rows of the store's tables.
use vstd::prelude::*;

verus! {

/// A row of `categories`.
#[derive(Clone, Debug, PartialEq, Eq)]
pub struct Category {
    pub id: i32,
    pub name: String,
}

/// A row of `boards`.
#[derive(Clone, Debug, PartialEq, Eq)]
pub struct Board {
    pub id: i32,
    pub name: String,
    pub description: Option<String>,
    pub category: Option<i32>,
}

/// A row of `images`.
#[derive(Clone, Debug, PartialEq, Eq)]
pub struct Image {
    pub id: i32,
    pub filepath: String,
    pub thumbpath: String,
}

/// A row of `posts`; `time` is in microseconds since the Unix epoch (UTC).
#[derive(Clone, Debug, PartialEq, Eq)]
pub struct Post {
    pub board_id: i32,
    pub post_num: i32,
    pub reply_to: Option<i32>,
    pub image: Option<i32>,
    pub time: i64,
    pub comment: String,
}

/// The columns given when a post is inserted; the store fills in the post
/// number and the time.
#[derive(Clone, Debug, PartialEq, Eq)]
pub struct PostInsert {
    pub board_id: i32,
    pub reply_to: Option<i32>,
    pub image: Option<i32>,
    pub comment: String,
}

} // verus!
