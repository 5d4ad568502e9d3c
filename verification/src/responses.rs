//! The bodies that the endpoints answer with.
use vstd::prelude::*;

verus! {

/// A board as listed by `GET /boards`: its name, its description and the
/// name of its category, where it has them.
#[derive(Clone, Debug, PartialEq, Eq)]
pub struct BoardResponse {
    pub name: String,
    pub description: Option<String>,
    pub category: Option<String>,
}

/// A post as shown in a board's thread list or in a thread.
///
/// `time` is the moment the post was made, in microseconds since the Unix
/// epoch (UTC).
#[derive(Clone, Debug, PartialEq, Eq)]
pub struct PostResponse {
    pub post_num: i32,
    pub reply_to: Option<i32>,
    pub time: i64,
    pub comment: String,
}

/// The answer to a successful post: the board it went to and the number the
/// store gave it.
#[derive(Clone, Debug, PartialEq, Eq)]
pub struct PostCreatedResponse {
    pub board: String,
    pub post_num: i32,
}

impl View for PostCreatedResponse {
    type V = (Seq<char>, i32);

    open spec fn view(&self) -> (Seq<char>, i32) {
        (self.board@, self.post_num)
    }
}

/// Where an uploaded image is stored.
#[derive(Clone, Debug, PartialEq, Eq)]
pub struct ImageResponse {
    pub filepath: String,
}

} // verus!
