//! The requests that the store executor answers.
use vstd::prelude::*;

verus! {

/// Ask for every board.
#[derive(Clone, Copy, Debug, PartialEq, Eq)]
pub struct ListBoards;

/// Ask for the threads of the board with this name.
#[derive(Clone, Debug, PartialEq, Eq)]
pub struct ListThreads {
    pub board_name: String,
}

/// Make a post on the board with this name, as a reply to `reply_to` where
/// that is given.
#[derive(Clone, Debug, PartialEq, Eq)]
pub struct MakePost {
    pub board_name: String,
    pub reply_to: Option<i32>,
    pub image: Option<Vec<u8>>,
    pub comment: String,
}

} // verus!
