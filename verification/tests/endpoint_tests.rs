use eggchan::http::{ApiError, HttpStatus, Rejection};
use eggchan::listing::{list_boards, list_threads, reply_probe_rejection, show_thread};
use eggchan::responses::{BoardResponse, PostResponse};

fn post(num: i32, reply_to: Option<i32>, comment: &str) -> PostResponse {
    PostResponse { post_num: num, reply_to, time: 1_530_000_000_000_000, comment: comment.to_string() }
}

#[test]
fn status_codes() {
    assert_eq!(HttpStatus::BadRequest.code(), 400);
    assert_eq!(HttpStatus::Forbidden.code(), 403);
    assert_eq!(HttpStatus::NotFound.code(), 404);
    assert_eq!(HttpStatus::InternalServerError.code(), 500);
    assert_eq!(HttpStatus::ServiceUnavailable.code(), 503);
}

#[test]
fn api_error_keeps_code_and_message() {
    let e = ApiError::from(Rejection::new(HttpStatus::NotFound, "Board not found"));
    assert_eq!(e.code, 404);
    assert_eq!(e.message, "Board not found");
}

#[test]
fn boards_are_listed_as_the_store_gave_them() {
    let boards = vec![
        BoardResponse { name: "b".to_string(), description: Some("random".to_string()), category: None },
        BoardResponse { name: "g".to_string(), description: None, category: Some("tech".to_string()) },
    ];
    assert_eq!(list_boards(Ok(boards.clone())), Ok(boards));
}

#[test]
fn failed_board_listing_is_a_server_error() {
    assert_eq!(list_boards(Err(())), Err(HttpStatus::InternalServerError));
}

#[test]
fn unknown_board_has_no_threads() {
    let e = list_threads(Ok(vec![])).unwrap_err();
    assert_eq!(e.status, HttpStatus::NotFound);
    assert_eq!(e.message, "Board not found");
}

#[test]
fn board_without_threads_lists_none() {
    assert_eq!(list_threads(Ok(vec![None])).unwrap(), vec![]);
}

#[test]
fn threads_keep_their_order() {
    let rows = vec![Some(post(1, None, "first")), None, Some(post(4, None, "second"))];
    assert_eq!(list_threads(Ok(rows)).unwrap(), vec![post(1, None, "first"), post(4, None, "second")]);
}

#[test]
fn failed_thread_listing_is_a_server_error() {
    let e = list_threads(Err(())).unwrap_err();
    assert_eq!(e.status, HttpStatus::InternalServerError);
    assert_eq!(e.message, "Internal server error");
}

#[test]
fn a_reply_is_not_shown_as_a_thread() {
    let e = reply_probe_rejection(&Ok(7)).unwrap();
    assert_eq!(e.status, HttpStatus::NotFound);
    assert_eq!(e.message, "Thread not found");
    assert!(reply_probe_rejection(&Err(())).is_none());
}

#[test]
fn thread_is_shown_with_its_replies() {
    let posts = vec![post(3, None, "op"), post(5, Some(3), "re")];
    assert_eq!(show_thread(Ok(posts.clone())).unwrap(), posts);
}

#[test]
fn empty_thread_is_not_found() {
    let e = show_thread(Ok(vec![])).unwrap_err();
    assert_eq!(e.status, HttpStatus::NotFound);
    assert_eq!(e.message, "Thread not found");
    let e = show_thread(Err(())).unwrap_err();
    assert_eq!(e.status, HttpStatus::InternalServerError);
}
