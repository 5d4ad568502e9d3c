use eggchan::http::HttpStatus;
use eggchan::messages::MakePost;
use eggchan::posting::{post_comment, post_thread, NewPost, PostPhase, StoreReply, StoreRequest};

fn form(comment: &str) -> (Vec<(String, String)>, Vec<u8>) {
    let body = format!(
        "--b0\r\nContent-Disposition: form-data; name=\"comment\"\r\n\r\n{}\r\n--b0--\r\n",
        comment
    );
    (vec![("boundary".to_string(), "b0".to_string())], body.into_bytes())
}

fn refusal(q: StoreRequest) -> (HttpStatus, String) {
    match q {
        StoreRequest::Respond(Err(e)) => (e.status, e.message),
        _ => panic!("expected a refusal"),
    }
}

#[test]
fn new_thread_flow() {
    let (params, body) = form("first post");
    let (mut flow, q) = post_thread("b".to_string(), &params, Some(&body[..])).unwrap();
    assert!(matches!(q, StoreRequest::FindBoardId { ref name } if name == "b"));
    let q = flow.step(StoreReply::BoardId(Ok(2)));
    match q {
        StoreRequest::InsertPost { board_id, reply_to, comment } => {
            assert_eq!(board_id, 2);
            assert_eq!(reply_to, None);
            assert_eq!(comment, "first post");
        },
        _ => panic!("expected an insert"),
    }
    match flow.step(StoreReply::Inserted(Ok(41))) {
        StoreRequest::Respond(Ok(created)) => {
            assert_eq!(created.board, "b");
            assert_eq!(created.post_num, 41);
        },
        _ => panic!("expected the created post"),
    }
    assert_eq!(flow.phase, PostPhase::Finished);
}

#[test]
fn reply_flow_checks_the_thread() {
    let (params, body) = form("a reply");
    let (mut flow, _) = post_comment("g".to_string(), 9, &params, Some(&body[..])).unwrap();
    assert!(matches!(flow.step(StoreReply::BoardId(Ok(5))), StoreRequest::FindOpeningPost { board_id: 5, post_num: 9 }));
    match flow.step(StoreReply::OpeningPosts(Ok(vec![9]))) {
        StoreRequest::InsertPost { board_id, reply_to, comment } => {
            assert_eq!((board_id, reply_to, comment.as_str()), (5, Some(9), "a reply"));
        },
        _ => panic!("expected an insert"),
    }
    match flow.step(StoreReply::Inserted(Ok(10))) {
        StoreRequest::Respond(Ok(created)) => assert_eq!((created.board.as_str(), created.post_num), ("g", 10)),
        _ => panic!("expected the created post"),
    }
}

#[test]
fn reply_to_a_reply_is_refused() {
    let (params, body) = form("a reply");
    let (mut flow, _) = post_comment("g".to_string(), 9, &params, Some(&body[..])).unwrap();
    flow.step(StoreReply::BoardId(Ok(5)));
    let (status, message) = refusal(flow.step(StoreReply::OpeningPosts(Ok(vec![]))));
    assert_eq!(status, HttpStatus::Forbidden);
    assert_eq!(message, "Replies must be to the first post in a thread");
    assert_eq!(flow.phase, PostPhase::Finished);
}

#[test]
fn failed_thread_check_is_a_server_error() {
    let (params, body) = form("x");
    let (mut flow, _) = post_comment("g".to_string(), 9, &params, Some(&body[..])).unwrap();
    flow.step(StoreReply::BoardId(Ok(5)));
    let (status, message) = refusal(flow.step(StoreReply::OpeningPosts(Err(()))));
    assert_eq!(status, HttpStatus::InternalServerError);
    assert_eq!(message, "Internal server error");
}

#[test]
fn post_to_missing_board_is_forbidden() {
    let (params, body) = form("x");
    let (mut flow, _) = post_thread("nope".to_string(), &params, Some(&body[..])).unwrap();
    let (status, message) = refusal(flow.step(StoreReply::BoardId(Err(()))));
    assert_eq!(status, HttpStatus::Forbidden);
    assert_eq!(message, "Board does not exist");
}

#[test]
fn failed_insert_is_a_server_error() {
    let (params, body) = form("x");
    let (mut flow, _) = post_thread("b".to_string(), &params, Some(&body[..])).unwrap();
    flow.step(StoreReply::BoardId(Ok(1)));
    let (status, _) = refusal(flow.step(StoreReply::Inserted(Err(()))));
    assert_eq!(status, HttpStatus::InternalServerError);
}

#[test]
fn an_answer_to_another_request_asks_again() {
    let (params, body) = form("x");
    let (mut flow, _) = post_thread("b".to_string(), &params, Some(&body[..])).unwrap();
    assert!(matches!(flow.step(StoreReply::Inserted(Ok(3))), StoreRequest::FindBoardId { ref name } if name == "b"));
    assert_eq!(flow.phase, PostPhase::AwaitBoard);
}

#[test]
fn post_without_comment_is_refused_before_the_store_is_asked() {
    let (params, body) = form("");
    let e = post_thread("b".to_string(), &params, Some(&body[..])).err().unwrap();
    assert_eq!(e.status, HttpStatus::BadRequest);
    assert_eq!(e.message, "Comment must be non-empty UTF8");
    let e = post_comment("b".to_string(), 1, &vec![], Some(&body[..])).err().unwrap();
    assert_eq!(e.message, "`Content-Type: multipart/form-data` boundary param not provided");
}

#[test]
fn message_reply_is_checked() {
    let msg = MakePost { board_name: "b".to_string(), reply_to: Some(4), image: None, comment: "m".to_string() };
    let (mut flow, _) = NewPost::for_message(msg);
    assert!(matches!(flow.step(StoreReply::BoardId(Ok(8))), StoreRequest::FindOpeningPost { board_id: 8, post_num: 4 }));
    let (status, message) = refusal(flow.step(StoreReply::OpeningPosts(Ok(vec![]))));
    assert_eq!(status, HttpStatus::Forbidden);
    assert_eq!(message, "Replies must be to the first post in a thread");
}

#[test]
fn message_reply_to_an_opening_post_is_inserted() {
    let msg = MakePost { board_name: "b".to_string(), reply_to: Some(4), image: None, comment: "m".to_string() };
    let (mut flow, _) = NewPost::for_message(msg);
    flow.step(StoreReply::BoardId(Ok(8)));
    match flow.step(StoreReply::OpeningPosts(Ok(vec![4]))) {
        StoreRequest::InsertPost { board_id, reply_to, .. } => assert_eq!((board_id, reply_to), (8, Some(4))),
        _ => panic!("expected an insert"),
    }
}

#[test]
fn message_thread_is_inserted_without_check() {
    let msg = MakePost { board_name: "b".to_string(), reply_to: None, image: None, comment: "m".to_string() };
    let (mut flow, _) = NewPost::for_message(msg);
    match flow.step(StoreReply::BoardId(Ok(8))) {
        StoreRequest::InsertPost { board_id, reply_to, .. } => assert_eq!((board_id, reply_to), (8, None)),
        _ => panic!("expected an insert"),
    }
}

#[test]
fn a_finished_flow_stays_finished() {
    let (params, body) = form("x");
    let (mut flow, _) = post_thread("nope".to_string(), &params, Some(&body[..])).unwrap();
    flow.step(StoreReply::BoardId(Err(())));
    let (status, _) = refusal(flow.step(StoreReply::BoardId(Ok(1))));
    assert_eq!(status, HttpStatus::InternalServerError);
    assert_eq!(flow.phase, PostPhase::Finished);
}
