//! Making a post: a flow of requests to the store, each decided from the
//! store's answer to the one before.
//!
//! The flow asks for the board's id; for a reply it then asks whether the post
//! it replies to is the opening post of a thread on that board; it then asks for the
//! insert; and it ends by answering the client. The caller performs each
//! `StoreRequest` and hands the store's answer back as a `StoreReply`.
use vstd::prelude::*;
use crate::form::{body_view, form_comment, params_view, read_form_comment};
use crate::http::{HttpStatus, Rejection};
use crate::messages::MakePost;
use crate::responses::PostCreatedResponse;

verus! {

/// Where a posting flow stands.
#[derive(Clone, Copy, Debug, PartialEq, Eq, Structural)]
pub enum PostPhase {
    /// Waiting for the id of the board.
    AwaitBoard,
    /// Waiting to learn whether `thread` is the opening post of a thread on
    /// the board `board_id`.
    AwaitThreadCheck { board_id: i32, thread: i32 },
    /// Waiting for the insert into the board.
    AwaitInsert { board_id: i32 },
    /// The client has been answered.
    Finished,
}

/// A posting flow, seen as plain values.
pub struct PostFlow {
    pub board: Seq<char>,
    pub reply_to: Option<i32>,
    pub comment: Seq<char>,
    pub phase: PostPhase,
}

/// A posting flow: the board named by the client, the post replied to (which
/// must be the opening post of a thread on that board), the comment, and where
/// the flow stands.
pub struct NewPost {
    pub board: String,
    pub reply_to: Option<i32>,
    pub comment: String,
    pub phase: PostPhase,
}

impl View for NewPost {
    type V = PostFlow;

    open spec fn view(&self) -> PostFlow {
        PostFlow {
            board: self.board@,
            reply_to: self.reply_to,
            comment: self.comment@,
            phase: self.phase,
        }
    }
}

/// What the flow asks of the store, or its answer to the client.
pub enum StoreRequest {
    /// The id of the board with this name.
    FindBoardId { name: String },
    /// The posts of the board `board_id` numbered `post_num` that reply to
    /// nothing.
    FindOpeningPost { board_id: i32, post_num: i32 },
    /// Insert a post into the board; the store gives it its number.
    InsertPost { board_id: i32, reply_to: Option<i32>, comment: String },
    /// Answer the client.
    Respond(Result<PostCreatedResponse, Rejection>),
}

pub enum RequestView {
    FindBoardId(Seq<char>),
    FindOpeningPost(i32, i32),
    InsertPost(i32, Option<i32>, Seq<char>),
    Respond(Result<(Seq<char>, i32), (HttpStatus, Seq<char>)>),
}

impl View for StoreRequest {
    type V = RequestView;

    open spec fn view(&self) -> RequestView {
        match self {
            StoreRequest::FindBoardId { name } => RequestView::FindBoardId(name@),
            StoreRequest::FindOpeningPost { board_id, post_num } => RequestView::FindOpeningPost(
                *board_id,
                *post_num,
            ),
            StoreRequest::InsertPost { board_id, reply_to, comment } => RequestView::InsertPost(
                *board_id,
                *reply_to,
                comment@,
            ),
            StoreRequest::Respond(r) => RequestView::Respond(
                match r {
                    Ok(c) => Ok(c@),
                    Err(e) => Err(e@),
                },
            ),
        }
    }
}

/// The store's answer to the request before; `Err` where the store failed
/// (or, for `BoardId`, found no such board).
pub enum StoreReply {
    BoardId(Result<i32, ()>),
    OpeningPosts(Result<Vec<i32>, ()>),
    Inserted(Result<i32, ()>),
}

pub enum ReplyView {
    BoardId(Result<i32, ()>),
    OpeningPosts(Result<Seq<i32>, ()>),
    Inserted(Result<i32, ()>),
}

impl View for StoreReply {
    type V = ReplyView;

    open spec fn view(&self) -> ReplyView {
        match self {
            StoreReply::BoardId(r) => ReplyView::BoardId(*r),
            StoreReply::OpeningPosts(r) => ReplyView::OpeningPosts(
                match r {
                    Ok(v) => Ok(v@),
                    Err(_) => Err(()),
                },
            ),
            StoreReply::Inserted(r) => ReplyView::Inserted(*r),
        }
    }
}

/// A new flow, before the store has been asked anything.
pub open spec fn initial_flow(
    board: Seq<char>,
    reply_to: Option<i32>,
    comment: Seq<char>,
) -> PostFlow {
    PostFlow { board, reply_to, comment, phase: PostPhase::AwaitBoard }
}

pub open spec fn with_phase(s: PostFlow, phase: PostPhase) -> PostFlow {
    PostFlow { phase, ..s }
}

pub open spec fn failure(message: Seq<char>, status: HttpStatus) -> RequestView {
    RequestView::Respond(Err((status, message)))
}

/// The request that a flow waits on the answer to.
pub open spec fn pending(s: PostFlow) -> RequestView {
    match s.phase {
        PostPhase::AwaitBoard => RequestView::FindBoardId(s.board),
        PostPhase::AwaitThreadCheck { board_id, thread } => RequestView::FindOpeningPost(
            board_id,
            thread,
        ),
        PostPhase::AwaitInsert { board_id } => RequestView::InsertPost(
            board_id,
            s.reply_to,
            s.comment,
        ),
        PostPhase::Finished => failure("Internal server error"@, HttpStatus::InternalServerError),
    }
}

/// What a flow does with the store's answer: its next state and its next
/// request. An answer to another request than the pending one leaves the flow
/// as it is, and it asks again.
pub open spec fn advance(s: PostFlow, e: ReplyView) -> (PostFlow, RequestView) {
    let done = with_phase(s, PostPhase::Finished);
    let unchanged = (s, pending(s));
    match s.phase {
        PostPhase::AwaitBoard => match e {
            ReplyView::BoardId(Err(_)) => (
                done,
                failure("Board does not exist"@, HttpStatus::Forbidden),
            ),
            ReplyView::BoardId(Ok(id)) => match s.reply_to {
                Some(t) => (
                    with_phase(s, PostPhase::AwaitThreadCheck { board_id: id, thread: t }),
                    RequestView::FindOpeningPost(id, t),
                ),
                None => (
                    with_phase(s, PostPhase::AwaitInsert { board_id: id }),
                    RequestView::InsertPost(id, s.reply_to, s.comment),
                ),
            },
            _ => unchanged,
        },
        PostPhase::AwaitThreadCheck { board_id, thread } => match e {
            ReplyView::OpeningPosts(Err(_)) => (
                done,
                failure("Internal server error"@, HttpStatus::InternalServerError),
            ),
            ReplyView::OpeningPosts(Ok(found)) => if found.len() == 0 {
                (
                    done,
                    failure(
                        "Replies must be to the first post in a thread"@,
                        HttpStatus::Forbidden,
                    ),
                )
            } else {
                (
                    with_phase(s, PostPhase::AwaitInsert { board_id }),
                    RequestView::InsertPost(board_id, s.reply_to, s.comment),
                )
            },
            _ => unchanged,
        },
        PostPhase::AwaitInsert { board_id } => match e {
            ReplyView::Inserted(Err(_)) => (
                done,
                failure("Internal server error"@, HttpStatus::InternalServerError),
            ),
            ReplyView::Inserted(Ok(n)) => (done, RequestView::Respond(Ok((s.board, n)))),
            _ => unchanged,
        },
        PostPhase::Finished => unchanged,
    }
}

impl NewPost {
    /// Starts a flow: it first asks for the board's id. A reply is checked
    /// against the opening posts of that board before it is inserted.
    pub fn new(board: String, reply_to: Option<i32>, comment: String) -> (r: (NewPost, StoreRequest))
        ensures
            r.0@ == initial_flow(board@, reply_to, comment@),
            r.1@ == pending(r.0@),
    {
        let name = board.clone();
        (
            NewPost { board, reply_to, comment, phase: PostPhase::AwaitBoard },
            StoreRequest::FindBoardId { name },
        )
    }

    /// The flow of a `MakePost` message.
    pub fn for_message(msg: MakePost) -> (r: (NewPost, StoreRequest))
        ensures
            r.0@ == initial_flow(msg.board_name@, msg.reply_to, msg.comment@),
            r.1@ == pending(r.0@),
    {
        NewPost::new(msg.board_name, msg.reply_to, msg.comment)
    }

    /// The request the flow waits on the answer to.
    pub fn pending_request(&self) -> (q: StoreRequest)
        ensures
            q@ == pending(self@),
    {
        match self.phase {
            PostPhase::AwaitBoard => StoreRequest::FindBoardId { name: self.board.clone() },
            PostPhase::AwaitThreadCheck { board_id, thread } => StoreRequest::FindOpeningPost {
                board_id,
                post_num: thread,
            },
            PostPhase::AwaitInsert { board_id } => StoreRequest::InsertPost {
                board_id,
                reply_to: self.reply_to,
                comment: self.comment.clone(),
            },
            PostPhase::Finished => StoreRequest::Respond(
                Err(Rejection::new(HttpStatus::InternalServerError, "Internal server error")),
            ),
        }
    }

    fn finish(&mut self, status: HttpStatus, message: &str) -> (q: StoreRequest)
        ensures
            final(self)@ == with_phase(old(self)@, PostPhase::Finished),
            q@ == failure(message@, status),
    {
        self.phase = PostPhase::Finished;
        StoreRequest::Respond(Err(Rejection::new(status, message)))
    }

    /// Takes the store's answer to the pending request and gives the next one.
    /// A finished flow stays finished (see `advance`).
    pub fn step(&mut self, reply: StoreReply) -> (q: StoreRequest)
        ensures
            (final(self)@, q@) == advance(old(self)@, reply@),
    {
        match self.phase {
            PostPhase::AwaitBoard => match reply {
                StoreReply::BoardId(Err(())) => self.finish(
                    HttpStatus::Forbidden,
                    "Board does not exist",
                ),
                StoreReply::BoardId(Ok(id)) => match self.reply_to {
                    Some(t) => {
                        self.phase = PostPhase::AwaitThreadCheck { board_id: id, thread: t };
                        StoreRequest::FindOpeningPost { board_id: id, post_num: t }
                    },
                    None => {
                        self.phase = PostPhase::AwaitInsert { board_id: id };
                        self.pending_request()
                    },
                },
                _ => self.pending_request(),
            },
            PostPhase::AwaitThreadCheck { board_id, thread } => match reply {
                StoreReply::OpeningPosts(Err(())) => self.finish(
                    HttpStatus::InternalServerError,
                    "Internal server error",
                ),
                StoreReply::OpeningPosts(Ok(found)) => {
                    if found.len() == 0 {
                        self.finish(
                            HttpStatus::Forbidden,
                            "Replies must be to the first post in a thread",
                        )
                    } else {
                        self.phase = PostPhase::AwaitInsert { board_id };
                        self.pending_request()
                    }
                },
                _ => self.pending_request(),
            },
            PostPhase::AwaitInsert { board_id } => match reply {
                StoreReply::Inserted(Err(())) => self.finish(
                    HttpStatus::InternalServerError,
                    "Internal server error",
                ),
                StoreReply::Inserted(Ok(n)) => {
                    self.phase = PostPhase::Finished;
                    StoreRequest::Respond(
                        Ok(PostCreatedResponse { board: self.board.clone(), post_num: n }),
                    )
                },
                _ => self.pending_request(),
            },
            PostPhase::Finished => self.pending_request(),
        }
    }
}

/// The flow that a form post starts, or the refusal of the form.
pub open spec fn form_flow(
    form: Result<Seq<char>, (HttpStatus, Seq<char>)>,
    board: Seq<char>,
    reply_to: Option<i32>,
    r: Result<(NewPost, StoreRequest), Rejection>,
) -> bool {
    match form {
        Ok(comment) => r matches Ok(started) && started.0@ == initial_flow(
            board,
            reply_to,
            comment,
        ) && started.1@ == pending(started.0@),
        Err(refusal) => r matches Err(e) && e@ == refusal,
    }
}

/// `POST /board/<board>`: a new thread. The comment is read from the
/// multipart body (see `form_comment`; `None` is a body that could not be
/// read); the flow then asks for the board.
pub fn post_thread(board: String, content_params: &Vec<(String, String)>, body: Option<&[u8]>) -> (r: Result<
    (NewPost, StoreRequest),
    Rejection,
>)
    ensures
        form_flow(form_comment(params_view(content_params@), body_view(body)), board@, None, r),
{
    let comment = read_form_comment(content_params, body)?;
    Ok(NewPost::new(board, None, comment))
}

/// `POST /board/<board>/<thread>`: a reply to `thread`, which must be the
/// opening post of a thread on the board.
pub fn post_comment(
    board: String,
    thread: i32,
    content_params: &Vec<(String, String)>,
    body: Option<&[u8]>,
) -> (r: Result<(NewPost, StoreRequest), Rejection>)
    ensures
        form_flow(
            form_comment(params_view(content_params@), body_view(body)),
            board@,
            Some(thread),
            r,
        ),
{
    let comment = read_form_comment(content_params, body)?;
    Ok(NewPost::new(board, Some(thread), comment))
}

/// How many more answers from the store a flow in this phase waits for, at most.
pub open spec fn remaining_answers(p: PostPhase) -> nat {
    match p {
        PostPhase::AwaitBoard => 3,
        PostPhase::AwaitThreadCheck { .. } => 2,
        PostPhase::AwaitInsert { .. } => 1,
        PostPhase::Finished => 0,
    }
}

/// Whether `e` answers the request that the flow waits on.
pub open spec fn answers_pending(s: PostFlow, e: ReplyView) -> bool {
    match s.phase {
        PostPhase::AwaitBoard => e is BoardId,
        PostPhase::AwaitThreadCheck { .. } => e is OpeningPosts,
        PostPhase::AwaitInsert { .. } => e is Inserted,
        PostPhase::Finished => false,
    }
}

/// The flow after the store's answers `es`, one after the other; answers that
/// come after the flow has finished change nothing.
pub open spec fn run(s: PostFlow, es: Seq<ReplyView>) -> PostFlow
    decreases es.len(),
{
    if es.len() == 0 {
        s
    } else {
        let before = run(s, es.drop_last());
        if before.phase == PostPhase::Finished {
            before
        } else {
            advance(before, es.last()).0
        }
    }
}

/// Whatever the flow asks the store to insert is the post it holds: the post
/// replied to and the comment unchanged, into the board whose id the flow
/// holds, and the flow then waits for that insert. From the board lookup it
/// goes straight to the insert only for a new thread, into the board the store
/// just named.
pub proof fn lemma_insert_carries_post(s: PostFlow, e: ReplyView)
    ensures
        advance(s, e).1 matches RequestView::InsertPost(b, r, c) ==> {
            &&& r == s.reply_to
            &&& c == s.comment
            &&& advance(s, e).0.phase == (PostPhase::AwaitInsert { board_id: b })
            &&& s.phase == PostPhase::AwaitBoard ==> e == ReplyView::BoardId(Ok(b))
                && s.reply_to is None
            &&& s.phase is AwaitThreadCheck ==> s.phase->AwaitThreadCheck_board_id == b
            &&& s.phase is AwaitInsert ==> s.phase->AwaitInsert_board_id == b
        },
{
}

/// A flow goes ahead on the store's good answers: once the board is found a
/// new thread is inserted into it and a reply's thread is looked up on it; a
/// thread whose opening post is found gets the reply inserted into the same
/// board; an insert that succeeds is reported with the store's number.
pub proof fn lemma_flow_goes_ahead(s: PostFlow, e: ReplyView, id: i32, n: i32)
    ensures
        e == ReplyView::BoardId(Ok(id)) && s.phase == PostPhase::AwaitBoard && s.reply_to is None
            ==> advance(s, e).1 == RequestView::InsertPost(id, None, s.comment),
        e == ReplyView::BoardId(Ok(id)) && s.phase == PostPhase::AwaitBoard && s.reply_to is Some
            ==> advance(s, e).1 == RequestView::FindOpeningPost(id, s.reply_to->Some_0),
        e matches ReplyView::OpeningPosts(Ok(found)) && found.len() > 0 && s.phase is AwaitThreadCheck
            ==> advance(s, e).1 == RequestView::InsertPost(
            s.phase->AwaitThreadCheck_board_id,
            s.reply_to,
            s.comment,
        ),
        e == ReplyView::Inserted(Ok(n)) && s.phase is AwaitInsert ==> advance(s, e).1
            == RequestView::Respond(Ok((s.board, n))),
{
}

/// The store's answer `es[j]` names `board_id` as the id of the flow's board:
/// the flow, started at `s0`, was waiting for the board lookup, and the store
/// answered with that id.
pub open spec fn board_answered_at(s0: PostFlow, es: Seq<ReplyView>, j: int, board_id: i32) -> bool {
    &&& 0 <= j < es.len()
    &&& run(s0, es.take(j)).phase == PostPhase::AwaitBoard
    &&& es[j] == ReplyView::BoardId(Ok(board_id))
}

/// One of the answers `es` names `board_id` as the id of the flow's board.
pub open spec fn board_answered(s0: PostFlow, es: Seq<ReplyView>, board_id: i32) -> bool {
    exists|j: int| #[trigger] board_answered_at(s0, es, j, board_id)
}

proof fn lemma_board_answered_extends(s0: PostFlow, es: Seq<ReplyView>, e: ReplyView, board_id: i32)
    requires
        board_answered(s0, es, board_id),
    ensures
        board_answered(s0, es.push(e), board_id),
{
    let j = choose|j: int| #[trigger] board_answered_at(s0, es, j, board_id);
    assert(es.push(e).take(j) =~= es.take(j));
    assert(es.push(e)[j] == es[j]);
    assert(board_answered_at(s0, es.push(e), j, board_id));
}

proof fn lemma_run_board(board: Seq<char>, reply_to: Option<i32>, comment: Seq<char>, es: Seq<ReplyView>)
    ensures
        run(initial_flow(board, reply_to, comment), es).phase is AwaitThreadCheck ==> board_answered(
            initial_flow(board, reply_to, comment),
            es,
            run(initial_flow(board, reply_to, comment), es).phase->AwaitThreadCheck_board_id,
        ),
        run(initial_flow(board, reply_to, comment), es).phase is AwaitInsert ==> board_answered(
            initial_flow(board, reply_to, comment),
            es,
            run(initial_flow(board, reply_to, comment), es).phase->AwaitInsert_board_id,
        ),
    decreases es.len(),
{
    let s0 = initial_flow(board, reply_to, comment);
    if es.len() > 0 {
        let prefix = es.drop_last();
        lemma_run_board(board, reply_to, comment, prefix);
        let before = run(s0, prefix);
        let after = run(s0, es);
        assert(prefix.push(es.last()) =~= es);
        match before.phase {
            PostPhase::AwaitBoard => {
                if after.phase is AwaitThreadCheck || after.phase is AwaitInsert {
                    let j = prefix.len() as int;
                    assert(es.take(j) =~= prefix);
                    assert(es[j] == es.last());
                    let b = if after.phase is AwaitInsert {
                        after.phase->AwaitInsert_board_id
                    } else {
                        after.phase->AwaitThreadCheck_board_id
                    };
                    assert(board_answered_at(s0, es, j, b));
                }
            },
            PostPhase::AwaitThreadCheck { board_id, thread } => {
                lemma_board_answered_extends(s0, prefix, es.last(), board_id);
            },
            PostPhase::AwaitInsert { board_id } => {
                lemma_board_answered_extends(s0, prefix, es.last(), board_id);
            },
            PostPhase::Finished => {},
        }
    }
}

/// Every insert that a flow asks for goes into the board whose id the store
/// gave for the board named by the client, and carries the post replied to
/// and the comment that the flow was started with.
pub proof fn lemma_insert_goes_to_named_board(
    board: Seq<char>,
    reply_to: Option<i32>,
    comment: Seq<char>,
    es: Seq<ReplyView>,
    e: ReplyView,
)
    ensures
        advance(run(initial_flow(board, reply_to, comment), es), e).1 matches RequestView::InsertPost(
            b,
            r,
            c,
        ) ==> {
            &&& r == reply_to
            &&& c == comment
            &&& board_answered(initial_flow(board, reply_to, comment), es.push(e), b)
        },
{
    let s0 = initial_flow(board, reply_to, comment);
    let s = run(s0, es);
    lemma_run_keeps_post(s0, es);
    lemma_run_board(board, reply_to, comment, es);
    lemma_insert_carries_post(s, e);
    if advance(s, e).1 is InsertPost {
        let b = advance(s, e).1->InsertPost_0;
        match s.phase {
            PostPhase::AwaitBoard => {
                let all = es.push(e);
                let j = es.len() as int;
                assert(all.take(j) =~= es);
                assert(all[j] == e);
                assert(board_answered_at(s0, all, j, b));
            },
            PostPhase::AwaitThreadCheck { board_id, thread } => {
                lemma_board_answered_extends(s0, es, e, board_id);
            },
            PostPhase::AwaitInsert { board_id } => {
                lemma_board_answered_extends(s0, es, e, board_id);
            },
            PostPhase::Finished => {},
        }
    }
}

/// The store's answer `es[j]` reports that `thread` is the opening post of a
/// thread on the board `board_id`: the flow, started at `s0`, had asked for
/// exactly that with its `j`-th request, and the store found such a post.
pub open spec fn confirms_at(s0: PostFlow, es: Seq<ReplyView>, j: int, board_id: i32, thread: i32) -> bool {
    &&& 0 <= j < es.len()
    &&& pending(run(s0, es.take(j))) == RequestView::FindOpeningPost(board_id, thread)
    &&& es[j] matches ReplyView::OpeningPosts(Ok(found))
    &&& found.len() > 0
}

/// One of the answers `es` confirms that `thread` opens a thread on the board
/// `board_id`.
pub open spec fn confirmed_on(s0: PostFlow, es: Seq<ReplyView>, board_id: i32, thread: i32) -> bool {
    exists|j: int| #[trigger] confirms_at(s0, es, j, board_id, thread)
}

/// A flow keeps the board, the post replied to and the comment that it was
/// started with.
pub proof fn lemma_flow_keeps_post(s: PostFlow, e: ReplyView)
    ensures
        advance(s, e).0.board == s.board,
        advance(s, e).0.reply_to == s.reply_to,
        advance(s, e).0.comment == s.comment,
{
}

/// Every flow answers the client: an answer to the pending request moves the
/// flow strictly on, so that at most three answers finish it; any other answer
/// leaves it as it is and it asks again; and it answers the client exactly
/// when it finishes.
pub proof fn lemma_flow_progress(s: PostFlow, e: ReplyView)
    requires
        s.phase != PostPhase::Finished,
    ensures
        remaining_answers(s.phase) <= 3,
        answers_pending(s, e) ==> remaining_answers(advance(s, e).0.phase) < remaining_answers(
            s.phase,
        ),
        !answers_pending(s, e) ==> advance(s, e) == (s, pending(s)),
        advance(s, e).1 is Respond <==> advance(s, e).0.phase == PostPhase::Finished,
{
}

/// The answer to a successful post names the board it was posted to and the
/// number that the store gave the inserted post.
pub proof fn lemma_created_reports_store_number(s: PostFlow, e: ReplyView)
    requires
        s.phase != PostPhase::Finished,
    ensures
        advance(s, e).1 matches RequestView::Respond(Ok(created)) ==> {
            &&& s.phase is AwaitInsert
            &&& e matches ReplyView::Inserted(Ok(n))
            &&& created == (s.board, n)
        },
{
}

proof fn lemma_run_keeps_post(s: PostFlow, es: Seq<ReplyView>)
    ensures
        run(s, es).board == s.board,
        run(s, es).reply_to == s.reply_to,
        run(s, es).comment == s.comment,
    decreases es.len(),
{
    if es.len() > 0 {
        lemma_run_keeps_post(s, es.drop_last());
        lemma_flow_keeps_post(run(s, es.drop_last()), es.last());
    }
}

proof fn lemma_confirmed_extends(
    s0: PostFlow,
    es: Seq<ReplyView>,
    e: ReplyView,
    board_id: i32,
    thread: i32,
)
    requires
        confirmed_on(s0, es, board_id, thread),
    ensures
        confirmed_on(s0, es.push(e), board_id, thread),
{
    let j = choose|j: int| #[trigger] confirms_at(s0, es, j, board_id, thread);
    assert(es.push(e).take(j) =~= es.take(j));
    assert(es.push(e)[j] == es[j]);
    assert(confirms_at(s0, es.push(e), j, board_id, thread));
}

proof fn lemma_reply_run(board: Seq<char>, thread: i32, comment: Seq<char>, es: Seq<ReplyView>)
    ensures
        run(initial_flow(board, Some(thread), comment), es).phase matches PostPhase::AwaitThreadCheck {
            board_id,
            thread: t,
        } ==> t == thread,
        run(initial_flow(board, Some(thread), comment), es).phase matches PostPhase::AwaitInsert {
            board_id,
        } ==> confirmed_on(initial_flow(board, Some(thread), comment), es, board_id, thread),
    decreases es.len(),
{
    let s0 = initial_flow(board, Some(thread), comment);
    if es.len() > 0 {
        let prefix = es.drop_last();
        lemma_reply_run(board, thread, comment, prefix);
        lemma_run_keeps_post(s0, prefix);
        let before = run(s0, prefix);
        assert(prefix.push(es.last()) =~= es);
        match before.phase {
            PostPhase::AwaitInsert { board_id } => {
                if run(s0, es).phase is AwaitInsert {
                    lemma_confirmed_extends(s0, prefix, es.last(), board_id, thread);
                }
            },
            PostPhase::AwaitThreadCheck { board_id, thread: t } => {
                if run(s0, es).phase is AwaitInsert {
                    let j = prefix.len() as int;
                    assert(es.take(j) =~= prefix);
                    assert(es[j] == es.last());
                    assert(confirms_at(s0, es, j, board_id, thread));
                }
            },
            _ => {},
        }
    }
}

/// A reply is inserted, and reported as made, only after the store has
/// answered that the post it replies to is the opening post of a thread on
/// the very board it is inserted into.
pub proof fn lemma_reply_needs_opening_post(
    board: Seq<char>,
    thread: i32,
    comment: Seq<char>,
    es: Seq<ReplyView>,
    e: ReplyView,
)
    requires
        run(initial_flow(board, Some(thread), comment), es).phase != PostPhase::Finished,
    ensures
        advance(run(initial_flow(board, Some(thread), comment), es), e).1 matches RequestView::InsertPost(
            board_id,
            _,
            _,
        ) ==> confirmed_on(initial_flow(board, Some(thread), comment), es.push(e), board_id, thread),
        advance(run(initial_flow(board, Some(thread), comment), es), e).1 matches RequestView::Respond(
            Ok(_),
        ) ==> run(initial_flow(board, Some(thread), comment), es).phase matches PostPhase::AwaitInsert {
            board_id,
        } && confirmed_on(initial_flow(board, Some(thread), comment), es, board_id, thread),
{
    let s0 = initial_flow(board, Some(thread), comment);
    let s = run(s0, es);
    lemma_run_keeps_post(s0, es);
    lemma_reply_run(board, thread, comment, es);
    match s.phase {
        PostPhase::AwaitInsert { board_id } => {
            lemma_confirmed_extends(s0, es, e, board_id, thread);
        },
        PostPhase::AwaitThreadCheck { board_id, thread: t } => {
            if advance(s, e).1 is InsertPost {
                let all = es.push(e);
                let j = es.len() as int;
                assert(all.take(j) =~= es);
                assert(all[j] == e);
                assert(confirms_at(s0, all, j, board_id, thread));
            }
        },
        _ => {},
    }
}

/// A post made from a form inserts exactly the comment read from the form,
/// and that comment is never empty.
pub proof fn lemma_form_post_inserts_its_comment(
    params: Seq<(Seq<char>, Seq<char>)>,
    body: Option<Seq<u8>>,
    board: Seq<char>,
    reply_to: Option<i32>,
    es: Seq<ReplyView>,
    e: ReplyView,
)
    requires
        form_comment(params, body) is Ok,
        advance(run(initial_flow(board, reply_to, form_comment(params, body)->Ok_0), es), e).1 is InsertPost,
    ensures
        advance(run(initial_flow(board, reply_to, form_comment(params, body)->Ok_0), es), e).1 matches RequestView::InsertPost(
            _,
            _,
            inserted,
        ) && inserted == form_comment(params, body)->Ok_0 && inserted.len() > 0,
{
    let c = form_comment(params, body)->Ok_0;
    lemma_run_keeps_post(initial_flow(board, reply_to, c), es);
}

} // verus!
