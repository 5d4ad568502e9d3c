//! Reading the comment out of a `multipart/form-data` post body.
use vstd::prelude::*;
use vstd::utf8::{decode_utf8, valid_utf8};
use std::io::Read;
use crate::http::{HttpStatus, Rejection};

verus! {

/// Whether `s` is exactly the text `t`.
pub fn text_equals(s: &str, t: &str) -> (b: bool)
    ensures
        b == (s@ == t@),
{
    let n = s.unicode_len();
    if n != t.unicode_len() {
        return false;
    }
    let mut i: usize = 0;
    while i < n
        invariant
            n == s@.len(),
            n == t@.len(),
            i <= n,
            forall|j: int| 0 <= j < i ==> s@[j] == t@[j],
        decreases n - i,
    {
        if s.get_char(i) != t.get_char(i) {
            return false;
        }
        i = i + 1;
    }
    assert(s@ =~= t@);
    true
}

/// The value of the first parameter named `key`, where there is one.
pub open spec fn first_param_value(params: Seq<(Seq<char>, Seq<char>)>, key: Seq<char>) -> Option<
    Seq<char>,
>
    decreases params.len(),
{
    if params.len() == 0 {
        None
    } else if params[0].0 == key {
        Some(params[0].1)
    } else {
        first_param_value(params.drop_first(), key)
    }
}

/// `first_param_value` is the value of the first parameter named `key`: there
/// is none exactly when no parameter has that name, and otherwise it is the
/// value of a parameter with that name before which none has it.
pub proof fn lemma_first_param_value(params: Seq<(Seq<char>, Seq<char>)>, key: Seq<char>)
    ensures
        first_param_value(params, key) is None <==> forall|i: int|
            0 <= i < params.len() ==> (#[trigger] params[i]).0 != key,
        first_param_value(params, key) matches Some(v) ==> exists|i: int|
            0 <= i < params.len() && (#[trigger] params[i]).0 == key && params[i].1 == v && forall|
                j: int,
            | 0 <= j < i ==> (#[trigger] params[j]).0 != key,
    decreases params.len(),
{
    if params.len() > 0 {
        let rest = params.drop_first();
        lemma_first_param_value(rest, key);
        assert forall|i: int| 0 <= i < rest.len() implies rest[i] == params[i + 1] by {}
        if params[0].0 == key {
            assert(params[0].0 == key && params[0].1 == params[0].1);
        } else {
            if first_param_value(rest, key) is None {
                assert forall|i: int| 0 <= i < params.len() implies (#[trigger] params[i]).0 != key by {
                    if i > 0 {
                        assert(params[i] == rest[i - 1]);
                    }
                }
            } else {
                let v = first_param_value(rest, key)->Some_0;
                let i = choose|i: int|
                    0 <= i < rest.len() && (#[trigger] rest[i]).0 == key && rest[i].1 == v && forall|
                        j: int,
                    | 0 <= j < i ==> (#[trigger] rest[j]).0 != key;
                assert(params[i + 1] == rest[i]);
                assert forall|j: int| 0 <= j < i + 1 implies (#[trigger] params[j]).0 != key by {
                    if j > 0 {
                        assert(params[j] == rest[j - 1]);
                    }
                }
            }
        }
    }
}

/// The parameters of a content type, each as its name and its value.
pub open spec fn params_view(params: Seq<(String, String)>) -> Seq<(Seq<char>, Seq<char>)> {
    params.map_values(|p: (String, String)| (p.0@, p.1@))
}

/// The multipart boundary of a request: the value of the first parameter of
/// its content type that is named exactly `boundary`.
pub fn find_boundary(params: &Vec<(String, String)>) -> (b: Option<String>)
    ensures
        b is Some <==> first_param_value(params_view(params@), "boundary"@) is Some,
        b matches Some(v) ==> first_param_value(params_view(params@), "boundary"@) == Some(v@),
{
    let ghost pv = params_view(params@);
    let mut i: usize = 0;
    assert(pv.skip(0) =~= pv);
    while i < params.len()
        invariant
            i <= params.len(),
            pv == params_view(params@),
            first_param_value(pv, "boundary"@) == first_param_value(pv.skip(i as int), "boundary"@),
        decreases params.len() - i,
    {
        let ghost rest = pv.skip(i as int);
        assert(rest[0] == (params@[i as int].0@, params@[i as int].1@));
        if text_equals(params[i].0.as_str(), "boundary") {
            return Some(params[i].1.clone());
        }
        assert(rest.drop_first() =~= pv.skip(i + 1));
        i = i + 1;
    }
    assert(pv.skip(i as int).len() == 0);
    None
}

/// One part of a `multipart/form-data` body: the name of its field, whether
/// it is text (it has no content type, or a `text/*` one), and its bytes.
pub struct FormField {
    pub name: String,
    pub is_text: bool,
    pub data: Vec<u8>,
}

impl View for FormField {
    type V = (Seq<char>, bool, Seq<u8>);

    open spec fn view(&self) -> (Seq<char>, bool, Seq<u8>) {
        (self.name@, self.is_text, self.data@)
    }
}

pub open spec fn form_view(fields: Seq<FormField>) -> Seq<(Seq<char>, bool, Seq<u8>)> {
    fields.map_values(|f: FormField| f@)
}

/// The parts, in order, that the `multipart` crate reads out of `body` when it
/// is split at `boundary`; `None` where the crate reports an error.
pub uninterp spec fn multipart_parts(body: Seq<u8>, boundary: Seq<char>) -> Option<
    Seq<(Seq<char>, bool, Seq<u8>)>,
>;

/// Splits `body` into its parts with `multipart::server::Multipart`
/// (`with_body` and `foreach_entry`), reading each part's name, its
/// `is_text()` and all its bytes. The contract claims only that the outcome is
/// a function of the body and the boundary, named `multipart_parts`; how the
/// crate parses is not stated.
#[verifier::external_body]
fn read_multipart(body: &[u8], boundary: &str) -> (r: Result<Vec<FormField>, ()>)
    ensures
        r is Err <==> multipart_parts(body@, boundary@) is None,
        r matches Ok(fs) ==> multipart_parts(body@, boundary@) == Some(form_view(fs@)),
{
    let mut fields: Vec<FormField> = Vec::new();
    let mut parts = multipart::server::Multipart::with_body(body, boundary);
    let parsed = parts.foreach_entry(|mut field| {
        let is_text = field.is_text();
        let mut data: Vec<u8> = Vec::new();
        let _ = field.data.read_to_end(&mut data);
        fields.push(FormField { name: field.headers.name.to_string(), is_text, data });
    });
    match parsed {
        Ok(()) => Ok(fields),
        Err(_) => Err(()),
    }
}

/// `std::str::from_utf8`: the text that `bytes` encode, where they are valid
/// UTF-8 (vstd's `valid_utf8`, decoded by vstd's `decode_utf8`), else `None`.
#[verifier::external_body]
fn utf8_text(bytes: &[u8]) -> (r: Option<String>)
    ensures
        r is Some <==> valid_utf8(bytes@),
        r matches Some(s) ==> s@ == decode_utf8(bytes@),
{
    match std::str::from_utf8(bytes) {
        Ok(s) => Some(s.to_string()),
        Err(_) => None,
    }
}

/// What one part adds to the comment: the text of a text part named
/// `comment` whose bytes are valid UTF-8, and nothing for any other part.
pub open spec fn part_comment(part: (Seq<char>, bool, Seq<u8>)) -> Seq<char> {
    if part.0 == "comment"@ && part.1 && valid_utf8(part.2) {
        decode_utf8(part.2)
    } else {
        Seq::empty()
    }
}

/// The comment of a post: what its parts add, one after the other.
pub open spec fn comment_text(parts: Seq<(Seq<char>, bool, Seq<u8>)>) -> Seq<char>
    decreases parts.len(),
{
    if parts.len() == 0 {
        Seq::empty()
    } else {
        comment_text(parts.drop_last()) + part_comment(parts.last())
    }
}

/// No parts, no comment.
pub proof fn lemma_comment_of_no_parts()
    ensures
        comment_text(Seq::empty()).len() == 0,
{
}

/// A single part adds to the comment exactly the whole text it encodes when
/// it is a text part named `comment` holding valid UTF-8, and nothing
/// otherwise.
pub proof fn lemma_comment_of_one_part(name: Seq<char>, is_text: bool, data: Seq<u8>)
    ensures
        name == "comment"@ && is_text && valid_utf8(data) ==> comment_text(seq![(name, is_text, data)])
            == decode_utf8(data),
        !(name == "comment"@ && is_text && valid_utf8(data)) ==> comment_text(
            seq![(name, is_text, data)],
        ).len() == 0,
{
    let one = seq![(name, is_text, data)];
    let none = Seq::<(Seq<char>, bool, Seq<u8>)>::empty();
    assert(one.drop_last() =~= none);
    assert(one.last() == (name, is_text, data));
    assert(comment_text(none) == Seq::<char>::empty());
    assert(comment_text(one) == comment_text(one.drop_last()) + part_comment(one.last()));
    assert(comment_text(one) =~= part_comment((name, is_text, data)));
}

/// The comment of the parts of two bodies, one after the other, is the
/// comment of the first followed by the comment of the second: no part's text
/// is cut, dropped or reordered.
pub proof fn lemma_comment_of_concatenation(
    a: Seq<(Seq<char>, bool, Seq<u8>)>,
    b: Seq<(Seq<char>, bool, Seq<u8>)>,
)
    ensures
        comment_text(a + b) == comment_text(a) + comment_text(b),
    decreases b.len(),
{
    if b.len() == 0 {
        assert(a + b =~= a);
        assert(comment_text(a) + comment_text(b) =~= comment_text(a));
    } else {
        lemma_comment_of_concatenation(a, b.drop_last());
        assert((a + b).drop_last() =~= a + b.drop_last());
        assert((a + b).last() == b.last());
        assert(comment_text(a + b) =~= comment_text(a) + comment_text(b));
    }
}

/// A body whose parts can be read is accepted exactly when their comment is
/// not empty, and then the accepted comment is the whole comment of the parts.
pub proof fn lemma_accepted_comment_is_whole(body: Seq<u8>, boundary: Seq<char>)
    ensures
        body_comment(body, boundary) matches Ok(c) ==> {
            &&& multipart_parts(body, boundary) is Some
            &&& c == comment_text(multipart_parts(body, boundary)->Some_0)
            &&& c.len() > 0
        },
        multipart_parts(body, boundary) is Some && comment_text(
            multipart_parts(body, boundary)->Some_0,
        ).len() > 0 ==> body_comment(body, boundary) is Ok,
{
}

/// Collects the comment out of the parts of a form.
pub fn collect_comment(fields: &Vec<FormField>) -> (c: String)
    ensures
        c@ == comment_text(form_view(fields@)),
{
    let ghost fv = form_view(fields@);
    let mut comment = String::new();
    let mut i: usize = 0;
    while i < fields.len()
        invariant
            i <= fields.len(),
            fv == form_view(fields@),
            comment@ == comment_text(fv.take(i as int)),
        decreases fields.len() - i,
    {
        let field = &fields[i];
        assert(fv.take(i + 1).drop_last() =~= fv.take(i as int));
        assert(fv.take(i + 1).last() == field@);
        if field.is_text && text_equals(field.name.as_str(), "comment") {
            match utf8_text(field.data.as_slice()) {
                Some(text) => {
                    comment.append(text.as_str());
                },
                None => {},
            }
        }
        i = i + 1;
    }
    assert(fv.take(fields.len() as int) =~= fv);
    comment
}

/// Whether `r` refuses the request with this status and message.
pub open spec fn refuses<T>(r: Result<T, Rejection>, status: HttpStatus, message: Seq<char>) -> bool {
    &&& r is Err
    &&& r->Err_0.status == status
    &&& r->Err_0.message@ == message
}

/// A text or the refusal, seen as plain values.
pub open spec fn text_or_refusal(r: Result<String, Rejection>) -> Result<Seq<char>, (HttpStatus, Seq<char>)> {
    match r {
        Ok(s) => Ok(s@),
        Err(e) => Err(e@),
    }
}

/// The comment of a post body split at `boundary`, or why the body is refused:
/// it cannot be read, or its comment is empty.
pub open spec fn body_comment(body: Seq<u8>, boundary: Seq<char>) -> Result<
    Seq<char>,
    (HttpStatus, Seq<char>),
> {
    match multipart_parts(body, boundary) {
        None => Err((HttpStatus::BadRequest, "Could not parse multipart data"@)),
        Some(parts) => if comment_text(parts).len() == 0 {
            Err((HttpStatus::BadRequest, "Comment must be non-empty UTF8"@))
        } else {
            Ok(comment_text(parts))
        },
    }
}

/// The bytes of a body, where it could be read.
pub open spec fn body_view(body: Option<&[u8]>) -> Option<Seq<u8>> {
    match body {
        Some(b) => Some(b@),
        None => None,
    }
}

/// The comment of a post, given the parameters of its content type and its
/// body (`None` where the body could not be read), or why the post is
/// refused: no boundary; a body that cannot be read or split; or an empty
/// comment.
pub open spec fn form_comment(params: Seq<(Seq<char>, Seq<char>)>, body: Option<Seq<u8>>) -> Result<
    Seq<char>,
    (HttpStatus, Seq<char>),
> {
    match first_param_value(params, "boundary"@) {
        None => Err(
            (
                HttpStatus::BadRequest,
                "`Content-Type: multipart/form-data` boundary param not provided"@,
            ),
        ),
        Some(boundary) => match body {
            None => Err((HttpStatus::BadRequest, "Could not parse multipart data"@)),
            Some(bytes) => body_comment(bytes, boundary),
        },
    }
}

/// The comment of a post body split at `boundary`.
pub fn read_comment(body: &[u8], boundary: &str) -> (r: Result<String, Rejection>)
    ensures
        text_or_refusal(r) == body_comment(body@, boundary@),
        r matches Ok(c) ==> multipart_parts(body@, boundary@) matches Some(parts) && c@
            == comment_text(parts),
{
    let fields = match read_multipart(body, boundary) {
        Ok(fields) => fields,
        Err(()) => {
            return Err(Rejection::new(HttpStatus::BadRequest, "Could not parse multipart data"));
        },
    };
    let comment = collect_comment(&fields);
    if comment.as_str().is_empty() {
        return Err(Rejection::new(HttpStatus::BadRequest, "Comment must be non-empty UTF8"));
    }
    Ok(comment)
}

/// The comment of a post, from the parameters of its content type and its
/// body (`None` where the body could not be read).
pub fn read_form_comment(params: &Vec<(String, String)>, body: Option<&[u8]>) -> (r: Result<
    String,
    Rejection,
>)
    ensures
        text_or_refusal(r) == form_comment(params_view(params@), body_view(body)),
{
    match find_boundary(params) {
        None => Err(
            Rejection::new(
                HttpStatus::BadRequest,
                "`Content-Type: multipart/form-data` boundary param not provided",
            ),
        ),
        Some(boundary) => match body {
            None => Err(Rejection::new(HttpStatus::BadRequest, "Could not parse multipart data")),
            Some(bytes) => read_comment(bytes, boundary.as_str()),
        },
    }
}

} // verus!
