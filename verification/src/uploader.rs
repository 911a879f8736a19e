//! The upload of a replay to ballchasing.com: what is sent, and what the
//! answer means. `201` means the replay was stored and names its id; `409`
//! means the same replay was stored before, under the id the answer names;
//! any other status is a failure.
use vstd::prelude::*;

use crate::text::owned;

verus! {

/// A name for what a JSON text holds at `key`: the string there, when the
/// text is a JSON object whose member `key` is a string; nothing otherwise.
pub uninterp spec fn json_str_member(text: Seq<char>, key: Seq<char>) -> Option<Seq<char>>;

/// `serde_json::from_str::<serde_json::Value>` followed by indexing the value
/// with `key` and `Value::as_str`. Claimed: the result is the string member
/// `key` of the JSON object that `text` holds, as named by
/// [`json_str_member`]; a text that is not JSON reads as `null`, which has no
/// members. Nothing is stated of which texts hold which members.
#[verifier::external_body]
fn read_str_member(text: &str, key: &str) -> (r: Option<String>)
    ensures
        match r {
            Some(s) => json_str_member(text@, key@) == Some(s@),
            None => json_str_member(text@, key@) is None,
        },
{
    let v: serde_json::Value = serde_json::from_str(text).unwrap_or_default();
    v[key].as_str().map(|s| s.to_string())
}

/// The address that replays are sent to.
pub fn upload_url() -> (s: &'static str)
    ensures
        s@ == "https://ballchasing.com/api/v2/upload"@,
{
    "https://ballchasing.com/api/v2/upload"
}

/// The name the replay file is sent under: the file's own name, or
/// `replay.replay` when it has none that is text.
pub fn upload_file_name(name: Option<String>) -> (r: String)
    ensures
        r@ == match name {
            Some(n) => n@,
            None => "replay.replay"@,
        },
{
    match name {
        Some(n) => n,
        None => owned("replay.replay"),
    }
}

/// The query of an upload: the visibility, then the group when there is one.
pub open spec fn query_of(visibility: Seq<char>, group: Option<Seq<char>>) -> Seq<
    (Seq<char>, Seq<char>),
> {
    match group {
        Some(g) => seq![("visibility"@, visibility), ("group"@, g)],
        None => seq![("visibility"@, visibility)],
    }
}

/// The view of a query.
pub open spec fn query_view(q: Seq<(String, String)>) -> Seq<(Seq<char>, Seq<char>)> {
    q.map_values(|p: (String, String)| (p.0@, p.1@))
}

/// The query parameters of an upload.
pub fn upload_query(visibility: &str, group: Option<&str>) -> (q: Vec<(String, String)>)
    ensures
        query_view(q@) == query_of(
            visibility@,
            match group {
                Some(g) => Some(g@),
                None => None,
            },
        ),
{
    let mut q: Vec<(String, String)> = Vec::new();
    q.push((owned("visibility"), owned(visibility)));
    match group {
        Some(g) => {
            q.push((owned("group"), owned(g)));
        },
        None => {},
    }
    assert(query_view(q@) =~= query_of(
        visibility@,
        match group {
            Some(g) => Some(g@),
            None => None,
        },
    ));
    q
}

/// Why an upload did not store a new replay.
#[derive(Debug, Clone)]
pub enum UploadError {
    /// The same replay was stored before, under `id`.
    Duplicate { id: String },
    /// Any other answer than `201` or `409`: its status and body.
    Failed { status: u16, body: String },
}

/// The id an answer names, or `?` when its body names none.
pub open spec fn id_or_unknown(id_member: Option<Seq<char>>) -> Seq<char> {
    match id_member {
        Some(id) => id,
        None => "?"@,
    }
}

/// What an answer means, given its status, its body and the string member
/// `id` of its body.
pub open spec fn outcome_of(status: u16, body: Seq<char>, id_member: Option<Seq<char>>) -> Result<
    Seq<char>,
    (u16, Seq<char>),
> {
    if status == 201 {
        Ok(id_or_unknown(id_member))
    } else if status == 409 {
        Err((409, id_or_unknown(id_member)))
    } else {
        Err((status, body))
    }
}

/// The view of an upload's result: the id stored, or, for a duplicate,
/// `409` and the existing id, or, for a failure, the status and the body.
pub open spec fn upload_view(r: Result<String, UploadError>) -> Result<Seq<char>, (u16, Seq<char>)> {
    match r {
        Ok(id) => Ok(id@),
        Err(UploadError::Duplicate { id }) => Err((409, id@)),
        Err(UploadError::Failed { status, body }) => Err((status, body@)),
    }
}

/// Whether an error is a duplicate.
pub open spec fn is_duplicate(r: Result<String, UploadError>) -> bool {
    r matches Err(UploadError::Duplicate { .. })
}

/// What an answer means, given the `id` member read from its body.
pub fn interpret_answer(status: u16, body: String, id_member: Option<String>) -> (r: Result<
    String,
    UploadError,
>)
    ensures
        upload_view(r) == outcome_of(
            status,
            body@,
            match id_member {
                Some(s) => Some(s@),
                None => None,
            },
        ),
        is_duplicate(r) <==> status == 409,
        status == 201 ==> r is Ok && (id_member matches Some(s) ==> r->Ok_0@ == s@),
        status == 409 ==> (id_member matches Some(s) ==> r->Err_0->Duplicate_id@ == s@),
{
    let id = match id_member {
        Some(s) => s,
        None => owned("?"),
    };
    if status == 201 {
        Ok(id)
    } else if status == 409 {
        Err(UploadError::Duplicate { id })
    } else {
        Err(UploadError::Failed { status, body })
    }
}

/// What ballchasing.com's answer to an upload means: the id of the stored
/// replay for `201`, the existing id for `409`, and the status and body for
/// anything else. The id is the string member `id` of the body, or `?`.
pub fn upload_outcome(status: u16, body: String) -> (r: Result<String, UploadError>)
    ensures
        upload_view(r) == outcome_of(status, body@, json_str_member(body@, "id"@)),
        r is Ok <==> status == 201,
        is_duplicate(r) <==> status == 409,
        status == 201 ==> (json_str_member(body@, "id"@) matches Some(s) ==> r->Ok_0@ == s),
        status == 409 ==> (json_str_member(body@, "id"@) matches Some(s) ==> r->Err_0->Duplicate_id@
            == s),
        status != 201 && status != 409 ==> r->Err_0->Failed_status == status
            && r->Err_0->Failed_body@ == body@,
{
    if status == 201 || status == 409 {
        let id_member = read_str_member(body.as_str(), "id");
        interpret_answer(status, body, id_member)
    } else {
        interpret_answer(status, body, None)
    }
}

/// An upload's query names the visibility first, whatever it is, and holds
/// the group exactly when one is given, as given; nothing else is sent.
pub proof fn query_carries_visibility_and_group(visibility: Seq<char>, group: Option<Seq<char>>)
    ensures
        query_of(visibility, group).len() >= 1,
        query_of(visibility, group)[0] == ("visibility"@, visibility),
        group matches Some(g) ==> query_of(visibility, group).contains(("group"@, g)),
        group matches Some(g) ==> query_of(visibility, group).len() == 2 && query_of(
            visibility,
            group,
        )[1] == ("group"@, g),
        group is None ==> query_of(visibility, group).len() == 1,
{
    match group {
        Some(g) => {
            assert(query_of(visibility, group)[1] == ("group"@, g));
        },
        None => {},
    }
}

/// What ballchasing.com's answer means: `201` is success and reports the
/// body's string member `id` exactly as it is (`?` when there is none); `409`
/// is a duplicate reporting the existing id exactly as it is (`?` when there
/// is none); any other status is a failure carrying that status and the
/// whole body.
pub proof fn answers_report_ids_as_given(status: u16, body: Seq<char>, id_member: Option<Seq<char>>)
    ensures
        status == 201 ==> (id_member matches Some(s) ==> outcome_of(status, body, id_member) == Ok::<
            Seq<char>,
            (u16, Seq<char>),
        >(s)),
        status == 201 && id_member is None ==> outcome_of(status, body, id_member) == Ok::<
            Seq<char>,
            (u16, Seq<char>),
        >("?"@),
        status == 409 ==> (id_member matches Some(s) ==> outcome_of(status, body, id_member) == Err::<
            Seq<char>,
            (u16, Seq<char>),
        >((409u16, s))),
        status == 409 && id_member is None ==> outcome_of(status, body, id_member) == Err::<
            Seq<char>,
            (u16, Seq<char>),
        >((409u16, "?"@)),
        status != 201 && status != 409 ==> outcome_of(status, body, id_member) == Err::<
            Seq<char>,
            (u16, Seq<char>),
        >((status, body)),
{
}

/// An upload's result is reported as it is: the stored id, the existing id of
/// a duplicate under `409`, or a failure's own status and body.
pub proof fn results_are_viewed_as_they_are(r: Result<String, UploadError>)
    ensures
        r matches Ok(id) ==> upload_view(r) == Ok::<Seq<char>, (u16, Seq<char>)>(id@),
        r matches Err(UploadError::Duplicate { id }) ==> upload_view(r) == Err::<
            Seq<char>,
            (u16, Seq<char>),
        >((409u16, id@)),
        r matches Err(UploadError::Failed { status, body }) ==> upload_view(r) == Err::<
            Seq<char>,
            (u16, Seq<char>),
        >((status, body@)),
{
}

} // verus!
