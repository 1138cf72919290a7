use crate::account::{InsertableScore, NewScore, Score, User};
use crate::envelope::{query_failure, rendered_body, Response, ResponseBuilder, Status};
use crate::token::Claims;
use vstd::prelude::*;
use vstd::string::*;

verus! {

/// The number of scores listed when the caller names none.
pub const DEFAULT_LIMIT: i64 = 100;

/// A number without its sign; the least number, which has no counterpart, gives the
/// greatest.
pub open spec fn magnitude(n: i64) -> i64 {
    if n == i64::MIN {
        i64::MAX
    } else if n < 0 {
        (-n) as i64
    } else {
        n
    }
}

/// A number without its sign.
pub fn magnitude_of(n: i64) -> (m: i64)
    ensures
        m == magnitude(n),
        m >= 0,
{
    if n == i64::MIN {
        i64::MAX
    } else if n < 0 {
        -n
    } else {
        n
    }
}

/// Which scores to list: those of one account or of all, so many, from so far in.
#[derive(Clone, Copy, Debug, PartialEq, Eq, Structural)]
pub struct ScoreQuery {
    pub usr_id: Option<i32>,
    pub limit: i64,
    pub offset: i64,
}

/// What a request for scores needs next.
#[derive(Debug)]
pub enum ScorePlan {
    /// The scores can be listed.
    Query(ScoreQuery),
    /// The account of this name must be found first.
    Lookup { usr: String, limit: i64, offset: i64 },
}

/// The window that a request asks for: the offset and the limit without their signs,
/// from the start and a hundred scores when they are left out.
pub open spec fn window(offset: Option<i64>, limit: Option<i64>) -> (i64, i64) {
    (
        magnitude(
            match offset {
                Some(o) => o,
                None => 0,
            },
        ),
        magnitude(
            match limit {
                Some(l) => l,
                None => DEFAULT_LIMIT,
            },
        ),
    )
}

/// Plans a listing of scores. An id names the account directly; a name without an id
/// has to be looked up first.
pub fn get_scores(offset: Option<i64>, limit: Option<i64>, usr: Option<String>, id: Option<i32>) -> (r:
    ScorePlan)
    ensures
        match (id, usr) {
            (None, Some(name)) => r matches ScorePlan::Lookup { usr: u, limit: l, offset: o }
                && u@ == name@ && (o, l) == window(offset, limit),
            _ => r matches ScorePlan::Query(q) && q.usr_id == id && (q.offset, q.limit) == window(
                offset,
                limit,
            ),
        },
{
    let offset = magnitude_of(
        match offset {
            Some(o) => o,
            None => 0,
        },
    );
    let limit = magnitude_of(
        match limit {
            Some(l) => l,
            None => DEFAULT_LIMIT,
        },
    );
    match (id, usr) {
        (None, Some(name)) => ScorePlan::Lookup { usr: name, limit, offset },
        (id, _) => ScorePlan::Query(ScoreQuery { usr_id: id, limit, offset }),
    }
}

/// The JSON text of a list without items.
pub open spec fn empty_list() -> Seq<char> {
    "[]"@
}

/// Goes on with a listing once the account has been looked up by name: the scores of
/// the account that was found, the reply with no scores when there is none, or the
/// store's error.
pub fn scores_of(found: Result<Option<User>, String>, limit: i64, offset: i64) -> (r: Result<
    ScoreQuery,
    Response,
>)
    ensures
        match found {
            Ok(Some(account)) => r == Ok::<ScoreQuery, Response>(
                ScoreQuery { usr_id: Some(account.id), limit, offset },
            ),
            Ok(None) => r matches Err(response) && response.body_spec() == rendered_body(
                Ok(empty_list()),
            ) && response.status_spec() == Status::Success,
            Err(e) => r matches Err(response) && response.is_text(
                query_failure(e@),
                Status::InternalServerError,
            ),
        },
{
    match found {
        Ok(Some(account)) => Ok(ScoreQuery { usr_id: Some(account.id), limit, offset }),
        Ok(None) => Err(
            ResponseBuilder { data: Ok(String::from_str("[]")), status: Status::Success }.build(),
        ),
        Err(e) => Err(Response::store_failure(e.as_str())),
    }
}

/// Concludes a listing, given what the store found: the scores to send, or the store's
/// error.
pub fn scores_listed(rows: Result<Vec<Score>, String>) -> (r: Result<Vec<Score>, Response>)
    ensures
        match rows {
            Ok(found) => r matches Ok(listed) && listed@ == found@,
            Err(e) => r matches Err(response) && response.is_text(
                query_failure(e@),
                Status::InternalServerError,
            ),
        },
{
    match rows {
        Ok(found) => Ok(found),
        Err(e) => Err(Response::store_failure(e.as_str())),
    }
}

/// Takes a score that an account submits: the row to store for it, or the refusal of
/// a score with fewer stars than none. A stored score thus never lowers a balance.
pub fn add_score(claims: &Claims, new_score: NewScore) -> (r: Result<InsertableScore, Response>)
    ensures
        if new_score.num_stars < 0 {
            r matches Err(response) && response.is_text(
                "Stars Cannot Be Negative"@,
                Status::BadRequest,
            )
        } else {
            r == Ok::<InsertableScore, Response>(
                InsertableScore {
                    score: new_score.score,
                    num_stars: new_score.num_stars,
                    usr_id: claims.sub,
                },
            )
        },
{
    if new_score.num_stars < 0 {
        Err(Response::text("Stars Cannot Be Negative", Status::BadRequest))
    } else {
        Ok(
            InsertableScore {
                score: new_score.score,
                num_stars: new_score.num_stars,
                usr_id: claims.sub,
            },
        )
    }
}

/// Concludes the submission of a score, given what the store reports: the empty text
/// with the created status, or the store's error.
pub fn score_added(outcome: Result<usize, String>) -> (r: Response)
    ensures
        match outcome {
            Ok(_) => r.is_text(Seq::<char>::empty(), Status::Created),
            Err(e) => r.is_text(
                "Failed to insert into server "@ + e@,
                Status::InternalServerError,
            ),
        },
{
    match outcome {
        Ok(_) => {
            proof {
                reveal_strlit("");
                assert(""@ =~= Seq::<char>::empty());
            }
            Response::text("", Status::Created)
        },
        Err(e) => Response::failure("Failed to insert into server ", e.as_str()),
    }
}

} // verus!
