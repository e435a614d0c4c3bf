//! The GraphQL queries: who may read what, and how a caller is identified.
use vstd::prelude::*;
use crate::text::{occurs_at, parse_uuid, strip_prefix, uuid_parsed, uuid_text, uuid_to_string};

verus! {

/// A plan as the query answers it.
#[derive(Debug, Clone)]
pub struct Plan {
    pub id: String,
    pub user_id: String,
    pub status: String,
}

/// A user's lending reputation as the query answers it.
#[derive(Debug, Clone)]
pub struct UserReputation {
    pub user_id: String,
    pub score: i32,
    pub total_loans_taken: i32,
    pub total_loans_repaid: i32,
}

/// The identity of the caller.
#[derive(Debug, Clone)]
pub struct UserClaims {
    pub user_id: u128,
    pub email: String,
    pub exp: u64,
}

/// E-mail given to a caller identified by the legacy `X-User-Id` header.
pub open spec fn legacy_email() -> Seq<char> {
    "legacy-test@example.com"@
}

/// The token of an `Authorization` header: what follows `Bearer `.
pub fn bearer_token(authorization: &str) -> (r: Option<&str>)
    ensures
        r is Some <==> occurs_at(authorization@, "Bearer "@, 0),
        r matches Some(t) ==> t@ == authorization@.subrange(7, authorization@.len() as int),
{
    proof {
        reveal_strlit("Bearer ");
    }
    strip_prefix(authorization, "Bearer ")
}

/// The caller: the claims of a valid bearer token; failing those, the user
/// named by a legacy `X-User-Id` header that reads as a UUID; else nobody.
pub fn extract_user_claims(bearer_claims: Option<UserClaims>, x_user_id: Option<&str>) -> (r: Option<
    UserClaims,
>)
    ensures
        bearer_claims is Some ==> r == bearer_claims,
        bearer_claims is None ==> (r is Some <==> (x_user_id matches Some(h) && uuid_parsed(h@)
            is Some)),
        bearer_claims is None && r is Some ==> {
            &&& Some(r->0.user_id) == uuid_parsed(x_user_id->0@)
            &&& r->0.email@ == legacy_email()
            &&& r->0.exp == 0
        },
{
    if bearer_claims.is_some() {
        return bearer_claims;
    }
    match x_user_id {
        Some(h) => match parse_uuid(h) {
            Some(user_id) => Some(
                UserClaims { user_id, email: "legacy-test@example.com".to_owned(), exp: 0 },
            ),
            None => None,
        },
        None => None,
    }
}

/// The query root.
pub struct QueryRoot;

impl QueryRoot {
    /// The id argument of a query, which must be a UUID.
    pub fn parse_id(id: &str) -> (r: Result<u128, &'static str>)
        ensures
            uuid_parsed(id@) matches Some(v) ==> r == Ok::<u128, &'static str>(v),
            uuid_parsed(id@) is None ==> (r matches Err(m) && m@ == "Invalid ID"@),
    {
        match parse_uuid(id) {
            Some(v) => Ok(v),
            None => Err("Invalid ID"),
        }
    }

    /// A caller sees only their own reputation.
    pub fn reputation_visible(requested: u128, caller: &UserClaims) -> (r: bool)
        ensures
            r == (requested == caller.user_id),
    {
        requested == caller.user_id
    }

    /// The plan answer for a plan row.
    pub fn plan_from_row(id: u128, user_id: u128, status: String) -> (r: Plan)
        ensures
            r.id@ == uuid_text(id),
            r.user_id@ == uuid_text(user_id),
            r.status == status,
    {
        Plan { id: uuid_to_string(id), user_id: uuid_to_string(user_id), status }
    }

    /// The reputation answer for a reputation row.
    pub fn reputation_from_row(
        user_id: u128,
        score: i32,
        total_loans_taken: i32,
        total_loans_repaid: i32,
    ) -> (r: UserReputation)
        ensures
            r.user_id@ == uuid_text(user_id),
            r.score == score,
            r.total_loans_taken == total_loans_taken,
            r.total_loans_repaid == total_loans_repaid,
    {
        UserReputation {
            user_id: uuid_to_string(user_id),
            score,
            total_loans_taken,
            total_loans_repaid,
        }
    }
}

} // verus!
