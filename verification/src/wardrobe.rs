use crate::account::{
    default_costume, profile_of, Profile, Score, UnlockCostume, User, UserView,
};
use crate::catalog::{costume_names, costumes_by_name, Catalog, Costume, CostumeView};
use crate::envelope::{query_failure, Response, Status};
use crate::ledger::{
    set_active_item, set_active_item_spec, star_sum, unlock_achievement_spec,
    unlock_costume_spec, LedgerError,
};
use vstd::prelude::*;

verus! {

/// What the store gave when asked for an account: the account, nothing, or an error.
pub open spec fn lookup_view(found: Result<Option<User>, String>) -> Result<
    Option<UserView>,
    Seq<char>,
> {
    match found {
        Ok(Some(account)) => Ok(Some(account@)),
        Ok(None) => Ok(None),
        Err(e) => Err(e@),
    }
}

/// What the store gave when asked for scores: the scores, or an error.
pub open spec fn scores_view(scores: Result<Vec<Score>, String>) -> Result<Seq<Score>, Seq<char>> {
    match scores {
        Ok(rows) => Ok(rows@),
        Err(e) => Err(e@),
    }
}

/// Whether a result holds the account, or the reply that refuses, that were expected.
pub open spec fn settles(r: Result<User, Response>, expected: Result<UserView, (Seq<char>, Status)>) -> bool {
    match expected {
        Ok(account) => r matches Ok(updated) && updated@ == account,
        Err((text, status)) => r matches Err(response) && response.is_text(text, status),
    }
}

/// A ledger's verdict as it goes out: the account, or the text and status of the error.
pub open spec fn published(verdict: Result<UserView, LedgerError>) -> Result<
    UserView,
    (Seq<char>, Status),
> {
    match verdict {
        Ok(account) => Ok(account),
        Err(e) => Err((e.message_spec(), e.status_spec())),
    }
}

/// The costumes an account has unlocked, or why they cannot be shown.
pub fn get_costumes(found: Result<Option<User>, String>) -> (r: Result<Vec<Costume>, Response>)
    ensures
        match found {
            Ok(Some(account)) => r matches Ok(costumes) && costumes@ == account.costumes@,
            Ok(None) => r matches Err(response) && response.is_text(
                "User not found in database!"@,
                Status::NotFound,
            ),
            Err(e) => r matches Err(response) && response.is_text(
                query_failure(e@),
                Status::InternalServerError,
            ),
        },
{
    match found {
        Ok(Some(account)) => Ok(account.costumes),
        Ok(None) => Err(Response::text("User not found in database!", Status::NotFound)),
        Err(e) => Err(Response::store_failure(e.as_str())),
    }
}

/// Every costume on offer.
pub fn get_costume_information(catalog: &Catalog) -> (all: Vec<Costume>)
    ensures
        costume_names(all@).no_duplicates(),
        costumes_by_name(all@) == catalog.costumes_spec(),
{
    catalog.costumes()
}

/// Whether a request to unlock a costume can go on to the store: the costume must be
/// on offer.
pub fn costume_on_offer(catalog: &Catalog, costume: &UnlockCostume) -> (r: Result<(), Response>)
    ensures
        if catalog.costumes_spec().dom().contains(costume.name@) {
            r is Ok
        } else {
            r matches Err(response) && response.is_text(
                LedgerError::UnknownCostume.message_spec(),
                LedgerError::UnknownCostume.status_spec(),
            )
        },
{
    if catalog.contains_key(costume.name.as_str()) {
        Ok(())
    } else {
        Err(LedgerError::UnknownCostume.response())
    }
}

/// Whether a request for an achievement can go on to the store: the achievement must
/// be on offer.
pub fn achievement_on_offer(catalog: &Catalog, name: &str) -> (r: Result<(), Response>)
    ensures
        if catalog.achievements_spec().dom().contains(name@) {
            r is Ok
        } else {
            r matches Err(response) && response.is_text(
                LedgerError::UnknownAchievement.message_spec(),
                LedgerError::UnknownAchievement.status_spec(),
            )
        },
{
    if catalog.has_achievement(name) {
        Ok(())
    } else {
        Err(LedgerError::UnknownAchievement.response())
    }
}

/// Whether a request to wear a costume can go on to the store: the costume must be
/// the default one or on offer.
pub fn costume_wearable(catalog: &Catalog, costume: &str) -> (r: Result<(), Response>)
    ensures
        if costume@ == default_costume() || catalog.costumes_spec().dom().contains(costume@) {
            r is Ok
        } else {
            r matches Err(response) && response.is_text(
                LedgerError::UnknownCostume.message_spec(),
                LedgerError::UnknownCostume.status_spec(),
            )
        },
{
    match set_active_item(None, catalog, costume) {
        Err(LedgerError::UnknownCostume) => Err(LedgerError::UnknownCostume.response()),
        _ => Ok(()),
    }
}

/// What asking to wear a costume comes to, given what the store gave for the account.
/// A costume that is not on offer is refused before the store's answer is looked at.
pub open spec fn set_user_costume_outcome(
    found: Result<Option<UserView>, Seq<char>>,
    costumes: Map<Seq<char>, CostumeView>,
    key: Seq<char>,
) -> Result<UserView, (Seq<char>, Status)> {
    match found {
        Ok(account) => published(set_active_item_spec(account, costumes, key)),
        Err(e) => match set_active_item_spec(None, costumes, key) {
            Err(LedgerError::AccountVanished) => Err(
                (query_failure(e), Status::InternalServerError),
            ),
            other => published(other),
        },
    }
}

/// Sets the costume that an account wears. What comes back is the account to store,
/// or the reply that refuses.
pub fn set_user_costume(found: Result<Option<User>, String>, catalog: &Catalog, costume: &str) -> (r:
    Result<User, Response>)
    ensures
        settles(
            r,
            set_user_costume_outcome(lookup_view(found), catalog.costumes_spec(), costume@),
        ),
{
    match found {
        Ok(account) => match set_active_item(account.as_ref(), catalog, costume) {
            Ok(updated) => Ok(updated),
            Err(e) => Err(e.response()),
        },
        Err(e) => match set_active_item(None, catalog, costume) {
            Ok(updated) => Ok(updated),
            Err(LedgerError::AccountVanished) => Err(
                Response::store_failure(e.as_str()),
            ),
            Err(other) => Err(other.response()),
        },
    }
}

/// What a request to unlock a costume comes to, given what the store gave for the
/// account and for its scores. The checks go in this order: the costume is on offer,
/// the scores could be read, the stars cover the price, the account could be read, the
/// account is there.
pub open spec fn unlock_costume_outcome(
    found: Result<Option<UserView>, Seq<char>>,
    scores: Result<Seq<Score>, Seq<char>>,
    costumes: Map<Seq<char>, CostumeView>,
    key: Seq<char>,
) -> Result<UserView, (Seq<char>, Status)> {
    if !costumes.dom().contains(key) {
        published(Err(LedgerError::UnknownCostume))
    } else {
        match scores {
            Err(e) => Err((query_failure(e), Status::InternalServerError)),
            Ok(rows) => match found {
                Ok(account) => published(
                    unlock_costume_spec(account, star_sum(rows), costumes, key),
                ),
                Err(e) => match unlock_costume_spec(None, star_sum(rows), costumes, key) {
                    Err(LedgerError::AccountVanished) => Err(
                        (query_failure(e), Status::InternalServerError),
                    ),
                    other => published(other),
                },
            },
        }
    }
}

/// Unlocks a costume for an account. What comes back is the account to store, which
/// holds the costume, or the reply that refuses.
pub fn unlock_costume(
    found: Result<Option<User>, String>,
    scores: Result<Vec<Score>, String>,
    catalog: &Catalog,
    costume: &UnlockCostume,
) -> (r: Result<User, Response>)
    ensures
        settles(
            r,
            unlock_costume_outcome(
                lookup_view(found),
                scores_view(scores),
                catalog.costumes_spec(),
                costume.name@,
            ),
        ),
{
    let key = costume.name.as_str();
    match costume_on_offer(catalog, costume) {
        Ok(()) => {},
        Err(refusal) => {
            return Err(refusal);
        },
    }
    let rows = match scores {
        Ok(rows) => rows,
        Err(e) => {
            return Err(Response::store_failure(e.as_str()));
        },
    };
    match found {
        Ok(account) => match crate::ledger::unlock_costume(account.as_ref(), &rows, catalog, key) {
            Ok(updated) => Ok(updated),
            Err(e) => Err(e.response()),
        },
        Err(e) => match crate::ledger::unlock_costume(None, &rows, catalog, key) {
            Ok(updated) => Ok(updated),
            Err(LedgerError::AccountVanished) => Err(
                Response::store_failure(e.as_str()),
            ),
            Err(other) => Err(other.response()),
        },
    }
}

/// What a request for an achievement comes to, given what the store gave for the
/// account.
pub open spec fn unlock_achievement_outcome(
    found: Result<Option<UserView>, Seq<char>>,
    achievements: Set<Seq<char>>,
    key: Seq<char>,
) -> Result<UserView, (Seq<char>, Status)> {
    match found {
        Ok(account) => published(unlock_achievement_spec(account, achievements, key)),
        Err(e) => match unlock_achievement_spec(None, achievements, key) {
            Err(LedgerError::AccountVanished) => Err(
                (query_failure(e), Status::InternalServerError),
            ),
            other => published(other),
        },
    }
}

/// Grants an achievement to an account. What comes back is the account to store, which
/// holds the achievement, or the reply that refuses.
pub fn unlock_achievement(found: Result<Option<User>, String>, catalog: &Catalog, name: &str) -> (r:
    Result<User, Response>)
    ensures
        settles(
            r,
            unlock_achievement_outcome(
                lookup_view(found),
                catalog.achievements_spec().dom(),
                name@,
            ),
        ),
{
    match found {
        Ok(account) => match crate::ledger::unlock_achievement(account.as_ref(), catalog, name) {
            Ok(updated) => Ok(updated),
            Err(e) => Err(e.response()),
        },
        Err(e) => match crate::ledger::unlock_achievement(None, catalog, name) {
            Ok(updated) => Ok(updated),
            Err(LedgerError::AccountVanished) => Err(
                Response::store_failure(e.as_str()),
            ),
            Err(other) => Err(other.response()),
        },
    }
}

/// Concludes a change to an account, given what the store made of writing it: what
/// the account now shows of itself, or the store's error.
pub fn account_stored(updated: &User, outcome: Result<(), String>) -> (r: Result<Profile, Response>)
    ensures
        match outcome {
            Ok(_) => r matches Ok(profile) && profile@ == profile_of(updated@),
            Err(e) => r matches Err(response) && response.is_text(
                query_failure(e@),
                Status::InternalServerError,
            ),
        },
{
    match outcome {
        Ok(_) => Ok(updated.profile()),
        Err(e) => Err(Response::store_failure(e.as_str())),
    }
}

} // verus!
