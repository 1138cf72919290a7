use crate::account::{default_costume, profile_of, text_views, Profile, User, UserCredentials};
use crate::envelope::{query_failure, Response, Status};
use crate::hasher::{hash, verify, verify_spec, HashingError};
use crate::token::{is_token_reply, issue_reply, AuthConfig};
use vstd::prelude::*;
use vstd::string::*;

verus! {

/// The least number of bytes in a password.
pub const MIN_PASSWORD_LEN: usize = 8;

/// The length of a text in bytes.
pub open spec fn byte_len(text: Seq<char>) -> nat {
    vstd::utf8::encode_utf8(text).len()
}

/// What an account shows of itself when asked: its profile, that there is none, or the
/// store's error.
pub fn get_student(found: Result<Option<User>, String>) -> (r: Result<Profile, Response>)
    ensures
        match found {
            Ok(Some(account)) => r matches Ok(profile) && profile@ == profile_of(account@),
            Ok(None) => r matches Err(response) && response.is_text(
                "User Not Found"@,
                Status::NotFound,
            ),
            Err(e) => r matches Err(response) && response.is_text(
                query_failure(e@),
                Status::InternalServerError,
            ),
        },
{
    match found {
        Ok(Some(account)) => Ok(account.profile()),
        Ok(None) => Err(Response::text("User Not Found", Status::NotFound)),
        Err(e) => Err(Response::store_failure(e.as_str())),
    }
}

/// What stands against a login: nothing, or the text and the status of the refusal.
/// An unknown name and a wrong password are told apart by nothing.
pub open spec fn login_refusal(found: Result<Option<User>, String>, password: Seq<char>) -> Option<
    (Seq<char>, Status),
> {
    match found {
        Err(e) => Some((query_failure(e@), Status::InternalServerError)),
        Ok(None) => Some(("Incorrect Password or Username"@, Status::BadRequest)),
        Ok(Some(account)) => match verify_spec(password, account.pwd@) {
            Err(e) => Some(
                ("Failed to compare hashes "@ + e.message_spec(), Status::InternalServerError),
            ),
            Ok(false) => Some(("Incorrect Password or Username"@, Status::BadRequest)),
            Ok(true) => None,
        },
    }
}

/// Checks credentials against the account that the store gave for their name: the id
/// of the account when the password is the account's, else the refusal.
pub fn check_login(credentials: &UserCredentials, found: &Result<Option<User>, String>) -> (r:
    Result<i32, Response>)
    ensures
        match login_refusal(*found, credentials.pwd@) {
            None => found matches Ok(Some(account)) && r == Ok::<i32, Response>(account.id),
            Some((text, status)) => r matches Err(response) && response.is_text(text, status),
        },
{
    match found {
        Err(e) => Err(Response::store_failure(e.as_str())),
        Ok(None) => Err(Response::text("Incorrect Password or Username", Status::BadRequest)),
        Ok(Some(account)) => match verify(credentials.pwd.as_str(), account.pwd.as_str()) {
            Err(e) => Err(Response::failure("Failed to compare hashes ", e.message().as_str())),
            Ok(false) => Err(
                Response::text("Incorrect Password or Username", Status::BadRequest),
            ),
            Ok(true) => Ok(account.id),
        },
    }
}

/// Logs a player in: a token for the account found under the name when the password
/// is the account's, else the refusal.
pub fn login_student(
    credentials: &UserCredentials,
    found: &Result<Option<User>, String>,
    now: usize,
    config: &AuthConfig,
) -> (r: Response)
    ensures
        match login_refusal(*found, credentials.pwd@) {
            None => found matches Ok(Some(account)) && is_token_reply(
                r,
                account.id,
                now,
                config,
                Status::Success,
            ),
            Some((text, status)) => r.is_text(text, status),
        },
{
    match check_login(credentials, found) {
        Ok(id) => issue_reply(id, now, config, Status::Success),
        Err(response) => response,
    }
}

/// What stands against a new account before its password is hashed: nothing, or the
/// text and the status of the refusal. The password is looked at before what the store
/// gave for the name.
pub open spec fn admission_refusal(password: Seq<char>, existing: Result<Option<User>, String>) -> Option<
    (Seq<char>, Status),
> {
    if byte_len(password) < MIN_PASSWORD_LEN {
        Some(("Password Too Short"@, Status::BadRequest))
    } else {
        match existing {
            Err(e) => Some((query_failure(e@), Status::InternalServerError)),
            Ok(Some(_)) => Some(("Username Taken"@, Status::BadRequest)),
            Ok(None) => None,
        }
    }
}

/// Decides whether an account may be created for the credentials, given what the store
/// gave for their name.
pub fn check_admission(credentials: &UserCredentials, existing: &Result<Option<User>, String>) -> (r:
    Result<(), Response>)
    ensures
        match admission_refusal(credentials.pwd@, *existing) {
            None => r is Ok,
            Some((text, status)) => r matches Err(response) && response.is_text(text, status),
        },
{
    if credentials.pwd.as_str().as_bytes().len() < MIN_PASSWORD_LEN {
        return Err(Response::text("Password Too Short", Status::BadRequest));
    }
    match existing {
        Err(e) => Err(Response::store_failure(e.as_str())),
        Ok(Some(_)) => Err(Response::text("Username Taken", Status::BadRequest)),
        Ok(None) => Ok(()),
    }
}

/// Whether a row is the one a new account starts from: the name given, the hash in
/// place of the password, wearing the default costume and holding nothing else.
pub open spec fn is_starting_row(row: UserCredentials, name: Seq<char>, blob: Seq<char>) -> bool {
    &&& row.usr@ == name
    &&& row.pwd@ == blob
    &&& row.current_costume@ == default_costume()
    &&& text_views(row.costumes@) == seq![default_costume()]
    &&& text_views(row.achievements@) == Seq::<Seq<char>>::empty()
}

/// The row to store for a new account, given what hashing its password gave.
pub fn starting_row(credentials: UserCredentials, hashed: Result<String, HashingError>) -> (r:
    Result<UserCredentials, Response>)
    ensures
        match hashed {
            Ok(blob) => r matches Ok(row) && is_starting_row(row, credentials.usr@, blob@),
            Err(e) => r matches Err(response) && response.is_text(
                "Unable to hash password "@ + e.message_spec(),
                Status::InternalServerError,
            ),
        },
{
    match hashed {
        Err(e) => Err(Response::failure("Unable to hash password ", e.message().as_str())),
        Ok(blob) => {
            let mut costumes: Vec<String> = Vec::new();
            costumes.push(String::from_str("default"));
            let row = UserCredentials {
                usr: credentials.usr,
                pwd: blob,
                current_costume: String::from_str("default"),
                costumes,
                achievements: Vec::new(),
            };
            assert(text_views(row.costumes@) =~= seq![default_costume()]);
            assert(text_views(row.achievements@) =~= Seq::<Seq<char>>::empty());
            Ok(row)
        },
    }
}

/// Prepares a new account: refuses a password that is too short and a name that is
/// taken, in that order, and else hashes the password into the row to store. The
/// password checks against the hash in the row.
pub fn create_student(credentials: UserCredentials, existing: &Result<Option<User>, String>) -> (r:
    Result<UserCredentials, Response>)
    ensures
        match admission_refusal(credentials.pwd@, *existing) {
            Some((text, status)) => r matches Err(response) && response.is_text(text, status),
            None => match r {
                Ok(row) => is_starting_row(row, credentials.usr@, row.pwd@) && verify_spec(
                    credentials.pwd@,
                    row.pwd@,
                ) == Ok::<bool, HashingError>(true),
                Err(response) => response.is_text(
                    "Unable to hash password "@ + HashingError::Backend.message_spec(),
                    Status::InternalServerError,
                ),
            },
        },
{
    match check_admission(&credentials, existing) {
        Err(response) => Err(response),
        Ok(()) => {
            let hashed = hash(credentials.pwd.as_str());
            starting_row(credentials, hashed)
        },
    }
}

/// Concludes the creation of an account, given what the store made of the row: a
/// token for the new account with the created status, or the store's error.
pub fn account_created(inserted: Result<User, String>, now: usize, config: &AuthConfig) -> (r:
    Response)
    ensures
        match inserted {
            Ok(account) => is_token_reply(r, account.id, now, config, Status::Created),
            Err(e) => r.is_text(
                "Failed to insert into server "@ + e@,
                Status::InternalServerError,
            ),
        },
{
    match inserted {
        Ok(account) => issue_reply(account.id, now, config, Status::Created),
        Err(e) => Response::failure("Failed to insert into server ", e.as_str()),
    }
}

/// A deletion that has found its account: the account's scores are to be deleted next.
pub struct ScoresPending {
    id: i32,
}

/// A deletion whose scores are gone: the account itself is to be deleted next.
pub struct AccountPending {
    id: i32,
}

/// Starts the deletion of an account, given what the store gave for the caller's
/// account. The scores go first: only the value that comes back when they are gone
/// lets the account itself be deleted.
pub fn delete_student(found: Result<Option<User>, String>) -> (r: Result<ScoresPending, Response>)
    ensures
        match found {
            Ok(Some(account)) => r matches Ok(pending) && pending.account_id_spec() == account.id,
            Ok(None) => r matches Err(response) && response.is_text(
                "User Not Found"@,
                Status::NotFound,
            ),
            Err(e) => r matches Err(response) && response.is_text(
                query_failure(e@),
                Status::InternalServerError,
            ),
        },
{
    match found {
        Ok(Some(account)) => Ok(ScoresPending { id: account.id }),
        Ok(None) => Err(Response::text("User Not Found", Status::NotFound)),
        Err(e) => Err(Response::store_failure(e.as_str())),
    }
}

impl ScoresPending {
    /// The account whose scores are to be deleted.
    pub closed spec fn account_id_spec(&self) -> i32 {
        self.id
    }

    /// The account whose scores are to be deleted.
    pub fn account_id(&self) -> (id: i32)
        ensures
            id == self.account_id_spec(),
    {
        self.id
    }

    /// Goes on once the store has deleted the scores, or reports that it could not;
    /// then the account is left as it is.
    pub fn scores_deleted(self, outcome: Result<usize, String>) -> (r: Result<
        AccountPending,
        Response,
    >)
        ensures
            match outcome {
                Ok(_) => r matches Ok(pending) && pending.account_id_spec()
                    == self.account_id_spec(),
                Err(e) => r matches Err(response) && response.is_text(
                    "Unable to delete users scores due to error "@ + e@,
                    Status::InternalServerError,
                ),
            },
    {
        match outcome {
            Ok(_) => Ok(AccountPending { id: self.id }),
            Err(e) => Err(
                Response::failure("Unable to delete users scores due to error ", e.as_str()),
            ),
        }
    }
}

impl AccountPending {
    /// The account that is to be deleted.
    pub closed spec fn account_id_spec(&self) -> i32 {
        self.id
    }

    /// The account that is to be deleted.
    pub fn account_id(&self) -> (id: i32)
        ensures
            id == self.account_id_spec(),
    {
        self.id
    }

    /// Concludes the deletion, given the account that the store deleted. An account
    /// that could not be deleted after its scores were is reported as a fault of its
    /// own.
    pub fn account_deleted(self, outcome: Result<User, String>) -> (r: Response)
        ensures
            match outcome {
                Ok(account) => r.is_text(
                    "Account "@ + account.usr@ + " deleted"@,
                    Status::Success,
                ),
                Err(e) => r.is_text(
                    "Unable to delete user due to error "@ + e@,
                    Status::InternalServerError,
                ),
            },
    {
        match outcome {
            Ok(account) => {
                let message = String::from_str("Account ").concat(account.usr.as_str()).concat(
                    " deleted",
                );
                Response::text(message.as_str(), Status::Success)
            },
            Err(e) => Response::failure("Unable to delete user due to error ", e.as_str()),
        }
    }
}

} // verus!
