use crate::catalog::{
    costume_names, first_unlisted, Catalog, Costume, CostumeView, DecodeError,
};
use vstd::prelude::*;

verus! {

/// The costume every account may wear without unlocking it.
pub open spec fn default_costume() -> Seq<char> {
    "default"@
}

/// An account as the store holds it.
#[derive(Debug)]
pub struct User {
    pub id: i32,
    pub usr: String,
    /// The password hash, never the password
    pub pwd: String,
    /// The costume worn: the name of an unlocked costume, or `default`
    pub current_costume: String,
    /// The costumes unlocked
    pub costumes: Vec<Costume>,
    /// The names of the achievements granted
    pub achievements: Vec<String>,
}

pub struct UserView {
    pub id: int,
    pub usr: Seq<char>,
    pub pwd: Seq<char>,
    pub current_costume: Seq<char>,
    pub costumes: Seq<CostumeView>,
    pub achievements: Seq<Seq<char>>,
}

/// The views of a list of costumes, in order.
pub open spec fn costume_views(items: Seq<Costume>) -> Seq<CostumeView> {
    items.map_values(|c: Costume| c@)
}

/// The views of a list of texts, in order.
pub open spec fn text_views(items: Seq<String>) -> Seq<Seq<char>> {
    items.map_values(|s: String| s@)
}

impl View for User {
    type V = UserView;

    open spec fn view(&self) -> UserView {
        UserView {
            id: self.id as int,
            usr: self.usr@,
            pwd: self.pwd@,
            current_costume: self.current_costume@,
            costumes: costume_views(self.costumes@),
            achievements: text_views(self.achievements@),
        }
    }
}

impl UserView {
    /// The names of the costumes unlocked.
    pub open spec fn costume_keys(self) -> Set<Seq<char>> {
        self.costumes.map_values(|c: CostumeView| c.name).to_set()
    }

    /// The names of the achievements granted.
    pub open spec fn achievement_keys(self) -> Set<Seq<char>> {
        self.achievements.to_set()
    }

    /// Whether the account may wear the costume of that name.
    pub open spec fn may_wear(self, key: Seq<char>) -> bool {
        key == default_costume() || self.costume_keys().contains(key)
    }

    /// No costume and no achievement is held twice, and the costume worn is one the
    /// account may wear.
    pub open spec fn well_formed(self) -> bool {
        &&& self.costumes.map_values(|c: CostumeView| c.name).no_duplicates()
        &&& self.achievements.no_duplicates()
        &&& self.may_wear(self.current_costume)
    }
}

/// A score as the store holds it.
#[derive(Clone, Copy, Debug, PartialEq, Eq, Structural)]
pub struct Score {
    pub id: i32,
    pub usr_id: i32,
    pub num_stars: i32,
    pub score: i32,
}

/// A score as a player submits it.
#[derive(Clone, Copy, Debug, PartialEq, Eq, Structural)]
pub struct NewScore {
    pub score: i32,
    pub num_stars: i32,
}

/// A score ready to be stored for an account.
#[derive(Clone, Copy, Debug, PartialEq, Eq, Structural)]
pub struct InsertableScore {
    pub score: i32,
    pub num_stars: i32,
    pub usr_id: i32,
}

/// Credentials, as given when logging in or creating an account, and the row that a
/// new account starts from.
#[derive(Debug)]
pub struct UserCredentials {
    pub usr: String,
    pub pwd: String,
    pub current_costume: String,
    pub costumes: Vec<String>,
    pub achievements: Vec<String>,
}

/// The request to unlock the costume of a name.
#[derive(Debug)]
pub struct UnlockCostume {
    pub name: String,
}

/// What an account shows of itself: everything but the password hash.
#[derive(Debug)]
pub struct Profile {
    pub id: i32,
    pub usr: String,
    pub current_costume: String,
    pub costumes: Vec<Costume>,
    pub achievements: Vec<String>,
}

pub struct ProfileView {
    pub id: int,
    pub usr: Seq<char>,
    pub current_costume: Seq<char>,
    pub costumes: Seq<CostumeView>,
    pub achievements: Seq<Seq<char>>,
}

impl View for Profile {
    type V = ProfileView;

    open spec fn view(&self) -> ProfileView {
        ProfileView {
            id: self.id as int,
            usr: self.usr@,
            current_costume: self.current_costume@,
            costumes: costume_views(self.costumes@),
            achievements: text_views(self.achievements@),
        }
    }
}

/// The profile of an account.
pub open spec fn profile_of(account: UserView) -> ProfileView {
    ProfileView {
        id: account.id,
        usr: account.usr,
        current_costume: account.current_costume,
        costumes: account.costumes,
        achievements: account.achievements,
    }
}

/// A copy of a list of costumes.
pub fn copy_costumes(items: &Vec<Costume>) -> (copy: Vec<Costume>)
    ensures
        copy@ == items@,
{
    let mut copy: Vec<Costume> = Vec::new();
    let mut i: usize = 0;
    while i < items.len()
        invariant
            i <= items.len(),
            copy@ == items@.subrange(0, i as int),
        decreases items.len() - i,
    {
        copy.push(items[i].clone());
        assert(copy@ =~= items@.subrange(0, i + 1));
        i += 1;
    }
    assert(copy@ =~= items@);
    copy
}

/// A copy of a list of texts.
pub fn copy_texts(items: &Vec<String>) -> (copy: Vec<String>)
    ensures
        copy@ == items@,
{
    let mut copy: Vec<String> = Vec::new();
    let mut i: usize = 0;
    while i < items.len()
        invariant
            i <= items.len(),
            copy@ == items@.subrange(0, i as int),
        decreases items.len() - i,
    {
        copy.push(items[i].clone());
        assert(copy@ =~= items@.subrange(0, i + 1));
        i += 1;
    }
    assert(copy@ =~= items@);
    copy
}

impl Clone for User {
    fn clone(&self) -> (copy: User)
        ensures
            copy@ == self@,
    {
        User {
            id: self.id,
            usr: self.usr.clone(),
            pwd: self.pwd.clone(),
            current_costume: self.current_costume.clone(),
            costumes: copy_costumes(&self.costumes),
            achievements: copy_texts(&self.achievements),
        }
    }
}

impl User {
    /// What the account shows of itself. The password hash is left behind.
    pub fn profile(&self) -> (p: Profile)
        ensures
            p@ == profile_of(self@),
    {
        Profile {
            id: self.id,
            usr: self.usr.clone(),
            current_costume: self.current_costume.clone(),
            costumes: copy_costumes(&self.costumes),
            achievements: copy_texts(&self.achievements),
        }
    }
}

/// An account as a row of the store: its costumes are held by their keys.
#[derive(Debug)]
pub struct UserRow {
    pub id: i32,
    pub usr: String,
    pub pwd: String,
    pub current_costume: String,
    pub costumes: Vec<String>,
    pub achievements: Vec<String>,
}

impl User {
    /// Reads an account from its row, looking each key of a costume up in the catalog.
    /// A key under which no costume is listed fails the whole row.
    pub fn from_row(row: UserRow, catalog: &Catalog) -> (r: Result<User, DecodeError>)
        ensures
            match r {
                Ok(account) => {
                    &&& account.id == row.id
                    &&& account.usr@ == row.usr@
                    &&& account.pwd@ == row.pwd@
                    &&& account.current_costume@ == row.current_costume@
                    &&& account.achievements@ == row.achievements@
                    &&& account.costumes.len() == row.costumes.len()
                    &&& forall|i: int|
                        0 <= i < row.costumes.len() ==> catalog.costumes_spec().dom().contains(
                            #[trigger] row.costumes[i]@,
                        ) && account.costumes[i]@ == catalog.costumes_spec()[row.costumes[i]@]
                },
                Err(DecodeError::Unknown(k)) => exists|i: int|
                    #[trigger] first_unlisted(row.costumes@, catalog.costumes_spec().dom(), i)
                        && k@ == row.costumes[i]@,
                Err(DecodeError::Empty) => false,
            },
    {
        match catalog.decode_all(&row.costumes) {
            Ok(costumes) => Ok(
                User {
                    id: row.id,
                    usr: row.usr,
                    pwd: row.pwd,
                    current_costume: row.current_costume,
                    costumes,
                    achievements: row.achievements,
                },
            ),
            Err(e) => Err(e),
        }
    }

    /// The row to store for the account: its costumes by their keys, in order.
    pub fn to_row(&self) -> (row: UserRow)
        ensures
            row.id == self.id,
            row.usr@ == self.usr@,
            row.pwd@ == self.pwd@,
            row.current_costume@ == self.current_costume@,
            row.achievements@ == self.achievements@,
            text_views(row.costumes@) == costume_names(self.costumes@),
    {
        let mut keys: Vec<String> = Vec::new();
        let mut i: usize = 0;
        while i < self.costumes.len()
            invariant
                i <= self.costumes.len(),
                keys.len() == i,
                text_views(keys@) == costume_names(self.costumes@.subrange(0, i as int)),
            decreases self.costumes.len() - i,
        {
            let ghost before = keys@;
            keys.push(self.costumes[i].name.clone());
            assert forall|j: int| 0 <= j < i + 1 implies text_views(keys@)[j] == costume_names(
                self.costumes@.subrange(0, i + 1),
            )[j] by {
                if j < i {
                    assert(text_views(before)[j] == costume_names(
                        self.costumes@.subrange(0, i as int),
                    )[j]);
                }
            }
            assert(text_views(keys@) =~= costume_names(self.costumes@.subrange(0, i + 1)));
            i += 1;
        }
        assert(self.costumes@.subrange(0, i as int) =~= self.costumes@);
        UserRow {
            id: self.id,
            usr: self.usr.clone(),
            pwd: self.pwd.clone(),
            current_costume: self.current_costume.clone(),
            costumes: keys,
            achievements: copy_texts(&self.achievements),
        }
    }
}

/// Reads what the store gave when asked for an account: the account behind the row, if
/// there is one, or the text of what went wrong. A row that does not read through the
/// catalog counts as an error of the store.
pub fn read_account(found: Result<Option<UserRow>, String>, catalog: &Catalog) -> (r: Result<
    Option<User>,
    String,
>)
    ensures
        match found {
            Err(e) => r matches Err(text) && text@ == e@,
            Ok(None) => r matches Ok(None),
            Ok(Some(row)) => match r {
                Ok(Some(account)) => {
                    &&& account.id == row.id
                    &&& account.usr@ == row.usr@
                    &&& account.pwd@ == row.pwd@
                    &&& account.current_costume@ == row.current_costume@
                    &&& account.achievements@ == row.achievements@
                    &&& account.costumes.len() == row.costumes.len()
                    &&& forall|i: int|
                        0 <= i < row.costumes.len() ==> catalog.costumes_spec().dom().contains(
                            #[trigger] row.costumes[i]@,
                        ) && account.costumes[i]@ == catalog.costumes_spec()[row.costumes[i]@]
                },
                Ok(None) => false,
                Err(text) => exists|i: int|
                    #[trigger] first_unlisted(row.costumes@, catalog.costumes_spec().dom(), i)
                        && text@ == "no costume is listed under the key "@ + row.costumes[i]@,
            },
        },
{
    match found {
        Err(e) => Err(e),
        Ok(None) => Ok(None),
        Ok(Some(row)) => match User::from_row(row, catalog) {
            Ok(account) => Ok(Some(account)),
            Err(e) => Err(e.message()),
        },
    }
}

/// An account that starts with the default costume, wearing it, and with no
/// achievement is well formed.
pub proof fn lemma_new_account_well_formed(account: UserView)
    requires
        account.current_costume == default_costume(),
        account.costumes.map_values(|c: CostumeView| c.name) == seq![default_costume()],
        account.achievements == Seq::<Seq<char>>::empty(),
    ensures
        account.well_formed(),
{
}

/// The profile of an account does not depend on its password hash: two accounts that
/// differ in nothing else show the same.
pub proof fn lemma_profile_hides_hash(a: UserView, b: UserView)
    requires
        a.id == b.id,
        a.usr == b.usr,
        a.current_costume == b.current_costume,
        a.costumes == b.costumes,
        a.achievements == b.achievements,
    ensures
        profile_of(a) == profile_of(b),
{
}

} // verus!
