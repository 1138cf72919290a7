use crate::account::{costume_views, default_costume, text_views, Score, User, UserView};
use crate::catalog::{
    costume_names, find_costume, lemma_names_after_push, Catalog, Costume, CostumeView,
};
use crate::envelope::{Response, Status};
use vstd::prelude::*;
use vstd::string::*;

verus! {

/// Why the ledger turned a request down.
#[derive(Clone, Copy, Debug, PartialEq, Eq, Structural)]
pub enum LedgerError {
    /// No costume is listed under the key.
    UnknownCostume,
    /// No achievement is listed under the key.
    UnknownAchievement,
    /// The account has earned fewer stars than the costume costs.
    InsufficientFunds,
    /// The account was not there any more when the grant was to be made.
    AccountVanished,
    /// The account has not unlocked the costume it asks to wear.
    NotOwned,
}

impl LedgerError {
    /// The status with which the error goes out: a request for something that is not
    /// on offer, not paid for or not owned is the caller's fault, an account that is
    /// gone is not found.
    pub open spec fn status_spec(self) -> Status {
        match self {
            LedgerError::AccountVanished => Status::NotFound,
            _ => Status::BadRequest,
        }
    }

    /// The text with which the error goes out.
    pub open spec fn message_spec(self) -> Seq<char> {
        match self {
            LedgerError::UnknownCostume => "unknown costume"@,
            LedgerError::UnknownAchievement => "unknown achievement"@,
            LedgerError::InsufficientFunds => "Costume is too expensive"@,
            LedgerError::AccountVanished => "account vanished"@,
            LedgerError::NotOwned => "Costume is not unlocked"@,
        }
    }

    /// The status with which the error goes out.
    pub fn status(&self) -> (s: Status)
        ensures
            s == self.status_spec(),
    {
        match self {
            LedgerError::AccountVanished => Status::NotFound,
            _ => Status::BadRequest,
        }
    }

    /// The text with which the error goes out.
    pub fn message(&self) -> (m: String)
        ensures
            m@ == self.message_spec(),
    {
        match self {
            LedgerError::UnknownCostume => String::from_str("unknown costume"),
            LedgerError::UnknownAchievement => String::from_str("unknown achievement"),
            LedgerError::InsufficientFunds => String::from_str("Costume is too expensive"),
            LedgerError::AccountVanished => String::from_str("account vanished"),
            LedgerError::NotOwned => String::from_str("Costume is not unlocked"),
        }
    }

    /// The reply that reports the error.
    pub fn response(&self) -> (r: Response)
        ensures
            r.is_text(self.message_spec(), self.status_spec()),
    {
        Response::text(self.message().as_str(), self.status())
    }
}

/// The stars earned over a list of scores.
pub open spec fn star_sum(scores: Seq<Score>) -> int
    decreases scores.len(),
{
    if scores.len() == 0 {
        0
    } else {
        star_sum(scores.drop_last()) + scores.last().num_stars
    }
}

/// The stars over a list of scores lie within what so many scores can hold.
pub proof fn lemma_star_sum_bounds(scores: Seq<Score>)
    ensures
        scores.len() * i32::MIN <= star_sum(scores) <= scores.len() * i32::MAX,
    decreases scores.len(),
{
    if scores.len() > 0 {
        lemma_star_sum_bounds(scores.drop_last());
        assert((scores.len() - 1) * i32::MAX + i32::MAX == scores.len() * i32::MAX)
            by (nonlinear_arith);
        assert((scores.len() - 1) * i32::MIN + i32::MIN == scores.len() * i32::MIN)
            by (nonlinear_arith);
    }
}

/// A score without negative stars never lowers a balance.
pub proof fn lemma_balance_never_decreases(scores: Seq<Score>, added: Score)
    requires
        added.num_stars >= 0,
    ensures
        star_sum(scores.push(added)) == star_sum(scores) + added.num_stars,
        star_sum(scores.push(added)) >= star_sum(scores),
{
    assert(scores.push(added).drop_last() =~= scores);
}

/// The balance over scores without negative stars is not negative.
pub proof fn lemma_balance_not_negative(scores: Seq<Score>)
    requires
        forall|i: int| 0 <= i < scores.len() ==> scores[i].num_stars >= 0,
    ensures
        star_sum(scores) >= 0,
    decreases scores.len(),
{
    if scores.len() > 0 {
        lemma_balance_not_negative(scores.drop_last());
    }
}

/// The balance of an account: the stars earned over its scores.
pub fn star_balance(scores: &Vec<Score>) -> (total: i128)
    ensures
        total == star_sum(scores@),
{
    let mut total: i128 = 0;
    let mut i: usize = 0;
    while i < scores.len()
        invariant
            i <= scores.len(),
            total == star_sum(scores@.subrange(0, i as int)),
        decreases scores.len() - i,
    {
        proof {
            let next = scores@.subrange(0, i + 1);
            assert(next.drop_last() =~= scores@.subrange(0, i as int));
            lemma_star_sum_bounds(scores@.subrange(0, i as int));
            assert(i * i32::MAX <= usize::MAX * i32::MAX) by (nonlinear_arith)
                requires
                    i <= usize::MAX,
            ;
            assert(i * i32::MIN >= usize::MAX * i32::MIN) by (nonlinear_arith)
                requires
                    i <= usize::MAX,
            ;
        }
        total = total + scores[i].num_stars as i128;
        i += 1;
    }
    assert(scores@.subrange(0, i as int) =~= scores@);
    total
}

/// The account with a costume added, unless it holds one of that name.
pub open spec fn with_costume(account: UserView, item: CostumeView) -> UserView {
    if account.costume_keys().contains(item.name) {
        account
    } else {
        UserView { costumes: account.costumes.push(item), ..account }
    }
}

/// The account with an achievement added, unless it holds it.
pub open spec fn with_achievement(account: UserView, key: Seq<char>) -> UserView {
    if account.achievement_keys().contains(key) {
        account
    } else {
        UserView { achievements: account.achievements.push(key), ..account }
    }
}

/// The account wearing the costume of a name.
pub open spec fn wearing(account: UserView, key: Seq<char>) -> UserView {
    UserView { current_costume: key, ..account }
}

/// What unlocking a costume comes to: for the account that the store found, if any, the
/// balance from its scores, the costumes on offer and the key asked for.
pub open spec fn unlock_costume_spec(
    account: Option<UserView>,
    balance: int,
    costumes: Map<Seq<char>, CostumeView>,
    key: Seq<char>,
) -> Result<UserView, LedgerError> {
    if !costumes.dom().contains(key) {
        Err(LedgerError::UnknownCostume)
    } else if balance < costumes[key].price {
        Err(LedgerError::InsufficientFunds)
    } else {
        match account {
            None => Err(LedgerError::AccountVanished),
            Some(a) => Ok(with_costume(a, costumes[key])),
        }
    }
}

/// What granting an achievement comes to.
pub open spec fn unlock_achievement_spec(
    account: Option<UserView>,
    achievements: Set<Seq<char>>,
    key: Seq<char>,
) -> Result<UserView, LedgerError> {
    if !achievements.contains(key) {
        Err(LedgerError::UnknownAchievement)
    } else {
        match account {
            None => Err(LedgerError::AccountVanished),
            Some(a) => Ok(with_achievement(a, key)),
        }
    }
}

/// What asking to wear a costume comes to. The default costume needs no listing and no
/// unlocking; any other must be listed, and unlocked by the account.
pub open spec fn set_active_item_spec(
    account: Option<UserView>,
    costumes: Map<Seq<char>, CostumeView>,
    key: Seq<char>,
) -> Result<UserView, LedgerError> {
    if key != default_costume() && !costumes.dom().contains(key) {
        Err(LedgerError::UnknownCostume)
    } else {
        match account {
            None => Err(LedgerError::AccountVanished),
            Some(a) => if a.may_wear(key) {
                Ok(wearing(a, key))
            } else {
                Err(LedgerError::NotOwned)
            },
        }
    }
}

/// The view of an account that may be absent.
pub open spec fn found_view(account: Option<&User>) -> Option<UserView> {
    match account {
        Some(a) => Some(a@),
        None => None,
    }
}

/// Whether a result holds the account, or the error, that the ledger's rules give.
pub open spec fn agrees(r: Result<User, LedgerError>, expected: Result<UserView, LedgerError>) -> bool {
    match expected {
        Ok(v) => r matches Ok(u) && u@ == v,
        Err(e) => r matches Err(f) && f == e,
    }
}

/// The names of the costumes that an account holds are the names in its list.
pub proof fn lemma_costume_keys(account: &User)
    ensures
        account@.costumes.map_values(|c: CostumeView| c.name) == costume_names(account.costumes@),
        forall|k: Seq<char>|
            account@.costume_keys().contains(k) <==> costume_names(account.costumes@).contains(k),
{
    let names = account@.costumes.map_values(|c: CostumeView| c.name);
    assert(names =~= costume_names(account.costumes@));
    assert forall|k: Seq<char>|
        account@.costume_keys().contains(k) <==> costume_names(account.costumes@).contains(
            k,
        ) by {
        assert(names.to_set().contains(k) <==> names.contains(k));
    }
}

/// Whether a text stands in a list.
pub fn holds_text(items: &Vec<String>, key: &String) -> (held: bool)
    ensures
        held == text_views(items@).contains(key@),
{
    let mut i: usize = 0;
    while i < items.len()
        invariant
            i <= items.len(),
            forall|j: int| 0 <= j < i ==> items[j]@ != key@,
        decreases items.len() - i,
    {
        if items[i] == *key {
            assert(text_views(items@)[i as int] == key@);
            return true;
        }
        i += 1;
    }
    assert forall|j: int| 0 <= j < text_views(items@).len() implies text_views(items@)[j]
        != key@ by {
        assert(text_views(items@)[j] == items[j]@);
    }
    false
}

/// Unlocks a costume for an account. `account` is the account as the store holds it
/// while the grant is made, or nothing when it is gone; `scores` are the account's
/// scores. The costume must be listed and the stars earned must cover its price; the
/// account that comes back holds the costume, once, whether or not it held it before.
/// The account passed in is not touched.
pub fn unlock_costume(
    account: Option<&User>,
    scores: &Vec<Score>,
    catalog: &Catalog,
    item_key: &str,
) -> (r: Result<User, LedgerError>)
    ensures
        agrees(
            r,
            unlock_costume_spec(
                found_view(account),
                star_sum(scores@),
                catalog.costumes_spec(),
                item_key@,
            ),
        ),
{
    let item = match catalog.get(item_key) {
        None => {
            return Err(LedgerError::UnknownCostume);
        },
        Some(item) => item,
    };
    if star_balance(scores) < item.price as i128 {
        return Err(LedgerError::InsufficientFunds);
    }
    match account {
        None => Err(LedgerError::AccountVanished),
        Some(held) => {
            let mut updated = held.clone();
            proof {
                lemma_costume_keys(&updated);
            }
            if find_costume(&updated.costumes, &item.name).is_none() {
                let ghost before = updated.costumes@;
                updated.costumes.push(item.clone());
                assert(costume_views(updated.costumes@) =~= costume_views(before).push(item@));
            }
            Ok(updated)
        },
    }
}

/// Grants an achievement to an account. The achievement must be listed; the account
/// that comes back holds it, once, whether or not it held it before.
pub fn unlock_achievement(account: Option<&User>, catalog: &Catalog, achievement_key: &str) -> (r:
    Result<User, LedgerError>)
    ensures
        agrees(
            r,
            unlock_achievement_spec(
                found_view(account),
                catalog.achievements_spec().dom(),
                achievement_key@,
            ),
        ),
{
    if !catalog.has_achievement(achievement_key) {
        return Err(LedgerError::UnknownAchievement);
    }
    match account {
        None => Err(LedgerError::AccountVanished),
        Some(held) => {
            let mut updated = held.clone();
            let key = achievement_key.to_owned();
            if !holds_text(&updated.achievements, &key) {
                let ghost before = updated.achievements@;
                updated.achievements.push(key);
                assert(text_views(updated.achievements@) =~= text_views(before).push(
                    achievement_key@,
                ));
            }
            Ok(updated)
        },
    }
}

/// Sets the costume an account wears. The default costume is always allowed; any
/// other must be listed and unlocked by the account.
pub fn set_active_item(account: Option<&User>, catalog: &Catalog, item_key: &str) -> (r: Result<
    User,
    LedgerError,
>)
    ensures
        agrees(
            r,
            set_active_item_spec(found_view(account), catalog.costumes_spec(), item_key@),
        ),
{
    let key = item_key.to_owned();
    let is_default = key == "default".to_owned();
    if !is_default && !catalog.contains_key(item_key) {
        return Err(LedgerError::UnknownCostume);
    }
    match account {
        None => Err(LedgerError::AccountVanished),
        Some(held) => {
            proof {
                lemma_costume_keys(held);
            }
            if is_default || find_costume(&held.costumes, &key).is_some() {
                let mut updated = held.clone();
                updated.current_costume = key;
                Ok(updated)
            } else {
                Err(LedgerError::NotOwned)
            }
        },
    }
}

/// Every costume on offer is listed under its own name.
pub open spec fn listed_by_name(costumes: Map<Seq<char>, CostumeView>) -> bool {
    forall|k: Seq<char>| costumes.dom().contains(k) ==> (#[trigger] costumes[k]).name == k
}

/// The costumes of a catalog are listed under their own names.
pub proof fn lemma_catalog_listed_by_name(catalog: &Catalog)
    ensures
        listed_by_name(catalog.costumes_spec()),
{
    catalog.lemma_costumes_by_name();
}

/// Unlocking is idempotent: once a costume has been unlocked for an account, unlocking
/// it again, with a balance that has not shrunk, succeeds and leaves the account as it
/// is.
pub proof fn lemma_unlock_costume_idempotent(
    account: UserView,
    balance: int,
    again: int,
    costumes: Map<Seq<char>, CostumeView>,
    key: Seq<char>,
)
    requires
        again >= balance,
    ensures
        unlock_costume_spec(Some(account), balance, costumes, key) matches Ok(once)
            ==> unlock_costume_spec(Some(once), again, costumes, key) == Ok::<
            UserView,
            LedgerError,
        >(once),
{
    if unlock_costume_spec(Some(account), balance, costumes, key) is Ok {
        lemma_with_costume_holds(account, costumes[key]);
    }
}

/// Granting an achievement is idempotent.
pub proof fn lemma_unlock_achievement_idempotent(
    account: UserView,
    achievements: Set<Seq<char>>,
    key: Seq<char>,
)
    ensures
        unlock_achievement_spec(Some(account), achievements, key) matches Ok(once)
            ==> unlock_achievement_spec(Some(once), achievements, key) == Ok::<
            UserView,
            LedgerError,
        >(once),
{
    if unlock_achievement_spec(Some(account), achievements, key) is Ok {
        let once = with_achievement(account, key);
        if !account.achievement_keys().contains(key) {
            assert(once.achievements[account.achievements.len() as int] == key);
        }
    }
}

/// After a costume has been added the account holds it, holds everything it held
/// before and nothing else, and is well formed if it was.
pub proof fn lemma_with_costume_holds(account: UserView, item: CostumeView)
    ensures
        with_costume(account, item).costume_keys() == account.costume_keys().insert(item.name),
        with_costume(account, item).achievement_keys() == account.achievement_keys(),
        account.well_formed() ==> with_costume(account, item).well_formed(),
{
    let after = with_costume(account, item);
    let names = account.costumes.map_values(|c: CostumeView| c.name);
    let names_after = after.costumes.map_values(|c: CostumeView| c.name);
    if account.costume_keys().contains(item.name) {
        assert(after.costume_keys() =~= account.costume_keys().insert(item.name));
    } else {
        assert(names_after =~= names.push(item.name));
        names.lemma_push_to_set_commute(item.name);
        if account.well_formed() {
            lemma_names_after_push(names, item.name);
        }
    }
}

/// After an achievement has been added the account holds it, holds everything it held
/// before and nothing else, and is well formed if it was.
pub proof fn lemma_with_achievement_holds(account: UserView, key: Seq<char>)
    ensures
        with_achievement(account, key).achievement_keys() == account.achievement_keys().insert(
            key,
        ),
        with_achievement(account, key).costume_keys() == account.costume_keys(),
        account.well_formed() ==> with_achievement(account, key).well_formed(),
{
    let after = with_achievement(account, key);
    if account.achievement_keys().contains(key) {
        assert(after.achievement_keys() =~= account.achievement_keys().insert(key));
    } else {
        account.achievements.lemma_push_to_set_commute(key);
        if account.well_formed() {
            lemma_names_after_push(account.achievements, key);
        }
    }
}

/// What an account has unlocked never shrinks: whatever the ledger does to an
/// account, the account that comes back holds every costume and every achievement it
/// held before.
pub proof fn lemma_entitlements_never_shrink(
    account: UserView,
    balance: int,
    costumes: Map<Seq<char>, CostumeView>,
    achievements: Set<Seq<char>>,
    key: Seq<char>,
)
    ensures
        unlock_costume_spec(Some(account), balance, costumes, key) matches Ok(after)
            ==> account.costume_keys().subset_of(after.costume_keys())
            && account.achievement_keys() == after.achievement_keys(),
        unlock_achievement_spec(Some(account), achievements, key) matches Ok(after)
            ==> account.achievement_keys().subset_of(after.achievement_keys())
            && account.costume_keys() == after.costume_keys(),
        set_active_item_spec(Some(account), costumes, key) matches Ok(after)
            ==> account.costume_keys() == after.costume_keys() && account.achievement_keys()
            == after.achievement_keys(),
{
    lemma_with_achievement_holds(account, key);
    if costumes.dom().contains(key) {
        lemma_with_costume_holds(account, costumes[key]);
    }
}

/// The ledger keeps accounts well formed: no entitlement is ever held twice, and the
/// costume worn is always the default or one that the account has unlocked.
pub proof fn lemma_ledger_keeps_well_formed(
    account: UserView,
    balance: int,
    costumes: Map<Seq<char>, CostumeView>,
    achievements: Set<Seq<char>>,
    key: Seq<char>,
)
    requires
        account.well_formed(),
    ensures
        unlock_costume_spec(Some(account), balance, costumes, key) matches Ok(after)
            ==> after.well_formed(),
        unlock_achievement_spec(Some(account), achievements, key) matches Ok(after)
            ==> after.well_formed(),
        set_active_item_spec(Some(account), costumes, key) matches Ok(after)
            ==> after.well_formed() && after.current_costume == key,
{
    lemma_with_achievement_holds(account, key);
    if costumes.dom().contains(key) {
        lemma_with_costume_holds(account, costumes[key]);
    }
}

/// The ledger touches nothing but entitlements: the id, the name and the password hash
/// of an account stay as they are, and granting leaves the costume worn alone.
pub proof fn lemma_ledger_keeps_identity(
    account: UserView,
    balance: int,
    costumes: Map<Seq<char>, CostumeView>,
    achievements: Set<Seq<char>>,
    key: Seq<char>,
)
    ensures
        unlock_costume_spec(Some(account), balance, costumes, key) matches Ok(after) ==> after.id
            == account.id && after.usr == account.usr && after.pwd == account.pwd
            && after.current_costume == account.current_costume,
        unlock_achievement_spec(Some(account), achievements, key) matches Ok(after) ==> after.id
            == account.id && after.usr == account.usr && after.pwd == account.pwd
            && after.current_costume == account.current_costume,
        set_active_item_spec(Some(account), costumes, key) matches Ok(after) ==> after.id
            == account.id && after.usr == account.usr && after.pwd == account.pwd,
{
}

/// A refused request changes nothing: with fewer stars than the price, unlocking gives
/// the error and no account to store.
pub proof fn lemma_insufficient_funds(
    account: Option<UserView>,
    balance: int,
    costumes: Map<Seq<char>, CostumeView>,
    key: Seq<char>,
)
    requires
        costumes.dom().contains(key),
        balance < costumes[key].price,
    ensures
        unlock_costume_spec(account, balance, costumes, key) == Err::<UserView, LedgerError>(
            LedgerError::InsufficientFunds,
        ),
{
}

/// The account after one unlock call for each key, in the order given. A call that is
/// turned down leaves the account as it is.
pub open spec fn after_unlocks(
    account: UserView,
    balance: int,
    costumes: Map<Seq<char>, CostumeView>,
    keys: Seq<Seq<char>>,
) -> UserView
    decreases keys.len(),
{
    if keys.len() == 0 {
        account
    } else {
        let before = after_unlocks(account, balance, costumes, keys.drop_last());
        match unlock_costume_spec(Some(before), balance, costumes, keys.last()) {
            Ok(after) => after,
            Err(_) => before,
        }
    }
}

/// Every key names a costume on offer whose price the balance covers.
pub open spec fn all_affordable(
    balance: int,
    costumes: Map<Seq<char>, CostumeView>,
    keys: Seq<Seq<char>>,
) -> bool {
    forall|i: int|
        0 <= i < keys.len() ==> costumes.dom().contains(#[trigger] keys[i]) && costumes[keys[i]].price
            <= balance
}

/// No grant is lost: after unlock calls for affordable costumes, made one after the
/// other in any order, the account holds what it held before and every costume asked
/// for, and nothing else.
pub proof fn lemma_unlocks_lose_nothing(
    account: UserView,
    balance: int,
    costumes: Map<Seq<char>, CostumeView>,
    keys: Seq<Seq<char>>,
)
    requires
        listed_by_name(costumes),
        all_affordable(balance, costumes, keys),
    ensures
        after_unlocks(account, balance, costumes, keys).costume_keys()
            == account.costume_keys().union(keys.to_set()),
        account.well_formed() ==> after_unlocks(account, balance, costumes, keys).well_formed(),
    decreases keys.len(),
{
    if keys.len() == 0 {
        assert(keys.to_set() =~= Set::<Seq<char>>::empty());
        assert(account.costume_keys().union(keys.to_set()) =~= account.costume_keys());
    } else {
        let rest = keys.drop_last();
        let key = keys.last();
        assert forall|i: int| 0 <= i < rest.len() implies costumes.dom().contains(
            #[trigger] rest[i],
        ) && costumes[rest[i]].price <= balance by {
            assert(rest[i] == keys[i]);
        }
        lemma_unlocks_lose_nothing(account, balance, costumes, rest);
        let before = after_unlocks(account, balance, costumes, rest);
        assert(key == keys[keys.len() - 1]);
        lemma_with_costume_holds(before, costumes[key]);
        assert(keys =~= rest.push(key));
        rest.lemma_push_to_set_commute(key);
        assert(account.costume_keys().union(rest.to_set()).insert(key)
            =~= account.costume_keys().union(keys.to_set()));
    }
}

/// The order of the calls does not matter: unlock calls for the same affordable
/// costumes, serialised in two different orders, leave the account holding the same.
pub proof fn lemma_unlocks_any_order(
    account: UserView,
    balance: int,
    costumes: Map<Seq<char>, CostumeView>,
    keys: Seq<Seq<char>>,
    other: Seq<Seq<char>>,
)
    requires
        listed_by_name(costumes),
        all_affordable(balance, costumes, keys),
        keys.to_set() == other.to_set(),
    ensures
        after_unlocks(account, balance, costumes, keys).costume_keys() == after_unlocks(
            account,
            balance,
            costumes,
            other,
        ).costume_keys(),
{
    assert forall|i: int| 0 <= i < other.len() implies costumes.dom().contains(
        #[trigger] other[i],
    ) && costumes[other[i]].price <= balance by {
        assert(other.to_set().contains(other[i]));
        assert(keys.contains(other[i]));
        let j = keys.index_of(other[i]);
        assert(keys[j] == other[i]);
    }
    lemma_unlocks_lose_nothing(account, balance, costumes, keys);
    lemma_unlocks_lose_nothing(account, balance, costumes, other);
}

/// An unlock call for a costume on offer whose price the balance covers succeeds for
/// any account that is there.
pub proof fn lemma_affordable_unlock_succeeds(
    account: UserView,
    balance: int,
    costumes: Map<Seq<char>, CostumeView>,
    key: Seq<char>,
)
    requires
        costumes.dom().contains(key),
        costumes[key].price <= balance,
    ensures
        unlock_costume_spec(Some(account), balance, costumes, key) == Ok::<UserView, LedgerError>(
            with_costume(account, costumes[key]),
        ),
{
}

/// Whether a list of accounts is what a run of unlock calls made of the first: each
/// call, for the key and with the balance at its place, took the account before it and
/// gave the account after it.
pub open spec fn is_unlock_run(
    accounts: Seq<UserView>,
    balances: Seq<int>,
    costumes: Map<Seq<char>, CostumeView>,
    keys: Seq<Seq<char>>,
) -> bool {
    &&& accounts.len() == keys.len() + 1
    &&& balances.len() == keys.len()
    &&& forall|i: int|
        #![trigger accounts[i]]
        0 <= i < keys.len() ==> unlock_costume_spec(
            Some(accounts[i]),
            balances[i],
            costumes,
            keys[i],
        ) == Ok::<UserView, LedgerError>(accounts[i + 1])
}

/// No grant is lost over any number of calls: when each of a run of unlock calls has
/// succeeded on the account that the call before it gave, whatever the balance each
/// saw, the last account holds what the first held and every costume asked for, and
/// nothing else; and it holds nothing twice if the first did not.
pub proof fn lemma_unlock_run_loses_nothing(
    accounts: Seq<UserView>,
    balances: Seq<int>,
    costumes: Map<Seq<char>, CostumeView>,
    keys: Seq<Seq<char>>,
)
    requires
        listed_by_name(costumes),
        is_unlock_run(accounts, balances, costumes, keys),
    ensures
        accounts.last().costume_keys() == accounts[0].costume_keys().union(keys.to_set()),
        accounts[0].well_formed() ==> accounts.last().well_formed(),
    decreases keys.len(),
{
    if keys.len() == 0 {
        assert(keys.to_set() =~= Set::<Seq<char>>::empty());
        assert(accounts[0].costume_keys().union(keys.to_set()) =~= accounts[0].costume_keys());
    } else {
        let n = keys.len() as int;
        let earlier = accounts.drop_last();
        let rest = keys.drop_last();
        assert forall|i: int| #![trigger earlier[i]] 0 <= i < rest.len() implies unlock_costume_spec(
            Some(earlier[i]),
            balances.drop_last()[i],
            costumes,
            rest[i],
        ) == Ok::<UserView, LedgerError>(earlier[i + 1]) by {
            assert(earlier[i] == accounts[i]);
            assert(earlier[i + 1] == accounts[i + 1]);
        }
        lemma_unlock_run_loses_nothing(earlier, balances.drop_last(), costumes, rest);
        let before = accounts[n - 1];
        let key = keys[n - 1];
        assert(earlier.last() == before);
        assert(earlier[0] == accounts[0]);
        assert(unlock_costume_spec(Some(before), balances[n - 1], costumes, key) == Ok::<
            UserView,
            LedgerError,
        >(accounts[n]));
        lemma_with_costume_holds(before, costumes[key]);
        assert(keys =~= rest.push(key));
        rest.lemma_push_to_set_commute(key);
        assert(accounts[0].costume_keys().union(rest.to_set()).insert(key)
            =~= accounts[0].costume_keys().union(keys.to_set()));
    }
}

} // verus!
