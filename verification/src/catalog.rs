use crate::account::text_views;
use vstd::hash_map::StringHashMap;
use vstd::prelude::*;
use vstd::string::*;

verus! {

/// A costume that an account may unlock once it has earned enough stars.
#[derive(Debug)]
pub struct Costume {
    /// The key under which the costume is listed
    pub name: String,
    pub display_name: String,
    pub description: String,
    /// The number of stars an account must have earned to unlock it
    pub price: usize,
}

pub struct CostumeView {
    pub name: Seq<char>,
    pub display_name: Seq<char>,
    pub description: Seq<char>,
    pub price: nat,
}

impl View for Costume {
    type V = CostumeView;

    open spec fn view(&self) -> CostumeView {
        CostumeView {
            name: self.name@,
            display_name: self.display_name@,
            description: self.description@,
            price: self.price as nat,
        }
    }
}

impl Clone for Costume {
    fn clone(&self) -> (copy: Costume)
        ensures
            copy == *self,
    {
        Costume {
            name: self.name.clone(),
            display_name: self.display_name.clone(),
            description: self.description.clone(),
            price: self.price,
        }
    }
}

/// An achievement that an account may be granted.
#[derive(Debug)]
pub struct Achievement {
    /// The key under which the achievement is listed
    pub name: String,
    pub display_name: String,
    pub description: String,
}

pub struct AchievementView {
    pub name: Seq<char>,
    pub display_name: Seq<char>,
    pub description: Seq<char>,
}

impl View for Achievement {
    type V = AchievementView;

    open spec fn view(&self) -> AchievementView {
        AchievementView {
            name: self.name@,
            display_name: self.display_name@,
            description: self.description@,
        }
    }
}

impl Clone for Achievement {
    fn clone(&self) -> (copy: Achievement)
        ensures
            copy == *self,
    {
        Achievement {
            name: self.name.clone(),
            display_name: self.display_name.clone(),
            description: self.description.clone(),
        }
    }
}

/// Why an entry of the configuration is no item of the catalog.
#[derive(Clone, Copy, Debug, PartialEq, Eq, Structural)]
pub enum EntryError {
    /// The entry has no display name.
    MissingName,
    /// The entry has no description.
    MissingDescription,
    /// The entry has no price.
    MissingPrice,
    /// The price is below zero, or too large to count.
    BadPrice,
}

/// What an entry of the configuration lacks, if anything: a name, a description, a
/// price, or a price that can be counted, looked for in that order.
pub open spec fn entry_defect(
    name: Option<Seq<char>>,
    description: Option<Seq<char>>,
    price: Option<i64>,
) -> Option<EntryError> {
    if name is None {
        Some(EntryError::MissingName)
    } else if description is None {
        Some(EntryError::MissingDescription)
    } else {
        match price {
            None => Some(EntryError::MissingPrice),
            Some(p) => if 0 <= p <= usize::MAX {
                None
            } else {
                Some(EntryError::BadPrice)
            },
        }
    }
}

/// The view of a text that may be absent.
pub open spec fn text_view(text: Option<String>) -> Option<Seq<char>> {
    match text {
        Some(t) => Some(t@),
        None => None,
    }
}

impl Costume {
    /// The costume that an entry of the configuration describes: the entry's key, and
    /// the name, the description and the price found under it. An entry that lacks one
    /// of them, or whose price is below zero, is no costume.
    pub fn from_entry(
        key: String,
        name: Option<String>,
        description: Option<String>,
        price: Option<i64>,
    ) -> (r: Result<Costume, EntryError>)
        ensures
            match entry_defect(text_view(name), text_view(description), price) {
                Some(e) => r == Err::<Costume, EntryError>(e),
                None => r matches Ok(c) && c@ == (CostumeView {
                    name: key@,
                    display_name: name->0@,
                    description: description->0@,
                    price: price->0 as nat,
                }),
            },
    {
        let display_name = match name {
            Some(n) => n,
            None => {
                return Err(EntryError::MissingName);
            },
        };
        let description = match description {
            Some(d) => d,
            None => {
                return Err(EntryError::MissingDescription);
            },
        };
        match price {
            None => Err(EntryError::MissingPrice),
            Some(p) => {
                if p < 0 || p as u64 > usize::MAX as u64 {
                    Err(EntryError::BadPrice)
                } else {
                    Ok(Costume { name: key, display_name, description, price: p as usize })
                }
            },
        }
    }
}

impl Achievement {
    /// The achievement that an entry of the configuration describes. An entry without
    /// a name or a description is no achievement.
    pub fn from_entry(key: String, name: Option<String>, description: Option<String>) -> (r: Result<
        Achievement,
        EntryError,
    >)
        ensures
            match entry_defect(text_view(name), text_view(description), Some(0)) {
                Some(e) => r == Err::<Achievement, EntryError>(e),
                None => r matches Ok(a) && a@ == (AchievementView {
                    name: key@,
                    display_name: name->0@,
                    description: description->0@,
                }),
            },
    {
        let display_name = match name {
            Some(n) => n,
            None => {
                return Err(EntryError::MissingName);
            },
        };
        match description {
            Some(description) => Ok(Achievement { name: key, display_name, description }),
            None => Err(EntryError::MissingDescription),
        }
    }
}

/// The names of a list of costumes, in order.
pub open spec fn costume_names(items: Seq<Costume>) -> Seq<Seq<char>> {
    items.map_values(|c: Costume| c.name@)
}

/// Where a costume of the given name stands in a list, if it does.
pub fn find_costume(items: &Vec<Costume>, key: &String) -> (at: Option<usize>)
    ensures
        match at {
            Some(i) => i < items.len() && items[i as int].name@ == key@ && costume_names(
                items@,
            ).contains(key@) && forall|j: int| 0 <= j < i ==> items[j].name@ != key@,
            None => !costume_names(items@).contains(key@),
        },
{
    let mut i: usize = 0;
    while i < items.len()
        invariant
            i <= items.len(),
            forall|j: int| 0 <= j < i ==> items[j].name@ != key@,
        decreases items.len() - i,
    {
        if items[i].name == *key {
            assert(costume_names(items@)[i as int] == key@);
            return Some(i);
        }
        i += 1;
    }
    assert forall|j: int| 0 <= j < costume_names(items@).len() implies costume_names(items@)[j]
        != key@ by {
        assert(costume_names(items@)[j] == items[j].name@);
    }
    None
}

/// Adding a name that a list does not hold keeps the list free of repeats, and the
/// names it then holds are the old ones and the new one.
pub proof fn lemma_names_after_push(names: Seq<Seq<char>>, key: Seq<char>)
    requires
        names.no_duplicates(),
        !names.contains(key),
    ensures
        names.push(key).no_duplicates(),
        forall|k: Seq<char>| #[trigger]
            names.push(key).contains(k) <==> (k == key || names.contains(k)),
{
    let after = names.push(key);
    assert forall|k: Seq<char>| #[trigger] after.contains(k) <==> (k == key || names.contains(
        k,
    )) by {
        if after.contains(k) {
            let j = after.index_of(k);
            if j < names.len() {
                assert(names[j] == k);
            }
        }
        if k == key {
            assert(after[names.len() as int] == k);
        }
        if names.contains(k) {
            let j = names.index_of(k);
            assert(after[j] == k);
        }
    }
    assert forall|i: int, j: int| 0 <= i < after.len() && 0 <= j < after.len() && i
        != j implies after[i] != after[j] by {
        if i < names.len() && j < names.len() {
        } else if i < names.len() {
            assert(names[i] == after[i]);
        } else {
            assert(names[j] == after[j]);
        }
    }
}

/// The costumes of a list by name.
pub open spec fn costumes_by_name(items: Seq<Costume>) -> Map<Seq<char>, CostumeView> {
    Map::new(
        |k: Seq<char>| costume_names(items).contains(k),
        |k: Seq<char>| items[costume_names(items).index_of(k)]@,
    )
}

/// Whether the key at a place in a list is the first under which nothing is listed.
pub open spec fn first_unlisted(keys: Seq<String>, listed: Set<Seq<char>>, i: int) -> bool {
    &&& 0 <= i < keys.len()
    &&& !listed.contains(keys[i]@)
    &&& forall|j: int| 0 <= j < i ==> listed.contains(#[trigger] keys[j]@)
}

/// Why a stored key could not be read as a costume.
#[derive(Debug)]
pub enum DecodeError {
    /// The store held no value.
    Empty,
    /// The key, carried here, is not in the catalog.
    Unknown(String),
}

impl DecodeError {
    /// The text that describes the error.
    pub open spec fn message_spec(self) -> Seq<char> {
        match self {
            DecodeError::Empty => "there is no value to read a costume from"@,
            DecodeError::Unknown(key) => "no costume is listed under the key "@ + key@,
        }
    }

    /// The text that describes the error.
    pub fn message(&self) -> (m: String)
        ensures
            m@ == self.message_spec(),
    {
        match self {
            DecodeError::Empty => String::from_str("there is no value to read a costume from"),
            DecodeError::Unknown(key) => String::from_str(
                "no costume is listed under the key ",
            ).concat(key.as_str()),
        }
    }
}

/// The costumes and achievements on offer, each listed once under its name. Filled when
/// the process starts and only read afterwards.
pub struct Catalog {
    costumes: StringHashMap<Costume>,
    /// The names under which costumes are listed, each once, in the order of listing
    costume_keys: Vec<String>,
    achievements: StringHashMap<Achievement>,
}

impl Catalog {
    #[verifier::type_invariant]
    spec fn well_formed(self) -> bool {
        &&& text_views(self.costume_keys@).no_duplicates()
        &&& forall|k: Seq<char>|
            self.costumes@.dom().contains(k) <==> text_views(self.costume_keys@).contains(k)
        &&& forall|k: Seq<char>|
            self.costumes@.dom().contains(k) ==> (#[trigger] self.costumes@[k]).name@ == k
        &&& forall|k: Seq<char>|
            self.achievements@.dom().contains(k) ==> (#[trigger] self.achievements@[k]).name@ == k
    }

    /// The costumes on offer, by name.
    pub closed spec fn costumes_spec(&self) -> Map<Seq<char>, CostumeView> {
        Map::new(
            |k: Seq<char>| self.costumes@.dom().contains(k) && self.costumes@[k].name@ == k,
            |k: Seq<char>| self.costumes@[k]@,
        )
    }

    /// The achievements on offer, by name.
    pub closed spec fn achievements_spec(&self) -> Map<Seq<char>, AchievementView> {
        Map::new(
            |k: Seq<char>| self.achievements@.dom().contains(k) && self.achievements@[k].name@ == k,
            |k: Seq<char>| self.achievements@[k]@,
        )
    }

    /// Every costume on offer is listed under its own name.
    pub proof fn lemma_costumes_by_name(&self)
        ensures
            forall|k: Seq<char>|
                self.costumes_spec().dom().contains(k) ==> (#[trigger] self.costumes_spec()[k]).name
                    == k,
    {
    }

    /// A catalog that offers nothing.
    pub fn new() -> (c: Catalog)
        ensures
            c.costumes_spec() == Map::<Seq<char>, CostumeView>::empty(),
            c.achievements_spec() == Map::<Seq<char>, AchievementView>::empty(),
    {
        let c = Catalog {
            costumes: StringHashMap::new(),
            costume_keys: Vec::new(),
            achievements: StringHashMap::new(),
        };
        assert(c.costumes_spec() =~= Map::<Seq<char>, CostumeView>::empty());
        assert(c.achievements_spec() =~= Map::<Seq<char>, AchievementView>::empty());
        c
    }

    /// The catalog with a costume listed under its name, in place of any costume listed
    /// under that name before.
    pub fn with_costume(self, item: Costume) -> (c: Catalog)
        ensures
            c.costumes_spec() == self.costumes_spec().insert(item.name@, item@),
            c.achievements_spec() == self.achievements_spec(),
    {
        proof {
            use_type_invariant(&self);
        }
        let ghost before = self.costumes_spec();
        let ghost value = item@;
        let Catalog { costumes, costume_keys, achievements } = self;
        let mut costumes = costumes;
        let mut costume_keys = costume_keys;
        let key = item.name.clone();
        if !costumes.contains_key(key.as_str()) {
            let ghost names = text_views(costume_keys@);
            costume_keys.push(item.name.clone());
            proof {
                assert(text_views(costume_keys@) =~= names.push(key@));
                lemma_names_after_push(names, key@);
            }
        }
        costumes.insert(key, item);
        let c = Catalog { costumes, costume_keys, achievements };
        assert(c.costumes_spec() =~= before.insert(item.name@, value));
        assert(c.achievements_spec() =~= self.achievements_spec());
        c
    }

    /// The catalog with an achievement listed under its name, in place of any achievement
    /// listed under that name before.
    pub fn with_achievement(self, item: Achievement) -> (c: Catalog)
        ensures
            c.achievements_spec() == self.achievements_spec().insert(item.name@, item@),
            c.costumes_spec() == self.costumes_spec(),
    {
        proof {
            use_type_invariant(&self);
        }
        let ghost before = self.achievements_spec();
        let ghost value = item@;
        let Catalog { costumes, costume_keys, achievements } = self;
        let mut achievements = achievements;
        let key = item.name.clone();
        achievements.insert(key, item);
        let c = Catalog { costumes, costume_keys, achievements };
        assert(c.achievements_spec() =~= before.insert(item.name@, value));
        assert(c.costumes_spec() =~= self.costumes_spec());
        c
    }

    /// Whether a costume is listed under the key.
    pub fn contains_key(&self, key: &str) -> (listed: bool)
        ensures
            listed == self.costumes_spec().dom().contains(key@),
    {
        proof {
            use_type_invariant(self);
        }
        self.costumes.contains_key(key)
    }

    /// The costume listed under the key.
    pub fn get(&self, key: &str) -> (found: Option<&Costume>)
        ensures
            found is Some <==> self.costumes_spec().dom().contains(key@),
            found matches Some(c) ==> c@ == self.costumes_spec()[key@],
    {
        proof {
            use_type_invariant(self);
        }
        self.costumes.get(key)
    }

    /// Whether an achievement is listed under the key.
    pub fn has_achievement(&self, key: &str) -> (listed: bool)
        ensures
            listed == self.achievements_spec().dom().contains(key@),
    {
        proof {
            use_type_invariant(self);
        }
        self.achievements.contains_key(key)
    }

    /// The achievement listed under the key.
    pub fn achievement(&self, key: &str) -> (found: Option<&Achievement>)
        ensures
            found is Some <==> self.achievements_spec().dom().contains(key@),
            found matches Some(a) ==> a@ == self.achievements_spec()[key@],
    {
        proof {
            use_type_invariant(self);
        }
        self.achievements.get(key)
    }

    /// Every costume on offer, each once.
    pub fn costumes(&self) -> (all: Vec<Costume>)
        ensures
            costume_names(all@).no_duplicates(),
            costumes_by_name(all@) == self.costumes_spec(),
    {
        proof {
            use_type_invariant(self);
        }
        let mut all: Vec<Costume> = Vec::new();
        let mut i: usize = 0;
        while i < self.costume_keys.len()
            invariant
                i <= self.costume_keys.len(),
                all.len() == i,
                text_views(self.costume_keys@).no_duplicates(),
                forall|k: Seq<char>|
                    self.costumes@.dom().contains(k) <==> text_views(self.costume_keys@).contains(k),
                forall|k: Seq<char>|
                    self.costumes@.dom().contains(k) ==> (#[trigger] self.costumes@[k]).name@ == k,
                forall|j: int|
                    0 <= j < i ==> (#[trigger] all[j]) == self.costumes@[self.costume_keys[j]@],
            decreases self.costume_keys.len() - i,
        {
            assert(text_views(self.costume_keys@)[i as int] == self.costume_keys[i as int]@);
            match self.costumes.get(self.costume_keys[i].as_str()) {
                Some(c) => {
                    all.push(c.clone());
                },
                None => {
                    assert(false);
                },
            }
            i += 1;
        }
        proof {
            let keys = text_views(self.costume_keys@);
            assert forall|j: int| 0 <= j < all.len() implies costume_names(all@)[j] == keys[j] by {
                assert(keys[j] == self.costume_keys[j]@);
                assert(self.costumes@.dom().contains(keys[j]));
            }
            assert(costume_names(all@) =~= keys);
            assert forall|k: Seq<char>| keys.contains(k) implies (
            #[trigger] costumes_by_name(all@)[k]) == self.costumes_spec()[k] by {
                let j = keys.index_of(k);
                assert(keys[j] == self.costume_keys[j]@);
            }
            assert(costumes_by_name(all@) =~= self.costumes_spec());
        }
        all
    }

    /// Reads a key as it comes from the store: the costume listed under it, or the
    /// reason there is none.
    pub fn decode(&self, raw: Option<&str>) -> (r: Result<Costume, DecodeError>)
        ensures
            match raw {
                None => r matches Err(DecodeError::Empty),
                Some(key) => if self.costumes_spec().dom().contains(key@) {
                    r matches Ok(c) && c@ == self.costumes_spec()[key@]
                } else {
                    r matches Err(DecodeError::Unknown(k)) && k@ == key@
                },
            },
    {
        match raw {
            None => Err(DecodeError::Empty),
            Some(key) => match self.get(key) {
                Some(c) => Ok(c.clone()),
                None => Err(DecodeError::Unknown(key.to_owned())),
            },
        }
    }

    /// Reads a list of keys as it comes from the store: the costumes listed under them,
    /// in order, or the first key that names none.
    pub fn decode_all(&self, keys: &Vec<String>) -> (r: Result<Vec<Costume>, DecodeError>)
        ensures
            match r {
                Ok(items) => items.len() == keys.len() && forall|i: int|
                    0 <= i < keys.len() ==> self.costumes_spec().dom().contains(
                        #[trigger] keys[i]@,
                    ) && items[i]@ == self.costumes_spec()[keys[i]@],
                Err(DecodeError::Unknown(k)) => exists|i: int|
                    #[trigger] first_unlisted(keys@, self.costumes_spec().dom(), i) && k@
                        == keys[i]@,
                Err(DecodeError::Empty) => false,
            },
    {
        let mut items: Vec<Costume> = Vec::new();
        let mut i: usize = 0;
        while i < keys.len()
            invariant
                i <= keys.len(),
                items.len() == i,
                forall|j: int|
                    0 <= j < i ==> self.costumes_spec().dom().contains(#[trigger] keys[j]@)
                        && items[j]@ == self.costumes_spec()[keys[j]@],
            decreases keys.len() - i,
        {
            match self.get(keys[i].as_str()) {
                Some(c) => {
                    items.push(c.clone());
                },
                None => {
                    assert(first_unlisted(keys@, self.costumes_spec().dom(), i as int));
                    return Err(DecodeError::Unknown(keys[i].clone()));
                },
            }
            i += 1;
        }
        Ok(items)
    }
}

} // verus!
