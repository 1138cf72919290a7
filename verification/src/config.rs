use crate::catalog::{
    entry_defect, text_view, Achievement, AchievementView, Catalog, Costume, CostumeView,
    EntryError,
};
use vstd::prelude::*;

verus! {

/// An entry of a catalog file as it is written: the key of its table, and what stands
/// under its name, its description and its price, where a text, a text and an integer
/// stand.
#[derive(Debug)]
pub struct RawEntry {
    pub key: String,
    pub name: Option<String>,
    pub description: Option<String>,
    pub price: Option<i64>,
}

pub struct RawEntryView {
    pub key: Seq<char>,
    pub name: Option<Seq<char>>,
    pub description: Option<Seq<char>>,
    pub price: Option<i64>,
}

impl View for RawEntry {
    type V = RawEntryView;

    open spec fn view(&self) -> RawEntryView {
        RawEntryView {
            key: self.key@,
            name: text_view(self.name),
            description: text_view(self.description),
            price: self.price,
        }
    }
}

/// The views of a list of entries, in order.
pub open spec fn entry_views(entries: Seq<RawEntry>) -> Seq<RawEntryView> {
    entries.map_values(|e: RawEntry| e@)
}

/// The entries that `toml` finds in a text under a table of the given name, read by
/// three field names: nothing when the text is no TOML, has no such table or holds
/// under it anything but tables; else one entry for each table under it.
pub uninterp spec fn toml_section(
    text: Seq<char>,
    section: Seq<char>,
    name: Seq<char>,
    description: Seq<char>,
    price: Seq<char>,
) -> Option<Seq<RawEntryView>>;

/// Parses a text with `toml` and walks the table of the given name: one entry for
/// each table under it, with the text under the first field name, the text under the
/// second and the integer under the third, each left out where the table has no such
/// value.
#[verifier::external_body]
fn read_section(text: &str, section: &str, name: &str, description: &str, price: &str) -> (r:
    Option<Vec<RawEntry>>)
    ensures
        match r {
            Some(entries) => toml_section(text@, section@, name@, description@, price@) == Some(
                entry_views(entries@),
            ),
            None => toml_section(text@, section@, name@, description@, price@) is None,
        },
{
    let file = text.parse::<toml::Table>().ok()?;
    let table = file.get(section)?.as_table()?;
    let mut entries = Vec::new();
    for (key, value) in table {
        let entry = value.as_table()?;
        entries.push(RawEntry {
            key: key.clone(),
            name: entry.get(name).and_then(toml::Value::as_str).map(str::to_owned),
            description: entry.get(description).and_then(toml::Value::as_str).map(str::to_owned),
            price: entry.get(price).and_then(toml::Value::as_integer),
        });
    }
    Some(entries)
}

/// The two parts of the configuration that list what is on offer.
#[derive(Clone, Copy, Debug, PartialEq, Eq, Structural)]
pub enum Section {
    Costumes,
    Achievements,
}

/// Why the configuration gives no catalog.
#[derive(Debug)]
pub enum ConfigError {
    /// The text of a part is no TOML, or lacks the table that lists the entries, or
    /// lists something that is no table.
    Unreadable(Section),
    /// An entry, named by its key, lacks something.
    Defective { section: Section, key: String, defect: EntryError },
}

/// The costume that a complete entry describes.
pub open spec fn costume_of(entry: RawEntryView) -> CostumeView {
    CostumeView {
        name: entry.key,
        display_name: entry.name->0,
        description: entry.description->0,
        price: entry.price->0 as nat,
    }
}

/// The achievement that a complete entry describes.
pub open spec fn achievement_of(entry: RawEntryView) -> AchievementView {
    AchievementView { name: entry.key, display_name: entry.name->0, description: entry.description->0 }
}

/// The costumes on offer after a list of entries has been added to those on offer
/// before, in order, or the key and the defect of the first entry that is no costume.
pub open spec fn costumes_listed(
    before: Map<Seq<char>, CostumeView>,
    entries: Seq<RawEntryView>,
) -> Result<Map<Seq<char>, CostumeView>, (Seq<char>, EntryError)>
    decreases entries.len(),
{
    if entries.len() == 0 {
        Ok(before)
    } else {
        let entry = entries.last();
        match costumes_listed(before, entries.drop_last()) {
            Err(e) => Err(e),
            Ok(listed) => match entry_defect(entry.name, entry.description, entry.price) {
                Some(defect) => Err((entry.key, defect)),
                None => Ok(listed.insert(entry.key, costume_of(entry))),
            },
        }
    }
}

/// The achievements on offer after a list of entries has been added, or the key and
/// the defect of the first entry that is no achievement. A price is not asked for.
pub open spec fn achievements_listed(
    before: Map<Seq<char>, AchievementView>,
    entries: Seq<RawEntryView>,
) -> Result<Map<Seq<char>, AchievementView>, (Seq<char>, EntryError)>
    decreases entries.len(),
{
    if entries.len() == 0 {
        Ok(before)
    } else {
        let entry = entries.last();
        match achievements_listed(before, entries.drop_last()) {
            Err(e) => Err(e),
            Ok(listed) => match entry_defect(entry.name, entry.description, Some(0)) {
                Some(defect) => Err((entry.key, defect)),
                None => Ok(listed.insert(entry.key, achievement_of(entry))),
            },
        }
    }
}

/// A copy of a text that may be absent.
fn copy_text(text: &Option<String>) -> (copy: Option<String>)
    ensures
        text_view(copy) == text_view(*text),
{
    match text {
        Some(t) => Some(t.clone()),
        None => None,
    }
}

/// Lists the costumes that a list of entries describes, in order, or reports the first
/// entry that describes none.
pub fn list_costumes(catalog: Catalog, entries: &Vec<RawEntry>) -> (r: Result<Catalog, ConfigError>)
    ensures
        match costumes_listed(catalog.costumes_spec(), entry_views(entries@)) {
            Ok(listed) => r matches Ok(c) && c.costumes_spec() == listed && c.achievements_spec()
                == catalog.achievements_spec(),
            Err((key, defect)) => r matches Err(
                ConfigError::Defective { section: Section::Costumes, key: k, defect: d },
            ) && k@ == key && d == defect,
        },
{
    let ghost before = catalog.costumes_spec();
    let ghost views = entry_views(entries@);
    let mut current = catalog;
    let mut i: usize = 0;
    while i < entries.len()
        invariant
            i <= entries.len(),
            views == entry_views(entries@),
            before == catalog.costumes_spec(),
            costumes_listed(before, views.subrange(0, i as int)) == Ok::<
                Map<Seq<char>, CostumeView>,
                (Seq<char>, EntryError),
            >(current.costumes_spec()),
            current.achievements_spec() == catalog.achievements_spec(),
        decreases entries.len() - i,
    {
        let entry = &entries[i];
        proof {
            assert(views.subrange(0, i + 1).drop_last() =~= views.subrange(0, i as int));
            assert(views.subrange(0, i + 1).last() == entry@);
        }
        match Costume::from_entry(
            entry.key.clone(),
            copy_text(&entry.name),
            copy_text(&entry.description),
            entry.price,
        ) {
            Ok(costume) => {
                current = current.with_costume(costume);
            },
            Err(defect) => {
                proof {
                    assert(costumes_listed(before, views.subrange(0, i + 1)) == Err::<
                        Map<Seq<char>, CostumeView>,
                        (Seq<char>, EntryError),
                    >((entry.key@, defect)));
                    lemma_costumes_listed_stays_failed(before, views, i + 1);
                }
                return Err(
                    ConfigError::Defective {
                        section: Section::Costumes,
                        key: entry.key.clone(),
                        defect,
                    },
                );
            },
        }
        i += 1;
    }
    assert(views.subrange(0, i as int) =~= views);
    Ok(current)
}

/// Lists the achievements that a list of entries describes, in order, or reports the
/// first entry that describes none.
pub fn list_achievements(catalog: Catalog, entries: &Vec<RawEntry>) -> (r: Result<
    Catalog,
    ConfigError,
>)
    ensures
        match achievements_listed(catalog.achievements_spec(), entry_views(entries@)) {
            Ok(listed) => r matches Ok(c) && c.achievements_spec() == listed && c.costumes_spec()
                == catalog.costumes_spec(),
            Err((key, defect)) => r matches Err(
                ConfigError::Defective { section: Section::Achievements, key: k, defect: d },
            ) && k@ == key && d == defect,
        },
{
    let ghost before = catalog.achievements_spec();
    let ghost views = entry_views(entries@);
    let mut current = catalog;
    let mut i: usize = 0;
    while i < entries.len()
        invariant
            i <= entries.len(),
            views == entry_views(entries@),
            before == catalog.achievements_spec(),
            achievements_listed(before, views.subrange(0, i as int)) == Ok::<
                Map<Seq<char>, AchievementView>,
                (Seq<char>, EntryError),
            >(current.achievements_spec()),
            current.costumes_spec() == catalog.costumes_spec(),
        decreases entries.len() - i,
    {
        let entry = &entries[i];
        proof {
            assert(views.subrange(0, i + 1).drop_last() =~= views.subrange(0, i as int));
            assert(views.subrange(0, i + 1).last() == entry@);
        }
        match Achievement::from_entry(
            entry.key.clone(),
            copy_text(&entry.name),
            copy_text(&entry.description),
        ) {
            Ok(achievement) => {
                current = current.with_achievement(achievement);
            },
            Err(defect) => {
                proof {
                    assert(achievements_listed(before, views.subrange(0, i + 1)) == Err::<
                        Map<Seq<char>, AchievementView>,
                        (Seq<char>, EntryError),
                    >((entry.key@, defect)));
                    lemma_achievements_listed_stays_failed(before, views, i + 1);
                }
                return Err(
                    ConfigError::Defective {
                        section: Section::Achievements,
                        key: entry.key.clone(),
                        defect,
                    },
                );
            },
        }
        i += 1;
    }
    assert(views.subrange(0, i as int) =~= views);
    Ok(current)
}

/// Once an entry has failed the listing, the entries after it change nothing.
pub proof fn lemma_costumes_listed_stays_failed(
    before: Map<Seq<char>, CostumeView>,
    entries: Seq<RawEntryView>,
    n: int,
)
    requires
        0 <= n <= entries.len(),
        costumes_listed(before, entries.subrange(0, n)) is Err,
    ensures
        costumes_listed(before, entries) == costumes_listed(before, entries.subrange(0, n)),
    decreases entries.len(),
{
    if n == entries.len() {
        assert(entries.subrange(0, n) =~= entries);
    } else {
        assert(entries.drop_last().subrange(0, n) =~= entries.subrange(0, n));
        lemma_costumes_listed_stays_failed(before, entries.drop_last(), n);
    }
}

/// Once an entry has failed the listing, the entries after it change nothing.
pub proof fn lemma_achievements_listed_stays_failed(
    before: Map<Seq<char>, AchievementView>,
    entries: Seq<RawEntryView>,
    n: int,
)
    requires
        0 <= n <= entries.len(),
        achievements_listed(before, entries.subrange(0, n)) is Err,
    ensures
        achievements_listed(before, entries) == achievements_listed(
            before,
            entries.subrange(0, n),
        ),
    decreases entries.len(),
{
    if n == entries.len() {
        assert(entries.subrange(0, n) =~= entries);
    } else {
        assert(entries.drop_last().subrange(0, n) =~= entries.subrange(0, n));
        lemma_achievements_listed_stays_failed(before, entries.drop_last(), n);
    }
}

/// The view of a list of entries that may be absent.
pub open spec fn section_view(entries: Option<Vec<RawEntry>>) -> Option<Seq<RawEntryView>> {
    match entries {
        Some(list) => Some(entry_views(list@)),
        None => None,
    }
}

/// Whether a result is the catalog, or the error, that two parts of a configuration
/// come to. The costumes are looked at first.
pub open spec fn is_catalog_of(
    r: Result<Catalog, ConfigError>,
    costumes: Option<Seq<RawEntryView>>,
    achievements: Option<Seq<RawEntryView>>,
) -> bool {
    match costumes {
        None => r matches Err(ConfigError::Unreadable(Section::Costumes)),
        Some(costume_entries) => match costumes_listed(Map::empty(), costume_entries) {
            Err((key, defect)) => r matches Err(
                ConfigError::Defective { section: Section::Costumes, key: k, defect: d },
            ) && k@ == key && d == defect,
            Ok(costumes_on_offer) => match achievements {
                None => r matches Err(ConfigError::Unreadable(Section::Achievements)),
                Some(achievement_entries) => match achievements_listed(
                    Map::empty(),
                    achievement_entries,
                ) {
                    Err((key, defect)) => r matches Err(
                        ConfigError::Defective { section: Section::Achievements, key: k, defect: d },
                    ) && k@ == key && d == defect,
                    Ok(achievements_on_offer) => r matches Ok(c) && c.costumes_spec()
                        == costumes_on_offer && c.achievements_spec() == achievements_on_offer,
                },
            },
        },
    }
}

/// Builds the catalog from the entries of the two parts of the configuration, each as
/// it was read, or nothing where it could not be read.
pub fn build_catalog(costumes: Option<Vec<RawEntry>>, achievements: Option<Vec<RawEntry>>) -> (r:
    Result<Catalog, ConfigError>)
    ensures
        is_catalog_of(r, section_view(costumes), section_view(achievements)),
{
    let costume_entries = match costumes {
        Some(entries) => entries,
        None => {
            return Err(ConfigError::Unreadable(Section::Costumes));
        },
    };
    let catalog = match list_costumes(Catalog::new(), &costume_entries) {
        Ok(catalog) => catalog,
        Err(e) => {
            return Err(e);
        },
    };
    let achievement_entries = match achievements {
        Some(entries) => entries,
        None => {
            return Err(ConfigError::Unreadable(Section::Achievements));
        },
    };
    list_achievements(catalog, &achievement_entries)
}

/// The entries of a catalog file under a section: those that `toml` finds there under
/// the fields `name`, `description` and `price`.
pub open spec fn catalog_section(text: Seq<char>, section: Seq<char>) -> Option<Seq<RawEntryView>> {
    toml_section(text, section, "name"@, "description"@, "price"@)
}

/// Loads the catalog from the texts of the two catalog files: the costumes from the
/// tables under `costume` in the first, the achievements from the tables under
/// `achievement` in the second.
pub fn load_catalog(costume_text: &str, achievement_text: &str) -> (r: Result<Catalog, ConfigError>)
    ensures
        is_catalog_of(
            r,
            catalog_section(costume_text@, "costume"@),
            catalog_section(achievement_text@, "achievement"@),
        ),
{
    build_catalog(
        read_section(costume_text, "costume", "name", "description", "price"),
        read_section(achievement_text, "achievement", "name", "description", "price"),
    )
}

} // verus!
