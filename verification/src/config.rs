//! The denylist of unwanted domains and its TOML form.

use vstd::prelude::*;

verus! {

/// Name of the TOML field that holds the denylist.
pub const UNWANTED_DOMAINS_FIELD: &'static str = "unwanted_domains";

/// The domains that are considered unwanted, as given: nothing is trimmed or
/// case-folded, and an entry may occur more than once.
pub struct Config {
    pub unwanted_domains: Vec<String>,
}

impl View for Config {
    type V = Seq<Seq<char>>;

    /// The entries in the order in which they were given.
    open spec fn view(&self) -> Seq<Seq<char>> {
        self.unwanted_domains.deep_view()
    }
}

/// What the `toml` crate reads under the top-level key `key` of the document
/// `text`, where that is an array made of strings only. `None` stands for
/// every other outcome: `text` is not a TOML document, it has no such key, or
/// the key holds anything but an array of strings.
pub uninterp spec fn toml_string_array(text: Seq<char>, key: Seq<char>) -> Option<Seq<Seq<char>>>;

/// Parses `text` with `toml::from_str` into a `toml::Table`, looks `key` up
/// with `Map::get`, and hands out the strings of the array found there
/// (`Value::as_array`, `Value::as_str`).
///
/// Trusted: the result is a function of `text` and `key` alone, named
/// `toml_string_array`. Nothing else is claimed of it.
#[verifier::external_body]
fn read_string_array(text: &str, key: &str) -> (list: Option<Vec<String>>)
    ensures
        list.deep_view() == toml_string_array(text@, key@),
{
    let table: toml::Table = toml::from_str(text).ok()?;
    let items = table.get(key)?.as_array()?;
    items.iter().map(|item| item.as_str().map(String::from)).collect()
}

impl Config {
    /// The denylist as a set: order and repetition of the entries do not matter
    /// to a lookup.
    pub open spec fn denylist(&self) -> Set<Seq<char>> {
        self@.to_set()
    }

    /// A denylist made of exactly the given entries.
    pub fn new(unwanted_domains: Vec<String>) -> (config: Config)
        ensures
            config.unwanted_domains == unwanted_domains,
            config@ == unwanted_domains.deep_view(),
    {
        Config { unwanted_domains }
    }

    /// Reads a denylist from a TOML document: the array of strings under the
    /// key `unwanted_domains`. Other keys are ignored. Returns `None` when the
    /// text is not TOML, the key is missing, or it does not hold an array of
    /// strings.
    pub fn from_toml(text: &str) -> (config: Option<Config>)
        ensures
            match toml_string_array(text@, UNWANTED_DOMAINS_FIELD@) {
                Some(list) => config is Some && config->0@ == list,
                None => config is None,
            },
    {
        match read_string_array(text, UNWANTED_DOMAINS_FIELD) {
            Some(list) => Some(Config::new(list)),
            None => None,
        }
    }

    /// Number of entries, repetitions included.
    pub fn len(&self) -> (n: usize)
        ensures
            n == self@.len(),
    {
        self.unwanted_domains.len()
    }

    /// Whether `domain` equals one of the entries, character for character.
    pub fn contains(&self, domain: &str) -> (found: bool)
        ensures
            found == self.denylist().contains(domain@),
    {
        let wanted: String = domain.to_owned();
        let n: usize = self.unwanted_domains.len();
        let mut i: usize = 0;
        while i < n
            invariant
                n == self.unwanted_domains.len(),
                i <= n,
                wanted@ == domain@,
                forall|j: int| 0 <= j < i ==> self@[j] != domain@,
            decreases n - i,
        {
            if self.unwanted_domains[i] == wanted {
                assert(self@[i as int] == domain@);
                return true;
            }
            i = i + 1;
        }
        false
    }
}

} // verus!
