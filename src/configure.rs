use crate::errors::Error;
use vstd::prelude::*;

verus! {

/// The value that settings give a key: the one set last, if any.
pub open spec fn lookup_spec(entries: Seq<(Seq<char>, Seq<char>)>, key: Seq<char>) -> Option<
    Seq<char>,
>
    decreases entries.len(),
{
    if entries.len() == 0 {
        None
    } else if entries.last().0 == key {
        Some(entries.last().1)
    } else {
        lookup_spec(entries.drop_last(), key)
    }
}

/// Settings read from the configuration files, as key and value texts.
pub struct Settings {
    pub entries: Vec<(String, String)>,
}

impl Settings {
    pub open spec fn view(&self) -> Seq<(Seq<char>, Seq<char>)> {
        self.entries@.map_values(|e: (String, String)| (e.0@, e.1@))
    }

    /// The value of `key`, if it is set.
    pub open spec fn get_spec(&self, key: Seq<char>) -> Option<Seq<char>> {
        lookup_spec(self.view(), key)
    }

    /// No settings.
    pub fn new() -> (r: Settings)
        ensures
            r.view().len() == 0,
            forall|k: Seq<char>| #[trigger] r.get_spec(k) is None,
    {
        Settings { entries: Vec::new() }
    }

    /// Sets `key` to `value`, in place of any earlier value.
    pub fn insert(&mut self, key: String, value: String)
        ensures
            final(self).view() == old(self).view().push((key@, value@)),
            final(self).get_spec(key@) == Some(value@),
            forall|k: Seq<char>| k != key@ ==> #[trigger] final(self).get_spec(k) == old(
                self,
            ).get_spec(k),
    {
        let ghost kv = key@;
        let ghost vv = value@;
        self.entries.push((key, value));
        assert(self.view() =~= old(self).view().push((kv, vv)));
        assert(self.view().drop_last() =~= old(self).view());
    }

    /// The value of `key`, if it is set.
    pub fn get(&self, key: &str) -> (r: Option<&String>)
        ensures
            match r {
                Some(v) => self.get_spec(key@) == Some(v@),
                None => self.get_spec(key@) is None,
            },
    {
        let mut i: usize = self.entries.len();
        assert(self.view().take(i as int) =~= self.view());
        while i > 0
            invariant
                i <= self.entries@.len(),
                lookup_spec(self.view(), key@) == lookup_spec(self.view().take(i as int), key@),
            decreases i,
        {
            let e = &self.entries[i - 1];
            let ghost prefix = self.view().take(i as int);
            assert(prefix.last() == (e.0@, e.1@));
            assert(prefix.drop_last() =~= self.view().take(i - 1));
            if str_eq(e.0.as_str(), key) {
                return Some(&e.1);
            }
            i = i - 1;
        }
        assert(self.view().take(0) =~= Seq::<(Seq<char>, Seq<char>)>::empty());
        None
    }
}

/// Whether two texts are equal.
fn str_eq(a: &str, b: &str) -> (r: bool)
    ensures
        r == (a@ == b@),
{
    let n = a.unicode_len();
    if n != b.unicode_len() {
        return false;
    }
    let mut i: usize = 0;
    while i < n
        invariant
            n == a@.len(),
            n == b@.len(),
            i <= n,
            forall|j: int| 0 <= j < i ==> a@[j] == b@[j],
        decreases n - i,
    {
        if a.get_char(i) != b.get_char(i) {
            return false;
        }
        i = i + 1;
    }
    assert(a@ =~= b@);
    true
}

/// The flag to look up in the settings.
pub struct ConfigInfo<V> {
    pub flag: V,
}

/// Keeps `FetchFromConfig` to the impls of this module.
pub trait Sealed {

}

impl<V> Sealed for ConfigInfo<V> {

}

/// Reads a flag from the settings as a value of type `T`.
pub trait FetchFromConfig<T>: Sealed {
    /// Whether `value` is what the flag reads as in `config`.
    spec fn fetched(&self, config: &Settings, value: T) -> bool;

    fn fetch_config(&self, config: &Settings) -> (r: T)
        ensures
            self.fetched(config, r),
    ;
}

/// The value of a boolean flag: set to `true`, and nothing else, makes it true.
pub open spec fn flag_value(value: Option<Seq<char>>) -> bool {
    value == Some("true"@)
}

/// The value of a text flag: its text, or empty where it is not set.
pub open spec fn text_value(value: Option<Seq<char>>) -> Seq<char> {
    match value {
        Some(v) => v,
        None => Seq::empty(),
    }
}

impl ConfigInfo<String> {
    /// The flag read as a boolean.
    pub fn fetch_bool(&self, config: &Settings) -> (r: bool)
        ensures
            r == flag_value(config.get_spec(self.flag@)),
    {
        match config.get(self.flag.as_str()) {
            Some(value) => {
                let t = String::from_str("true");
                *value == t
            },
            None => false,
        }
    }

    /// The flag read as a text.
    pub fn fetch_string(&self, config: &Settings) -> (r: String)
        ensures
            r@ == text_value(config.get_spec(self.flag@)),
    {
        match config.get(self.flag.as_str()) {
            Some(value) => value.clone(),
            None => String::new(),
        }
    }
}

impl FetchFromConfig<bool> for ConfigInfo<String> {
    open spec fn fetched(&self, config: &Settings, value: bool) -> bool {
        value == flag_value(config.get_spec(self.flag@))
    }

    fn fetch_config(&self, config: &Settings) -> bool {
        self.fetch_bool(config)
    }
}

impl FetchFromConfig<String> for ConfigInfo<String> {
    open spec fn fetched(&self, config: &Settings, value: String) -> bool {
        value@ == text_value(config.get_spec(self.flag@))
    }

    fn fetch_config(&self, config: &Settings) -> String {
        self.fetch_string(config)
    }
}

/// Reads `flag` from the settings as a `T`.
pub fn fetch<T>(config: &Settings, flag: String) -> (r: Result<T, Error>) where
    ConfigInfo<String>: FetchFromConfig<T>,

    ensures
        r matches Ok(v) && (ConfigInfo { flag }).fetched(config, v),
{
    let info = ConfigInfo { flag };
    Ok(info.fetch_config(config))
}

} // verus!
