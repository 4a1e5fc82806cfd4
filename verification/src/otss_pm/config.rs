//! Configuration values, their store, and the loader.
use vstd::prelude::*;

verus! {

/// A configuration value. A number is held as the bit pattern of its `f64`
/// (`f64::to_bits`); the store never computes on it.
#[derive(Debug)]
pub enum ConfigValue {
    String(String),
    Number(u64),
    Bool(bool),
    Nested(Vec<(String, ConfigValue)>),
    Array(Vec<ConfigValue>),
}

/// Loads configuration.
#[derive(Debug, Clone, Copy, Default)]
pub struct ConfigLoader;

impl ConfigLoader {
    /// A loader.
    pub fn new() -> (r: ConfigLoader) {
        ConfigLoader
    }
}

/// `i` is the first entry with key `key`.
pub open spec fn is_first_key(s: Seq<(String, ConfigValue)>, key: Seq<char>, i: int) -> bool {
    &&& 0 <= i < s.len()
    &&& s[i].0@ == key
    &&& forall|j: int| 0 <= j < i ==> #[trigger] s[j].0@ != key
}

/// The value stored under `key`: that of the first entry with the key.
pub open spec fn value_of(s: Seq<(String, ConfigValue)>, key: Seq<char>) -> Option<ConfigValue> {
    if exists|i: int| is_first_key(s, key, i) {
        Some(s[choose|i: int| is_first_key(s, key, i)].1)
    } else {
        None
    }
}

/// No two entries share a key.
pub open spec fn config_keys_distinct(s: Seq<(String, ConfigValue)>) -> bool {
    forall|i: int, j: int| 0 <= i < s.len() && 0 <= j < s.len() && i != j ==> #[trigger] s[i].0@ != #[trigger] s[j].0@
}

/// The value stored under `key` is that of the first entry with `key`.
pub proof fn lemma_value_at(s: Seq<(String, ConfigValue)>, key: Seq<char>, i: int)
    requires
        is_first_key(s, key, i),
    ensures
        value_of(s, key) == Some(s[i].1),
{
    let j = choose|j: int| is_first_key(s, key, j);
    assert(is_first_key(s, key, j));
    if j < i {
        assert(s[j].0@ != key);
    }
    if i < j {
        assert(s[i].0@ != key);
    }
}

/// Where no entry has `key`, nothing is stored under it.
pub proof fn lemma_no_value(s: Seq<(String, ConfigValue)>, key: Seq<char>)
    requires
        forall|j: int| 0 <= j < s.len() ==> #[trigger] s[j].0@ != key,
    ensures
        value_of(s, key) is None,
{
    if exists|i: int| is_first_key(s, key, i) {
        let i = choose|i: int| is_first_key(s, key, i);
        assert(s[i].0@ == key);
    }
}

/// Where no entry is first with `key`, none has it.
pub proof fn lemma_no_value_rev(s: Seq<(String, ConfigValue)>, key: Seq<char>)
    requires
        !exists|i: int| is_first_key(s, key, i),
    ensures
        forall|j: int| 0 <= j < s.len() ==> #[trigger] s[j].0@ != key,
    decreases s.len(),
{
    if s.len() > 0 {
        let t = s.drop_last();
        assert(!exists|i: int| is_first_key(t, key, i)) by {
            if exists|i: int| is_first_key(t, key, i) {
                let i = choose|i: int| is_first_key(t, key, i);
                assert forall|q: int| 0 <= q < i implies #[trigger] s[q].0@ != key by {
                    assert(t[q] == s[q]);
                }
                assert(t[i] == s[i]);
                assert(is_first_key(s, key, i));
            }
        }
        lemma_no_value_rev(t, key);
        assert forall|j: int| 0 <= j < s.len() implies #[trigger] s[j].0@ != key by {
            if j < s.len() - 1 {
                assert(t[j] == s[j]);
            } else if s[j].0@ == key {
                assert forall|q: int| 0 <= q < j implies #[trigger] s[q].0@ != key by {
                    assert(t[q] == s[q]);
                }
                assert(is_first_key(s, key, j));
            }
        }
    }
}

/// Configuration values by key, and the file they belong to.
#[derive(Debug)]
pub struct ConfigManager {
    configs: Vec<(String, ConfigValue)>,
    config_path: Option<std::path::PathBuf>,
}

impl ConfigManager {
    /// The entries, in the order their keys were first set.
    pub closed spec fn entries(self) -> Seq<(String, ConfigValue)> {
        self.configs@
    }

    /// The file the configuration belongs to, if any.
    pub closed spec fn path_spec(self) -> Option<std::path::PathBuf> {
        self.config_path
    }

    /// The value stored under `key`, if any.
    pub open spec fn get_spec(self, key: Seq<char>) -> Option<ConfigValue> {
        value_of(self.entries(), key)
    }

    /// Well-formed: no key is stored twice, as keys of a map.
    pub open spec fn wf(self) -> bool {
        config_keys_distinct(self.entries())
    }

    /// An empty store with no file.
    pub fn new() -> (r: ConfigManager)
        ensures
            r.entries().len() == 0,
            r.path_spec() is None,
            r.wf(),
    {
        ConfigManager { configs: Vec::new(), config_path: None }
    }

    fn find(&self, key: &str) -> (r: Option<usize>)
        ensures
            match r {
                Some(i) => is_first_key(self.entries(), key@, i as int),
                None => forall|j: int| 0 <= j < self.entries().len() ==> #[trigger] self.entries()[j].0@ != key@,
            },
    {
        let target = String::from_str(key);
        let mut i: usize = 0;
        while i < self.configs.len()
            invariant
                i <= self.configs@.len(),
                target@ == key@,
                forall|j: int| 0 <= j < i ==> #[trigger] self.configs@[j].0@ != key@,
            decreases self.configs@.len() - i,
        {
            if self.configs[i].0 == target {
                return Some(i);
            }
            i = i + 1;
        }
        None
    }

    /// The value stored under `key`, if any.
    pub fn get(&self, key: &str) -> (r: Option<&ConfigValue>)
        ensures
            r is Some <==> self.get_spec(key@) is Some,
            r is Some ==> *r->Some_0 == self.get_spec(key@)->Some_0,
    {
        match self.find(key) {
            Some(i) => {
                proof {
                    lemma_value_at(self.entries(), key@, i as int);
                }
                Some(&self.configs[i].1)
            },
            None => {
                proof {
                    lemma_no_value(self.entries(), key@);
                }
                None
            },
        }
    }

    /// Stores `value` under `key`, replacing the value held there.
    pub fn set(&mut self, key: String, value: ConfigValue)
        ensures
            final(self).get_spec(key@) == Some(value),
            forall|k: Seq<char>| k != key@ ==> #[trigger] final(self).get_spec(k) == old(self).get_spec(k),
            final(self).path_spec() == old(self).path_spec(),
            old(self).wf() ==> final(self).wf(),
    {
        let ghost s = self.entries();
        let ghost v = value;
        match self.find(key.as_str()) {
            Some(i) => {
                let ghost t = s.update(i as int, (s[i as int].0, v));
                proof {
                    assert(is_first_key(t, key@, i as int));
                    lemma_value_at(t, key@, i as int);
                    assert forall|k: Seq<char>| k != key@ implies #[trigger] value_of(t, k) == value_of(s, k) by {
                        if exists|j: int| is_first_key(s, k, j) {
                            let j = choose|j: int| is_first_key(s, k, j);
                            assert(is_first_key(t, k, j));
                            lemma_value_at(s, k, j);
                            lemma_value_at(t, k, j);
                        } else {
                            lemma_no_value_rev(s, k);
                            assert forall|j: int| 0 <= j < t.len() implies #[trigger] t[j].0@ != k by {
                                assert(s[j].0@ != k);
                            }
                            lemma_no_value(t, k);
                            lemma_no_value(s, k);
                        }
                    }
                }
                let entry = vstd::std_specs::vec::vec_index_mut(&mut self.configs, i);
                entry.1 = value;
            },
            None => {
                let ghost t = s.push((key, v));
                proof {
                    assert(is_first_key(t, key@, s.len() as int)) by {
                        assert forall|j: int| 0 <= j < s.len() implies #[trigger] t[j].0@ != key@ by {
                            assert(t[j] == s[j]);
                        }
                    }
                    lemma_value_at(t, key@, s.len() as int);
                    assert forall|k: Seq<char>| k != key@ implies #[trigger] value_of(t, k) == value_of(s, k) by {
                        if exists|j: int| is_first_key(s, k, j) {
                            let j = choose|j: int| is_first_key(s, k, j);
                            assert forall|q: int| 0 <= q < j implies #[trigger] t[q].0@ != k by {
                                assert(t[q] == s[q]);
                                assert(s[q].0@ != k);
                            }
                            assert(t[j] == s[j]);
                            assert(is_first_key(t, k, j));
                            lemma_value_at(s, k, j);
                            lemma_value_at(t, k, j);
                        } else {
                            lemma_no_value_rev(s, k);
                            assert forall|j: int| 0 <= j < t.len() implies #[trigger] t[j].0@ != k by {
                                if j < s.len() {
                                    assert(t[j] == s[j]);
                                }
                            }
                            lemma_no_value(t, k);
                            lemma_no_value(s, k);
                        }
                    }
                }
                self.configs.push((key, value));
            },
        }
    }

    /// The text stored under `key`, if the value there is text.
    pub fn get_string(&self, key: &str) -> (r: Option<&str>)
        ensures
            match self.get_spec(key@) {
                Some(ConfigValue::String(s)) => r is Some && r->Some_0@ == s@,
                _ => r is None,
            },
    {
        match self.get(key) {
            Some(ConfigValue::String(s)) => Some(s.as_str()),
            _ => None,
        }
    }

    /// The flag stored under `key`, if the value there is a flag.
    pub fn get_bool(&self, key: &str) -> (r: Option<bool>)
        ensures
            match self.get_spec(key@) {
                Some(ConfigValue::Bool(b)) => r == Some(b),
                _ => r is None,
            },
    {
        match self.get(key) {
            Some(ConfigValue::Bool(b)) => Some(*b),
            _ => None,
        }
    }

    /// The number stored under `key` (as its `f64` bit pattern), if the value
    /// there is a number.
    pub fn get_number(&self, key: &str) -> (r: Option<u64>)
        ensures
            match self.get_spec(key@) {
                Some(ConfigValue::Number(n)) => r == Some(n),
                _ => r is None,
            },
    {
        match self.get(key) {
            Some(ConfigValue::Number(n)) => Some(*n),
            _ => None,
        }
    }

    /// Whether a value is stored under `key`.
    pub fn has(&self, key: &str) -> (r: bool)
        ensures
            r == self.get_spec(key@) is Some,
    {
        self.get(key).is_some()
    }

    /// Records the file the configuration belongs to.
    pub fn load_file(&mut self, path: std::path::PathBuf) -> (r: Result<(), anyhow::Error>)
        ensures
            r is Ok,
            final(self).path_spec() == Some(path),
            final(self).entries() == old(self).entries(),
    {
        self.config_path = Some(path);
        Ok(())
    }

    /// Saves the configuration; nothing is written yet, so it always succeeds.
    pub fn save(&self) -> (r: Result<(), anyhow::Error>)
        ensures
            r is Ok,
    {
        Ok(())
    }
}

impl Default for ConfigManager {
    fn default() -> (r: ConfigManager)
        ensures
            r.entries().len() == 0,
            r.path_spec() is None,
            r.wf(),
    {
        ConfigManager::new()
    }
}

impl ConfigLoader {
    /// The configuration of a file; no file format is read yet, so it is an
    /// empty store with no file.
    pub fn from_file(&self, path: &std::path::PathBuf) -> (r: Result<ConfigManager, anyhow::Error>)
        ensures
            r is Ok,
            r->Ok_0.entries().len() == 0,
            r->Ok_0.path_spec() is None,
            r->Ok_0.wf(),
    {
        Ok(ConfigManager::default())
    }
}

} // verus!
