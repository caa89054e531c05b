//! The session-configuration changes that the command line asks for.
//!
//! Each change is a key of the session configuration and a JSON5 value for
//! it. The caller loads the base configuration and inserts the entries in
//! order.
use vstd::prelude::*;

use crate::params::CliArgs;
use vstd::string::{StrSliceExecFns, StringExecFns};

verus! {

/// The compact JSON text of the string `s`.
pub uninterp spec fn json_string_of(s: Seq<char>) -> Seq<char>;

/// The compact JSON text of the array of strings `items`.
pub uninterp spec fn json_array_of(items: Seq<Seq<char>>) -> Seq<char>;

/// Relies on serde_json's `Value::from(String)` and the `Display` of `Value`:
/// the string as compact JSON text.
#[verifier::external_body]
fn json_string(s: &str) -> (r: String)
    ensures
        r@ == json_string_of(s@),
{
    serde_json::Value::from(s.to_string()).to_string()
}

/// Relies on serde_json's `Value::from(Vec<String>)` and the `Display` of
/// `Value`: the strings as a compact JSON array.
#[verifier::external_body]
fn json_string_array(items: &Vec<String>) -> (r: String)
    ensures
        r@ == json_array_of(views_of(items@)),
{
    serde_json::Value::from(items.clone()).to_string()
}

/// One change to the session configuration.
#[derive(Clone, Debug, PartialEq, Eq)]
pub struct ConfigEntry {
    pub key: String,
    pub value: String,
}

/// Why the command line's configuration changes could not be applied.
#[derive(Clone, Debug, PartialEq, Eq)]
pub enum ConfigError {
    /// A `--cfg` argument without the `:` between key and value.
    MissingSeparator(String),
    /// The configuration refused to set `key` to `value`, for `reason`.
    Rejected { key: String, value: String, reason: String },
}

#[verifier::external_type_specification]
#[verifier::external_body]
pub struct ExConfig(zenoh::config::Config);

/// A session configuration together with the record of the changes that
/// were made to it through this library.
pub struct SessionConfig {
    config: zenoh::config::Config,
    inserted: Ghost<Seq<(Seq<char>, Seq<char>)>>,
}

impl SessionConfig {
    /// The key/value pairs that were accepted, in the order they were inserted.
    pub closed spec fn inserted(&self) -> Seq<(Seq<char>, Seq<char>)> {
        self.inserted@
    }

    /// The configuration as it stands.
    pub closed spec fn current(&self) -> zenoh::config::Config {
        self.config
    }

    /// Wraps a configuration in which nothing has been inserted yet.
    pub fn new(config: zenoh::config::Config) -> (r: Self)
        ensures
            r.inserted() == Seq::<(Seq<char>, Seq<char>)>::empty(),
            r.current() == config,
    {
        SessionConfig { config, inserted: Ghost(Seq::empty()) }
    }

    /// The configuration as it stands.
    pub fn get(&self) -> (r: &zenoh::config::Config)
        ensures
            *r == self.current(),
    {
        &self.config
    }

    /// Gives back the configuration.
    pub fn into_inner(self) -> (r: zenoh::config::Config)
        ensures
            r == self.current(),
    {
        self.config
    }

    /// Relies on zenoh's `Config::insert_json5`: it sets `key` to the JSON5
    /// `value` or reports why it cannot. An accepted pair is recorded; a
    /// refused one is not. Nothing is assumed of which of the two happens.
    #[verifier::external_body]
    fn insert_json5(&mut self, key: &str, value: &str) -> (r: Result<(), String>)
        ensures
            r is Ok ==> final(self).inserted() == old(self).inserted().push((key@, value@)),
            r is Err ==> final(self).inserted() == old(self).inserted(),
    {
        self.config.insert_json5(key, value).map_err(|e| e.to_string())
    }
}

pub open spec fn views_of(v: Seq<String>) -> Seq<Seq<char>> {
    v.map_values(|s: String| s@)
}

pub open spec fn entries_view(v: Seq<ConfigEntry>) -> Seq<(Seq<char>, Seq<char>)> {
    v.map_values(|e: ConfigEntry| (e.key@, e.value@))
}

/// `i` is the position of the first `:` in `s`.
pub open spec fn is_first_colon(s: Seq<char>, i: int) -> bool {
    &&& 0 <= i < s.len()
    &&& s[i] == ':'
    &&& forall|j: int| 0 <= j < i ==> s[j] != ':'
}

/// `s` split at its first `:` into key and value, if it has one.
pub open spec fn colon_split(s: Seq<char>) -> Option<(Seq<char>, Seq<char>)> {
    if exists|i: int| is_first_colon(s, i) {
        let i = choose|i: int| is_first_colon(s, i);
        Some((s.take(i), s.skip(i + 1)))
    } else {
        None
    }
}

/// The entries of the `KEY:VALUE` arguments, in order, or the first one
/// that has no `:`.
pub open spec fn cfg_entries(cfg: Seq<Seq<char>>) -> Result<Seq<(Seq<char>, Seq<char>)>, Seq<char>>
    decreases cfg.len(),
{
    if cfg.len() == 0 {
        Ok(Seq::empty())
    } else {
        match cfg_entries(cfg.drop_last()) {
            Err(e) => Err(e),
            Ok(prev) => match colon_split(cfg.last()) {
                None => Err(cfg.last()),
                Some(kv) => Ok(prev.push(kv)),
            },
        }
    }
}

/// The entries that the session settings of `args` give, before the
/// free-form ones: mode, connect endpoints, listen endpoints, scouting.
pub open spec fn settings_entries(args: CliArgs) -> Seq<(Seq<char>, Seq<char>)> {
    let m = match args.mode {
        Some(m) => seq![("mode"@, json_string_of(m@))],
        None => Seq::empty(),
    };
    let c = if args.connect@.len() > 0 {
        seq![("connect/endpoints"@, json_array_of(views_of(args.connect@)))]
    } else {
        Seq::empty()
    };
    let l = if args.listen@.len() > 0 {
        seq![("listen/endpoints"@, json_array_of(views_of(args.listen@)))]
    } else {
        Seq::empty()
    };
    let s = if args.no_multicast_scouting {
        seq![("scouting/multicast/enabled"@, "false"@)]
    } else {
        Seq::empty()
    };
    m + c + l + s
}

/// Splits `s` at its first `:`.
fn split_key_value(s: &str) -> (r: Option<(String, String)>)
    ensures
        match r {
            None => colon_split(s@) is None,
            Some((k, v)) => colon_split(s@) == Some((k@, v@)),
        },
{
    let n: usize = s.unicode_len();
    let mut i: usize = 0;
    while i < n
        invariant
            n == s@.len(),
            i <= n,
            forall|j: int| 0 <= j < i ==> s@[j] != ':',
        decreases n - i,
    {
        if s.get_char(i) == ':' {
            let k = s.substring_char(0, i);
            let v = s.substring_char(i + 1, n);
            proof {
                assert(is_first_colon(s@, i as int));
                let c = choose|c: int| is_first_colon(s@, c);
                assert(c == i) by {
                    if c < i {
                        assert(s@[c] != ':');
                    } else if c > i {
                        assert(s@[i as int] != ':');
                    }
                }
            }
            return Some((String::from_str(k), String::from_str(v)));
        }
        i += 1;
    }
    None
}

impl CliArgs {
    /// The configuration entries that the command line asks for, in the
    /// order they are to be inserted: the mode as a JSON string, the
    /// connect and listen endpoints as JSON arrays when there are any, the
    /// scouting switch when multicast scouting is disabled, then each
    /// `KEY:VALUE` argument split at its first `:`. The first `--cfg`
    /// argument without a `:` is an error.
    pub fn config_overrides(&self) -> (r: Result<Vec<ConfigEntry>, ConfigError>)
        ensures
            match (r, cfg_entries(views_of(self.cfg@))) {
                (Ok(v), Ok(e)) => entries_view(v@) == settings_entries(*self) + e,
                (Err(ConfigError::MissingSeparator(s)), Err(e)) => s@ == e,
                _ => false,
            },
    {
        let mut out: Vec<ConfigEntry> = Vec::new();
        if let Some(m) = &self.mode {
            out.push(ConfigEntry { key: String::from_str("mode"), value: json_string(m.as_str()) });
        }
        if self.connect.len() > 0 {
            out.push(
                ConfigEntry {
                    key: String::from_str("connect/endpoints"),
                    value: json_string_array(&self.connect),
                },
            );
        }
        if self.listen.len() > 0 {
            out.push(
                ConfigEntry {
                    key: String::from_str("listen/endpoints"),
                    value: json_string_array(&self.listen),
                },
            );
        }
        if self.no_multicast_scouting {
            out.push(
                ConfigEntry {
                    key: String::from_str("scouting/multicast/enabled"),
                    value: String::from_str("false"),
                },
            );
        }
        assert(entries_view(out@) =~= settings_entries(*self));
        let ghost base = entries_view(out@);
        let n: usize = self.cfg.len();
        let mut i: usize = 0;
        while i < n
            invariant
                n == self.cfg@.len(),
                i <= n,
                base == settings_entries(*self),
                cfg_entries(views_of(self.cfg@.take(i as int))) matches Ok(e) && entries_view(out@)
                    == base + e,
            decreases n - i,
        {
            let ghost prev = entries_view(out@);
            let item = &self.cfg[i];
            assert(views_of(self.cfg@.take(i + 1)).drop_last() =~= views_of(self.cfg@.take(i as int)));
            assert(views_of(self.cfg@.take(i + 1)).last() == item@);
            match split_key_value(item.as_str()) {
                Some((key, value)) => {
                    out.push(ConfigEntry { key, value });
                    assert(entries_view(out@) =~= prev.push((key@, value@)));
                },
                None => {
                    proof {
                        let all = views_of(self.cfg@);
                        assert(views_of(self.cfg@.take(i + 1)) =~= all.take(i + 1));
                        assert(cfg_entries(all.take(i + 1)) == Err::<
                            Seq<(Seq<char>, Seq<char>)>,
                            Seq<char>,
                        >(item@));
                        lemma_cfg_error_stays(all, i as int + 1);
                    }
                    return Err(ConfigError::MissingSeparator(item.clone()));
                },
            }
            i += 1;
        }
        assert(self.cfg@.take(n as int) =~= self.cfg@);
        Ok(out)
    }
}

impl CliArgs {
    /// Applies the configuration changes of the command line to `config`,
    /// in the order of `config_overrides`: the session settings, then each
    /// `--cfg` pair split at its first `:`.
    ///
    /// A `--cfg` argument without `:` is reported before anything is
    /// inserted. Otherwise the entries are inserted one by one; the first one
    /// that the configuration refuses stops the run and is reported with its
    /// key and value, the entries before it having been inserted. `Ok` means
    /// every entry was inserted. With no entry, `config` is left as it was.
    pub fn config(&self, config: &mut SessionConfig) -> (r: Result<(), ConfigError>)
        ensures
            match cfg_entries(views_of(self.cfg@)) {
                Err(e) => {
                    &&& r matches Err(ConfigError::MissingSeparator(s)) && s@ == e
                    &&& *final(config) == *old(config)
                },
                Ok(e) => {
                    let all = settings_entries(*self) + e;
                    &&& all.len() == 0 ==> r is Ok && *final(config) == *old(config)
                    &&& match r {
                        Ok(_) => final(config).inserted() == old(config).inserted() + all,
                        Err(ConfigError::Rejected { key, value, reason: _ }) => exists|k: int|
                            0 <= k < all.len() && #[trigger] all[k] == (key@, value@)
                                && final(config).inserted() == old(config).inserted() + all.take(
                                k,
                            ),
                        Err(ConfigError::MissingSeparator(_)) => false,
                    }
                },
            },
    {
        let entries = match self.config_overrides() {
            Ok(v) => v,
            Err(e) => {
                return Err(e);
            },
        };
        let ghost all = entries_view(entries@);
        let ghost start = config.inserted();
        let n: usize = entries.len();
        let mut i: usize = 0;
        while i < n
            invariant
                n == entries@.len(),
                i <= n,
                all == entries_view(entries@),
                cfg_entries(views_of(self.cfg@)) matches Ok(e) && all == settings_entries(*self) + e,
                config.inserted() == start + all.take(i as int),
                start == old(config).inserted(),
                i == 0 ==> *config == *old(config),
            decreases n - i,
        {
            let entry = &entries[i];
            match config.insert_json5(entry.key.as_str(), entry.value.as_str()) {
                Ok(_) => {
                    assert(all.take(i + 1) =~= all.take(i as int).push((entry.key@, entry.value@)));
                },
                Err(reason) => {
                    assert(all[i as int] == (entry.key@, entry.value@));
                    assert(all.take(i as int) =~= all.take(i as int));
                    return Err(
                        ConfigError::Rejected {
                            key: entry.key.clone(),
                            value: entry.value.clone(),
                            reason,
                        },
                    );
                },
            }
            i += 1;
        }
        assert(all.take(n as int) =~= all);
        Ok(())
    }
}

/// Once a prefix of the arguments has an error, the whole list has the same one.
proof fn lemma_cfg_error_stays(cfg: Seq<Seq<char>>, k: int)
    requires
        0 <= k <= cfg.len(),
        cfg_entries(cfg.take(k)) is Err,
    ensures
        cfg_entries(cfg) == cfg_entries(cfg.take(k)),
    decreases cfg.len() - k,
{
    if k < cfg.len() {
        assert(cfg.take(k + 1).drop_last() =~= cfg.take(k));
        lemma_cfg_error_stays(cfg, k + 1);
    } else {
        assert(cfg.take(k) =~= cfg);
    }
}

} // verus!
