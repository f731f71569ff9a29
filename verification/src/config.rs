//! The configuration of the server.
//!
//! The configuration is a TOML table of three entries, all of them optional. Reading
//! the file is the caller's part; the TOML is read by the toml crate.

use vstd::prelude::*;
use vstd::string::*;
use crate::clock::MAX_DURATION;
use crate::text::str_eq;

verus! {

/// How many seconds a remembered session lasts where the configuration says nothing:
/// two weeks.
pub const DEFAULT_SESSION_REMEMBER: i64 = 1_209_600;

/// The value of one entry of a configuration.
#[derive(Debug)]
pub enum ConfigValue {
    /// A whole number.
    Integer(i64),
    /// A string.
    Text(String),
    /// A value of any other kind.
    Other,
}

/// The value of one entry, its string taken as characters.
pub enum ConfigValueView {
    Integer(i64),
    Text(Seq<char>),
    Other,
}

impl View for ConfigValue {
    type V = ConfigValueView;

    open spec fn view(&self) -> ConfigValueView {
        match *self {
            ConfigValue::Integer(i) => ConfigValueView::Integer(i),
            ConfigValue::Text(t) => ConfigValueView::Text(t@),
            ConfigValue::Other => ConfigValueView::Other,
        }
    }
}

/// The entries of a table, each name with its value.
pub type Entries = Seq<(Seq<char>, ConfigValueView)>;

/// The characters of a list of entries.
pub open spec fn entries_view(entries: Seq<(String, ConfigValue)>) -> Entries {
    entries.map_values(|e: (String, ConfigValue)| (e.0@, e.1@))
}

/// The entries of the table that the TOML text `text` writes, or nothing where the
/// text is no TOML.
pub uninterp spec fn toml_entries(text: Seq<char>) -> Option<Entries>;

/// `FromStr` of toml's `Table`: the entries of the table, or nothing where it reports
/// an error. Of a value that is neither integer nor string only that is told.
#[verifier::external_body]
pub(crate) fn parse_toml(text: &str) -> (entries: Option<Vec<(String, ConfigValue)>>)
    ensures
        match entries {
            Some(e) => toml_entries(text@) == Some(entries_view(e@)),
            None => toml_entries(text@) is None,
        },
{
    text.parse::<toml::Table>().ok().map(
        |table|
            table.into_iter().map(
                |(key, value)|
                    (
                        key,
                        match value {
                            toml::Value::Integer(i) => ConfigValue::Integer(i),
                            toml::Value::String(s) => ConfigValue::Text(s),
                            _ => ConfigValue::Other,
                        },
                    ),
            ).collect(),
    )
}

/// The configuration of the server.
#[derive(Clone, Debug)]
pub struct Config {
    session_remember: i64,
    ssl_cert: String,
    ssl_key: String,
}

/// A configuration, its strings taken as characters.
pub struct ConfigView {
    pub session_remember: i64,
    pub ssl_cert: Seq<char>,
    pub ssl_key: Seq<char>,
}

impl View for Config {
    type V = ConfigView;

    closed spec fn view(&self) -> ConfigView {
        ConfigView {
            session_remember: self.session_remember,
            ssl_cert: self.ssl_cert@,
            ssl_key: self.ssl_key@,
        }
    }
}

/// The configuration where the file says nothing.
pub open spec fn default_config() -> ConfigView {
    ConfigView {
        session_remember: DEFAULT_SESSION_REMEMBER,
        ssl_cert: "my.domain.com.crt"@,
        ssl_key: "my.domain.com.pem"@,
    }
}

/// The configuration `config` with one entry applied, or nothing where the entry has
/// a name that no configuration has, or a value of the wrong kind or out of range.
pub open spec fn with_entry(config: ConfigView, key: Seq<char>, value: ConfigValueView) -> Option<
    ConfigView,
> {
    if key == "session_remember"@ {
        match value {
            ConfigValueView::Integer(seconds) if -MAX_DURATION <= seconds <= MAX_DURATION => Some(
                ConfigView { session_remember: seconds, ..config },
            ),
            _ => None,
        }
    } else if key == "ssl_cert"@ {
        match value {
            ConfigValueView::Text(path) => Some(ConfigView { ssl_cert: path, ..config }),
            _ => None,
        }
    } else if key == "ssl_key"@ {
        match value {
            ConfigValueView::Text(path) => Some(ConfigView { ssl_key: path, ..config }),
            _ => None,
        }
    } else {
        None
    }
}

/// The default configuration with the entries applied one after the other.
pub open spec fn config_of(entries: Entries) -> Option<ConfigView>
    decreases entries.len(),
{
    if entries.len() == 0 {
        Some(default_config())
    } else {
        match config_of(entries.drop_last()) {
            Some(config) => with_entry(config, entries.last().0, entries.last().1),
            None => None,
        }
    }
}

/// The configuration that the contents of the file give: the default where there is
/// no file, nothing where the contents are no TOML or hold a faulty entry.
pub open spec fn config_of_file(contents: Option<Seq<char>>) -> Option<ConfigView> {
    match contents {
        None => Some(default_config()),
        Some(text) => match toml_entries(text) {
            Some(entries) => config_of(entries),
            None => None,
        },
    }
}

/// No configuration comes of entries whose first ones give none.
pub proof fn lemma_config_stays_none(entries: Entries, k: int)
    requires
        0 <= k <= entries.len(),
        config_of(entries.subrange(0, k)) is None,
    ensures
        config_of(entries) is None,
    decreases entries.len() - k,
{
    if k == entries.len() {
        assert(entries.subrange(0, k) =~= entries);
    } else {
        let longer = entries.subrange(0, k + 1);
        assert(longer.drop_last() =~= entries.subrange(0, k));
        lemma_config_stays_none(entries, k + 1);
    }
}

impl Default for Config {
    fn default() -> (config: Config)
        ensures
            config@ == default_config(),
    {
        Config {
            session_remember: DEFAULT_SESSION_REMEMBER,
            ssl_cert: String::from_str("my.domain.com.crt"),
            ssl_key: String::from_str("my.domain.com.pem"),
        }
    }
}

impl Config {
    /// Applies one entry to the configuration. Tells whether the entry was good; a
    /// faulty entry changes nothing.
    pub fn apply(&mut self, key: &str, value: &ConfigValue) -> (good: bool)
        ensures
            match with_entry(old(self)@, key@, value@) {
                Some(config) => good && final(self)@ == config,
                None => !good && final(self)@ == old(self)@,
            },
    {
        if str_eq(key, "session_remember") {
            match value {
                ConfigValue::Integer(seconds) => {
                    if -MAX_DURATION <= *seconds && *seconds <= MAX_DURATION {
                        self.session_remember = *seconds;
                        true
                    } else {
                        false
                    }
                },
                _ => false,
            }
        } else if str_eq(key, "ssl_cert") {
            match value {
                ConfigValue::Text(path) => {
                    self.ssl_cert = path.clone();
                    true
                },
                _ => false,
            }
        } else if str_eq(key, "ssl_key") {
            match value {
                ConfigValue::Text(path) => {
                    self.ssl_key = path.clone();
                    true
                },
                _ => false,
            }
        } else {
            false
        }
    }

    /// The default configuration with the entries applied one after the other, or
    /// nothing where one of them is faulty.
    pub fn from_entries(entries: &Vec<(String, ConfigValue)>) -> (config: Option<Config>)
        ensures
            match config {
                Some(c) => config_of(entries_view(entries@)) == Some(c@),
                None => config_of(entries_view(entries@)) is None,
            },
    {
        let ghost all = entries_view(entries@);
        let mut config = Config::default();
        let mut i: usize = 0;
        assert(all.subrange(0, 0) =~= Seq::empty());
        while i < entries.len()
            invariant
                0 <= i <= entries.len(),
                all == entries_view(entries@),
                config_of(all.subrange(0, i as int)) == Some(config@),
            decreases entries.len() - i,
        {
            let ghost longer = all.subrange(0, i + 1);
            proof {
                assert(longer.drop_last() =~= all.subrange(0, i as int));
                assert(longer.last() == (entries@[i as int].0@, entries@[i as int].1@));
            }
            if !config.apply(entries[i].0.as_str(), &entries[i].1) {
                proof {
                    lemma_config_stays_none(all, i + 1);
                }
                return None;
            }
            i += 1;
        }
        assert(all.subrange(0, i as int) =~= all);
        Some(config)
    }

    /// The configuration that the contents of the configuration file give; `None`
    /// as contents says that there is no file.
    pub fn from_file(contents: Option<&str>) -> (config: Option<Config>)
        ensures
            match config {
                Some(c) => config_of_file(
                    match contents {
                        Some(t) => Some(t@),
                        None => None,
                    },
                ) == Some(c@),
                None => config_of_file(
                    match contents {
                        Some(t) => Some(t@),
                        None => None,
                    },
                ) is None,
            },
    {
        match contents {
            None => Some(Config::default()),
            Some(text) => match parse_toml(text) {
                Some(entries) => Config::from_entries(&entries),
                None => None,
            },
        }
    }

    /// How many seconds the session of a user lasts who asked to be remembered.
    pub fn get_session_remember(&self) -> (seconds: i64)
        ensures
            seconds == self@.session_remember,
    {
        self.session_remember
    }

    /// Where the certificate is.
    pub fn get_ssl_cert(&self) -> (path: String)
        ensures
            path@ == self@.ssl_cert,
    {
        self.ssl_cert.clone()
    }

    /// Where the key of the certificate is.
    pub fn get_ssl_key(&self) -> (path: String)
        ensures
            path@ == self@.ssl_key,
    {
        self.ssl_key.clone()
    }
}

} // verus!
