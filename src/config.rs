//! Settings of the bot, read once at start-up.
use vstd::prelude::*;
use vstd::string::*;
use crate::paths::{join_path, path_join};
use crate::text::{decimal_value, parse_u64, split_on, split_text, trim_text, trimmed};

verus! {

/// Read-only settings: where data lives, how to reach the backend, how to
/// render answers and how many requests may be in flight.
#[derive(Debug, Clone)]
pub struct Config {
    pub root_dir: String,
    pub data_dir: String,
    pub fastgpt_api_url: String,
    pub fastgpt_auth_token: String,
    pub image_output_dir: String,
    pub font_paths: Vec<String>,
    pub font_size: u32,
    pub padding: u32,
    pub discord_token: String,
    pub discord_channel_whitelist: Vec<String>,
    pub session_expiry: u64,
    pub api_concurrency_limit: usize,
}

/// Two settings objects that hold the same values.
pub open spec fn same_config(a: Config, b: Config) -> bool {
    &&& a.root_dir@ == b.root_dir@
    &&& a.data_dir@ == b.data_dir@
    &&& a.fastgpt_api_url@ == b.fastgpt_api_url@
    &&& a.fastgpt_auth_token@ == b.fastgpt_auth_token@
    &&& a.image_output_dir@ == b.image_output_dir@
    &&& a.font_paths.deep_view() == b.font_paths.deep_view()
    &&& a.font_size == b.font_size
    &&& a.padding == b.padding
    &&& a.discord_token@ == b.discord_token@
    &&& a.discord_channel_whitelist.deep_view() == b.discord_channel_whitelist.deep_view()
    &&& a.session_expiry == b.session_expiry
    &&& a.api_concurrency_limit == b.api_concurrency_limit
}

/// A copy of a list of texts.
pub fn copy_texts(v: &Vec<String>) -> (r: Vec<String>)
    ensures
        r.deep_view() == v.deep_view(),
{
    let mut r: Vec<String> = Vec::new();
    let mut i: usize = 0;
    while i < v.len()
        invariant
            i <= v@.len(),
            r.deep_view() == v.deep_view().subrange(0, i as int),
        decreases v@.len() - i,
    {
        let c = v[i].clone();
        assert(c@ == v@[i as int]@);
        let ghost before = r.deep_view();
        r.push(c);
        assert(r.deep_view() =~= before.push(c@));
        assert(r.deep_view() =~= v.deep_view().subrange(0, i + 1));
        i = i + 1;
    }
    assert(v.deep_view().subrange(0, v@.len() as int) =~= v.deep_view());
    r
}

impl Config {
    /// A copy of these settings.
    pub fn duplicate(&self) -> (r: Config)
        ensures
            same_config(r, *self),
    {
        Config {
            root_dir: self.root_dir.clone(),
            data_dir: self.data_dir.clone(),
            fastgpt_api_url: self.fastgpt_api_url.clone(),
            fastgpt_auth_token: self.fastgpt_auth_token.clone(),
            image_output_dir: self.image_output_dir.clone(),
            font_paths: copy_texts(&self.font_paths),
            font_size: self.font_size,
            padding: self.padding,
            discord_token: self.discord_token.clone(),
            discord_channel_whitelist: copy_texts(&self.discord_channel_whitelist),
            session_expiry: self.session_expiry,
            api_concurrency_limit: self.api_concurrency_limit,
        }
    }
}

/// Font files tried when none are configured.
pub const DEFAULT_FONT_PATHS: &'static str = "./assets/fonts/LXGWWenKaiGBScreen.ttf";

/// A setting read from the environment.
#[derive(Debug, Clone, Copy, PartialEq, Eq, Structural)]
pub enum Setting {
    FastgptApiUrl,
    FastgptAuthToken,
    FontSize,
    Padding,
    DiscordToken,
    SessionExpiry,
    ConcurrencyLimit,
}

/// Name of the environment variable that holds a setting.
pub open spec fn variable_of(s: Setting) -> Seq<char> {
    match s {
        Setting::FastgptApiUrl => "FASTGPT_API_URL"@,
        Setting::FastgptAuthToken => "FASTGPT_AUTH_TOKEN"@,
        Setting::FontSize => "FONT_SIZE"@,
        Setting::Padding => "PADDING"@,
        Setting::DiscordToken => "DISCORD_TOKEN"@,
        Setting::SessionExpiry => "SESSION_EXPIRY"@,
        Setting::ConcurrencyLimit => "FASTGPT_CONCURRENCY_LIMIT"@,
    }
}

impl Setting {
    /// Name of the environment variable that holds the setting.
    pub fn variable(&self) -> (r: &'static str)
        ensures
            r@ == variable_of(*self),
    {
        match self {
            Setting::FastgptApiUrl => "FASTGPT_API_URL",
            Setting::FastgptAuthToken => "FASTGPT_AUTH_TOKEN",
            Setting::FontSize => "FONT_SIZE",
            Setting::Padding => "PADDING",
            Setting::DiscordToken => "DISCORD_TOKEN",
            Setting::SessionExpiry => "SESSION_EXPIRY",
            Setting::ConcurrencyLimit => "FASTGPT_CONCURRENCY_LIMIT",
        }
    }
}

/// Why the settings could not be read.
#[derive(Debug, Clone, Copy, PartialEq, Eq, Structural)]
pub enum ConfigError {
    /// A required setting is unset.
    Missing(Setting),
    /// A numeric setting is not a number of the right range.
    NotANumber(Setting),
}

/// Setting values as found in the environment, `None` when unset.
pub struct RawSettings {
    pub fastgpt_api_url: Option<String>,
    pub fastgpt_auth_token: Option<String>,
    pub font_paths: Option<String>,
    pub font_size: Option<String>,
    pub padding: Option<String>,
    pub discord_token: Option<String>,
    pub discord_channel_whitelist: Option<String>,
    pub session_expiry: Option<String>,
    pub api_concurrency_limit: Option<String>,
}

/// A numeric setting: its default when unset, else the number written in it,
/// if that is at most `max`.
pub open spec fn number_setting(raw: Option<Seq<char>>, default: nat, max: nat) -> Option<nat> {
    match raw {
        None => Some(default),
        Some(t) => match decimal_value(t) {
            Some(v) => if v <= max {
                Some(v)
            } else {
                None
            },
            None => None,
        },
    }
}

/// The first error among the settings, checked in the order they are read.
pub open spec fn first_config_error(raw: RawSettings) -> Option<ConfigError> {
    if raw.fastgpt_api_url is None {
        Some(ConfigError::Missing(Setting::FastgptApiUrl))
    } else if raw.fastgpt_auth_token is None {
        Some(ConfigError::Missing(Setting::FastgptAuthToken))
    } else if number_setting(raw.font_size.deep_view(), 24, u32::MAX as nat) is None {
        Some(ConfigError::NotANumber(Setting::FontSize))
    } else if number_setting(raw.padding.deep_view(), 30, u32::MAX as nat) is None {
        Some(ConfigError::NotANumber(Setting::Padding))
    } else if raw.discord_token is None {
        Some(ConfigError::Missing(Setting::DiscordToken))
    } else if number_setting(raw.session_expiry.deep_view(), 3600, u64::MAX as nat) is None {
        Some(ConfigError::NotANumber(Setting::SessionExpiry))
    } else if number_setting(raw.api_concurrency_limit.deep_view(), 5, usize::MAX as nat) is None {
        Some(ConfigError::NotANumber(Setting::ConcurrencyLimit))
    } else {
        None
    }
}

/// The font files of a comma-separated list, each trimmed.
pub open spec fn font_list(raw: Seq<char>) -> Seq<Seq<char>> {
    split_on(raw, ',').map_values(|p: Seq<char>| trimmed(p))
}

/// The entries of a comma-separated list that are not blank, untrimmed.
pub open spec fn non_blank_entries(pieces: Seq<Seq<char>>) -> Seq<Seq<char>>
    decreases pieces.len(),
{
    if pieces.len() == 0 {
        Seq::empty()
    } else {
        let rest = non_blank_entries(pieces.drop_last());
        if trimmed(pieces.last()).len() == 0 {
            rest
        } else {
            rest.push(pieces.last())
        }
    }
}

fn number_or(raw: &Option<String>, default: u64, max: u64) -> (r: Option<u64>)
    ensures
        r == match number_setting(raw.deep_view(), default as nat, max as nat) {
            Some(v) => Some(v as u64),
            None => None::<u64>,
        },
{
    match raw {
        None => Some(default),
        Some(t) => match parse_u64(t.as_str()) {
            Some(v) => if v <= max {
                Some(v)
            } else {
                None
            },
            None => None,
        },
    }
}

fn trimmed_all(pieces: Vec<String>) -> (r: Vec<String>)
    ensures
        r.deep_view() == pieces.deep_view().map_values(|p: Seq<char>| trimmed(p)),
{
    let mut r: Vec<String> = Vec::new();
    let mut i: usize = 0;
    while i < pieces.len()
        invariant
            i <= pieces@.len(),
            r.deep_view() == pieces.deep_view().subrange(0, i as int).map_values(
                |p: Seq<char>| trimmed(p),
            ),
        decreases pieces@.len() - i,
    {
        let t = trim_text(pieces[i].as_str()).to_owned();
        let ghost before = r.deep_view();
        r.push(t);
        assert(r.deep_view() =~= before.push(t@));
        assert(pieces.deep_view().subrange(0, i + 1).map_values(|p: Seq<char>| trimmed(p))
            =~= pieces.deep_view().subrange(0, i as int).map_values(|p: Seq<char>| trimmed(p)).push(
            trimmed(pieces.deep_view()[i as int]),
        ));
        i = i + 1;
    }
    assert(pieces.deep_view().subrange(0, pieces@.len() as int) =~= pieces.deep_view());
    r
}

fn keep_non_blank(pieces: Vec<String>) -> (r: Vec<String>)
    ensures
        r.deep_view() == non_blank_entries(pieces.deep_view()),
{
    let mut r: Vec<String> = Vec::new();
    let mut i: usize = 0;
    while i < pieces.len()
        invariant
            i <= pieces@.len(),
            r.deep_view() == non_blank_entries(pieces.deep_view().subrange(0, i as int)),
        decreases pieces@.len() - i,
    {
        let ghost prefix = pieces.deep_view().subrange(0, i + 1);
        assert(prefix.drop_last() =~= pieces.deep_view().subrange(0, i as int));
        if !trim_text(pieces[i].as_str()).is_empty() {
            let ghost before = r.deep_view();
            let c = pieces[i].clone();
            r.push(c);
            assert(r.deep_view() =~= before.push(c@));
        }
        i = i + 1;
    }
    assert(pieces.deep_view().subrange(0, pieces@.len() as int) =~= pieces.deep_view());
    r
}

impl RawSettings {
    pub open spec fn url(&self) -> Seq<char> {
        self.fastgpt_api_url->0@
    }
}

impl Config {
    /// Settings from the values found in the environment, with the data
    /// directory `data` under `root_dir` and rendered images under its `pic`.
    /// Unset optional values take their defaults; the first required value
    /// missing or number malformed is reported.
    pub fn from_settings(root_dir: &str, raw: &RawSettings) -> (r: Result<Config, ConfigError>)
        ensures
            match first_config_error(*raw) {
                Some(e) => r == Err::<Config, ConfigError>(e),
                None => r matches Ok(c) && {
                    &&& c.root_dir@ == root_dir@
                    &&& c.data_dir@ == path_join(root_dir@, "data"@)
                    &&& c.image_output_dir@ == path_join(path_join(root_dir@, "data"@), "pic"@)
                    &&& c.fastgpt_api_url@ == raw.url()
                    &&& c.fastgpt_auth_token@ == raw.fastgpt_auth_token->0@
                    &&& c.font_paths.deep_view() == font_list(
                        match raw.font_paths {
                            Some(t) => t@,
                            None => DEFAULT_FONT_PATHS@,
                        },
                    )
                    &&& Some(c.font_size as nat) == number_setting(raw.font_size.deep_view(), 24, u32::MAX as nat)
                    &&& Some(c.padding as nat) == number_setting(raw.padding.deep_view(), 30, u32::MAX as nat)
                    &&& c.discord_token@ == raw.discord_token->0@
                    &&& c.discord_channel_whitelist.deep_view() == non_blank_entries(
                        split_on(
                            match raw.discord_channel_whitelist {
                                Some(t) => t@,
                                None => Seq::empty(),
                            },
                            ',',
                        ),
                    )
                    &&& Some(c.session_expiry as nat) == number_setting(raw.session_expiry.deep_view(), 3600, u64::MAX as nat)
                    &&& Some(c.api_concurrency_limit as nat) == number_setting(
                        raw.api_concurrency_limit.deep_view(),
                        5,
                        usize::MAX as nat,
                    )
                },
            },
    {
        let data_dir = join_path(root_dir, "data");
        let image_output_dir = join_path(data_dir.as_str(), "pic");
        let fastgpt_api_url = match &raw.fastgpt_api_url {
            Some(u) => u.clone(),
            None => return Err(ConfigError::Missing(Setting::FastgptApiUrl)),
        };
        let fastgpt_auth_token = match &raw.fastgpt_auth_token {
            Some(t) => t.clone(),
            None => return Err(ConfigError::Missing(Setting::FastgptAuthToken)),
        };
        let font_source = match &raw.font_paths {
            Some(t) => t.as_str(),
            None => DEFAULT_FONT_PATHS,
        };
        let font_paths = trimmed_all(split_text(font_source, ','));
        let font_size = match number_or(&raw.font_size, 24, u32::MAX as u64) {
            Some(v) => v as u32,
            None => return Err(ConfigError::NotANumber(Setting::FontSize)),
        };
        let padding = match number_or(&raw.padding, 30, u32::MAX as u64) {
            Some(v) => v as u32,
            None => return Err(ConfigError::NotANumber(Setting::Padding)),
        };
        let discord_token = match &raw.discord_token {
            Some(t) => t.clone(),
            None => return Err(ConfigError::Missing(Setting::DiscordToken)),
        };
        let whitelist_source = match &raw.discord_channel_whitelist {
            Some(t) => t.as_str(),
            None => "",
        };
        proof {
            reveal_strlit("");
        }
        let discord_channel_whitelist = keep_non_blank(split_text(whitelist_source, ','));
        let session_expiry = match number_or(&raw.session_expiry, 3600, u64::MAX) {
            Some(v) => v,
            None => return Err(ConfigError::NotANumber(Setting::SessionExpiry)),
        };
        let api_concurrency_limit = match number_or(&raw.api_concurrency_limit, 5, usize::MAX as u64) {
            Some(v) => v as usize,
            None => return Err(ConfigError::NotANumber(Setting::ConcurrencyLimit)),
        };
        Ok(Config {
            root_dir: root_dir.to_owned(),
            data_dir,
            fastgpt_api_url,
            fastgpt_auth_token,
            image_output_dir,
            font_paths,
            font_size,
            padding,
            discord_token,
            discord_channel_whitelist,
            session_expiry,
            api_concurrency_limit,
        })
    }
}

} // verus!
