//! The user's configuration: data source, credentials, refresh interval, theme
//! and key overrides.
use vstd::prelude::*;
use crate::text::{chars_of, owned, seq_eq};

verus! {

/// Hex intensity overrides for the monochrome palette.
#[derive(Debug)]
pub struct ThemeConfig {
    pub accent: Option<String>,
    pub white: Option<String>,
    pub gray: Option<String>,
    pub dim: Option<String>,
    pub surface: Option<String>,
    pub surface_raised: Option<String>,
    pub green: Option<String>,
    pub amber: Option<String>,
    pub red: Option<String>,
    pub background: Option<String>,
}

/// Command name → key description(s), in the order they were read.
#[derive(Debug)]
pub struct KeyConfig(pub Vec<(String, Vec<String>)>);

#[derive(Debug)]
pub struct Config {
    pub source: Option<String>,
    pub client_id: Option<String>,
    pub access_token: Option<String>,
    pub refresh_token: Option<String>,
    pub expires_at: Option<i64>,
    pub user_id: Option<String>,
    /// Seconds between silent background refreshes of the Home timeline;
    /// 0 disables auto-refresh.
    pub auto_refresh_secs: Option<u64>,
    pub theme: Option<ThemeConfig>,
    pub keys: Option<KeyConfig>,
}

impl Default for ThemeConfig {
    fn default() -> (r: Self)
        ensures
            r.accent is None && r.white is None && r.gray is None && r.dim is None
                && r.surface is None && r.surface_raised is None && r.green is None
                && r.amber is None && r.red is None && r.background is None,
    {
        ThemeConfig {
            accent: None,
            white: None,
            gray: None,
            dim: None,
            surface: None,
            surface_raised: None,
            green: None,
            amber: None,
            red: None,
            background: None,
        }
    }
}

impl Default for KeyConfig {
    fn default() -> (r: Self)
        ensures
            r.0@.len() == 0,
    {
        KeyConfig(Vec::new())
    }
}

impl Default for Config {
    fn default() -> (r: Self)
        ensures
            r.source is None && r.client_id is None && r.access_token is None
                && r.refresh_token is None && r.expires_at is None && r.user_id is None
                && r.auto_refresh_secs is None && r.theme is None && r.keys is None,
    {
        Config {
            source: None,
            client_id: None,
            access_token: None,
            refresh_token: None,
            expires_at: None,
            user_id: None,
            auto_refresh_secs: None,
            theme: None,
            keys: None,
        }
    }
}

/// Whether a configured source selects the browser extension (`"browser"` is
/// the legacy spelling).
pub open spec fn selects_extension(source: Option<String>) -> bool {
    source matches Some(s) && (s@ == "extension"@ || s@ == "browser"@)
}

impl Config {
    /// The saved access token, unless it is missing or empty.
    pub fn access_token(&self) -> (r: Option<&str>)
        ensures
            match self.access_token {
                Some(t) => if t@.len() > 0 {
                    r matches Some(x) && x@ == t@
                } else {
                    r is None
                },
                None => r is None,
            },
    {
        match &self.access_token {
            Some(t) => {
                let s = t.as_str();
                if s.unicode_len() > 0 {
                    Some(s)
                } else {
                    None
                }
            },
            None => None,
        }
    }

    /// Whether the configuration selects the browser extension as source.
    pub fn use_extension(&self) -> (r: bool)
        ensures
            r == selects_extension(self.source),
    {
        match &self.source {
            Some(s) => {
                let v = chars_of(s.as_str());
                let ext = chars_of("extension");
                let browser = chars_of("browser");
                seq_eq(&v, &ext) || seq_eq(&v, &browser)
            },
            None => false,
        }
    }

    /// Mark the browser extension as the preferred source.
    pub fn enable_extension_mode(&mut self)
        ensures
            final(self).source matches Some(s) && s@ == "extension"@,
            final(self).client_id == old(self).client_id,
            final(self).access_token == old(self).access_token,
            final(self).refresh_token == old(self).refresh_token,
            final(self).expires_at == old(self).expires_at,
            final(self).user_id == old(self).user_id,
            final(self).auto_refresh_secs == old(self).auto_refresh_secs,
            final(self).theme == old(self).theme,
            final(self).keys == old(self).keys,
    {
        self.source = Some(owned("extension"));
    }

    /// The configuration with the environment's `XTUI_CLIENT_ID` and
    /// `XTUI_ACCESS_TOKEN`, where set, taking the place of the saved values.
    pub fn with_environment(self, client_id: Option<String>, access_token: Option<String>) -> (r: Config)
        ensures
            r.client_id == match client_id {
                Some(c) => Some(c),
                None => self.client_id,
            },
            r.access_token == match access_token {
                Some(t) => Some(t),
                None => self.access_token,
            },
            r.source == self.source,
            r.refresh_token == self.refresh_token,
            r.expires_at == self.expires_at,
            r.user_id == self.user_id,
            r.auto_refresh_secs == self.auto_refresh_secs,
            r.theme == self.theme,
            r.keys == self.keys,
    {
        let mut config = self;
        if client_id.is_some() {
            config.client_id = client_id;
        }
        if access_token.is_some() {
            config.access_token = access_token;
        }
        config
    }

    /// Keep the tokens of a completed sign-in: the client, the access token,
    /// the refresh token (or none) and when the access token expires.
    pub fn record_login(
        &mut self,
        client_id: String,
        access_token: String,
        refresh_token: Option<String>,
        expires_at: Option<i64>,
    )
        ensures
            final(self).client_id == Some(client_id),
            final(self).access_token == Some(access_token),
            final(self).refresh_token == refresh_token,
            final(self).expires_at == expires_at,
            final(self).source == old(self).source,
            final(self).user_id == old(self).user_id,
            final(self).auto_refresh_secs == old(self).auto_refresh_secs,
            final(self).theme == old(self).theme,
            final(self).keys == old(self).keys,
    {
        self.client_id = Some(client_id);
        self.access_token = Some(access_token);
        self.refresh_token = refresh_token;
        self.expires_at = expires_at;
    }

    /// Keep refreshed tokens: the refresh token is replaced only when X
    /// handed out a new one.
    pub fn record_refresh(
        &mut self,
        access_token: String,
        refresh_token: Option<String>,
        expires_at: Option<i64>,
    )
        ensures
            final(self).access_token == Some(access_token),
            final(self).refresh_token == match refresh_token {
                Some(t) => Some(t),
                None => old(self).refresh_token,
            },
            final(self).expires_at == expires_at,
            final(self).source == old(self).source,
            final(self).client_id == old(self).client_id,
            final(self).user_id == old(self).user_id,
            final(self).auto_refresh_secs == old(self).auto_refresh_secs,
            final(self).theme == old(self).theme,
            final(self).keys == old(self).keys,
    {
        self.access_token = Some(access_token);
        if refresh_token.is_some() {
            self.refresh_token = refresh_token;
        }
        self.expires_at = expires_at;
    }
}

} // verus!
