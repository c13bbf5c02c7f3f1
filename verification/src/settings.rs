//! Caller-supplied run configuration: required credential fields, the
//! optional redirect override, and the fixed environment handed to the
//! worker.

use vstd::prelude::*;

use crate::text::{spec_trim, trim_str};

verus! {

/// Parameters for one run of the worker. Immutable once a run starts. The
/// four credential fields must be non-empty or a start is rejected before
/// any OS interaction.
#[derive(Clone)]
pub struct SyncSettings {
    pub client_id: String,
    pub client_secret: String,
    pub spotify_redirect_uri: Option<String>,
    pub steam_username: String,
    pub steam_password: String,
    pub not_playing: String,
}

/// All four required credential fields are non-empty.
pub open spec fn spec_settings_valid(s: SyncSettings) -> bool {
    &&& s.client_id@.len() > 0
    &&& s.client_secret@.len() > 0
    &&& s.steam_username@.len() > 0
    &&& s.steam_password@.len() > 0
}

/// Whether the settings carry every required credential.
pub fn validate_settings(settings: &SyncSettings) -> (r: bool)
    ensures
        r == spec_settings_valid(*settings),
{
    settings.client_id.as_str().unicode_len() > 0
        && settings.client_secret.as_str().unicode_len() > 0
        && settings.steam_username.as_str().unicode_len() > 0
        && settings.steam_password.as_str().unicode_len() > 0
}

/// The redirect value as the worker environment receives it: the trimmed
/// text when one is configured and non-blank, absent otherwise.
pub open spec fn spec_redirect_env(redirect: Option<Seq<char>>) -> Option<Seq<char>> {
    match redirect {
        Option::None => None,
        Option::Some(raw) => if spec_trim(raw).len() > 0 {
            Some(spec_trim(raw))
        } else {
            None
        },
    }
}

/// The environment mapping handed to the worker, under fixed variable names:
/// the four credentials, the not-playing text, and the trimmed redirect
/// override when one is configured.
pub fn worker_env(settings: &SyncSettings) -> (env: Vec<(String, String)>)
    ensures
        env@.len() == if spec_redirect_env(settings.spotify_redirect_uri.deep_view()) is Some {
            6int
        } else {
            5int
        },
        env@[0].0@ == "CLIENTID"@ && env@[0].1@ == settings.client_id@,
        env@[1].0@ == "CLIENTSECRET"@ && env@[1].1@ == settings.client_secret@,
        env@[2].0@ == "STEAMUSERNAME"@ && env@[2].1@ == settings.steam_username@,
        env@[3].0@ == "STEAMPASSWORD"@ && env@[3].1@ == settings.steam_password@,
        env@[4].0@ == "NOTPLAYING"@ && env@[4].1@ == settings.not_playing@,
        spec_redirect_env(settings.spotify_redirect_uri.deep_view()) matches Some(t) ==> env@[5].0@
            == "SPOTIFY_REDIRECT_URI"@ && env@[5].1@ == t,
{
    let mut env: Vec<(String, String)> = Vec::new();
    env.push((String::from_str("CLIENTID"), settings.client_id.clone()));
    env.push((String::from_str("CLIENTSECRET"), settings.client_secret.clone()));
    env.push((String::from_str("STEAMUSERNAME"), settings.steam_username.clone()));
    env.push((String::from_str("STEAMPASSWORD"), settings.steam_password.clone()));
    env.push((String::from_str("NOTPLAYING"), settings.not_playing.clone()));
    match &settings.spotify_redirect_uri {
        None => {},
        Some(raw) => {
            let trimmed = trim_str(raw.as_str());
            if trimmed.unicode_len() > 0 {
                env.push((String::from_str("SPOTIFY_REDIRECT_URI"), String::from_str(trimmed)));
            }
        },
    }
    env
}

/// The program the worker is spawned as.
pub fn worker_program() -> (r: String)
    ensures
        r@ == "bun"@,
{
    String::from_str("bun")
}

/// The fixed argument list the worker is spawned with.
pub fn worker_args() -> (r: Vec<String>)
    ensures
        r@.len() == 2,
        r@[0]@ == "run"@,
        r@[1]@ == "src/index.ts"@,
{
    let mut args: Vec<String> = Vec::new();
    args.push(String::from_str("run"));
    args.push(String::from_str("src/index.ts"));
    args
}

} // verus!
