//! Where Lumina keeps its configuration and daemon state.

use vstd::prelude::*;

use crate::config::ConfigError;
use crate::text::{self, join_path};

verus! {

/// Asks `dirs::config_dir` for the user's configuration directory, as a UTF-8 string. The answer
/// depends on the environment and the platform, so nothing is stated of it.
#[verifier::external_body]
fn user_config_dir() -> (r: Option<String>) {
    dirs::config_dir().and_then(|path| path.into_os_string().into_string().ok())
}

/// Asks `dirs::state_dir` for the user's state directory, as a UTF-8 string. The answer depends
/// on the environment and the platform, so nothing is stated of it.
#[verifier::external_body]
fn user_state_dir() -> (r: Option<String>) {
    dirs::state_dir().and_then(|path| path.into_os_string().into_string().ok())
}

/// Asks `dirs::data_local_dir` for the user's local data directory, as a UTF-8 string. The
/// answer depends on the environment and the platform, so nothing is stated of it.
#[verifier::external_body]
fn user_data_local_dir() -> (r: Option<String>) {
    dirs::data_local_dir().and_then(|path| path.into_os_string().into_string().ok())
}

/// `dir` is what a call of `user_config_dir` gave: the configuration directory that
/// `dirs::config_dir` reports.
pub closed spec fn is_reported_config_dir(dir: Option<String>) -> bool {
    call_ensures(user_config_dir, (), dir)
}

/// `dir` is what a call of `user_state_dir` gave: the state directory that `dirs::state_dir`
/// reports.
pub closed spec fn is_reported_state_dir(dir: Option<String>) -> bool {
    call_ensures(user_state_dir, (), dir)
}

/// `dir` is what a call of `user_data_local_dir` gave: the local data directory that
/// `dirs::data_local_dir` reports.
pub closed spec fn is_reported_data_local_dir(dir: Option<String>) -> bool {
    call_ensures(user_data_local_dir, (), dir)
}

/// The Lumina state directory chosen from a state directory and a local data directory:
/// under the state directory if there is one, else under the local data directory.
pub open spec fn spec_state_dir_choice(state: Option<String>, data_local: Option<String>) -> Option<
    Seq<char>,
> {
    match (state, data_local) {
        (Some(d), _) => Some(spec_state_dir_in(d@)),
        (None, Some(d)) => Some(spec_state_dir_in(d@)),
        (None, None) => None,
    }
}

/// `lumina/config.toml` under a configuration directory.
pub open spec fn spec_config_file_in(dir: Seq<char>) -> Seq<char> {
    text::spec_join_path(text::spec_join_path(dir, "lumina"@), "config.toml"@)
}

/// `lumina` under a state directory.
pub open spec fn spec_state_dir_in(dir: Seq<char>) -> Seq<char> {
    text::spec_join_path(dir, "lumina"@)
}

/// The configuration file inside the configuration directory `dir`.
pub fn config_file_in(dir: &str) -> (r: String)
    ensures
        r@ == spec_config_file_in(dir@),
{
    let app_dir = join_path(dir, "lumina");
    join_path(app_dir.as_str(), "config.toml")
}

/// The Lumina state directory inside the user state directory `dir`.
pub fn state_dir_in(dir: &str) -> (r: String)
    ensures
        r@ == spec_state_dir_in(dir@),
{
    join_path(dir, "lumina")
}

/// The configuration file inside the configuration directory `dir`, or
/// `MissingConfigDirectory` where there is none.
pub fn config_file_from(dir: Option<String>) -> (r: Result<String, ConfigError>)
    ensures
        match dir {
            Some(d) => r matches Ok(p) && p@ == spec_config_file_in(d@),
            None => r matches Err(e) && e is MissingConfigDirectory,
        },
{
    match dir {
        Some(d) => Ok(config_file_in(d.as_str())),
        None => Err(ConfigError::MissingConfigDirectory),
    }
}

/// Uses `~/.config/lumina/config.toml` on Linux, or the platform's equivalent.
pub fn config_file() -> (r: Result<String, ConfigError>)
    ensures
        r matches Ok(p) ==> exists|dir: Seq<char>| p@ == spec_config_file_in(dir),
        r matches Err(e) ==> e is MissingConfigDirectory,
        exists|dir: Option<String>|
            is_reported_config_dir(dir) && match dir {
                Some(d) => r matches Ok(p) && p@ == spec_config_file_in(d@),
                None => r matches Err(e) && e is MissingConfigDirectory,
            },
{
    let dir = user_config_dir();
    let ghost reported = dir;
    assert(is_reported_config_dir(reported));
    config_file_from(dir)
}

/// The Lumina directory under the user state directory `state`, or under the local data
/// directory `data_local` where there is no state directory.
pub fn state_dir_from(state: Option<String>, data_local: Option<String>) -> (r: Option<String>)
    ensures
        r matches Some(p) ==> (match (state, data_local) {
            (Some(d), _) => p@ == spec_state_dir_in(d@),
            (None, Some(d)) => p@ == spec_state_dir_in(d@),
            (None, None) => false,
        }),
        r is None <==> (state is None && data_local is None),
        match spec_state_dir_choice(state, data_local) {
            Some(p) => r matches Some(q) && q@ == p,
            None => r is None,
        },
{
    let base = match state {
        Some(dir) => Some(dir),
        None => data_local,
    };
    match base {
        Some(dir) => Some(state_dir_in(dir.as_str())),
        None => None,
    }
}

/// The Lumina directory under the user state directory, or under the local data directory
/// where the platform has no state directory.
pub fn state_dir() -> (r: Option<String>)
    ensures
        r matches Some(p) ==> exists|dir: Seq<char>| p@ == spec_state_dir_in(dir),
        exists|state: Option<String>, data_local: Option<String>|
            is_reported_state_dir(state) && is_reported_data_local_dir(data_local) && match
                spec_state_dir_choice(state, data_local) {
                Some(p) => r matches Some(q) && q@ == p,
                None => r is None,
            },
{
    let state = user_state_dir();
    let data_local = user_data_local_dir();
    let ghost reported = (state, data_local);
    assert(is_reported_state_dir(reported.0) && is_reported_data_local_dir(reported.1));
    state_dir_from(state, data_local)
}

} // verus!
