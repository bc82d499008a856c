//! Per-platform directories for the application's configuration and state.

use vstd::prelude::*;

use etcetera::{AppStrategy, AppStrategyArgs, choose_app_strategy};

verus! {

const APP_TLD: &'static str = "com";

const APP_AUTHOR: &'static str = "Sharparam";

const APP_NAME: &'static str = "shabby";

/// Relies on etcetera::choose_app_strategy and AppStrategy::config_dir: the
/// per-platform configuration directory for the application named by the
/// three parts, or nothing when no home directory can be found. The platform
/// chooses the strategy's type, so choosing and reading stand in one body.
#[verifier::external_body]
fn platform_config_dir(top_level_domain: &str, author: &str, app_name: &str) -> (r: Option<
    String,
>) {
    match choose_app_strategy(AppStrategyArgs {
        top_level_domain: top_level_domain.to_string(),
        author: author.to_string(),
        app_name: app_name.to_string(),
    }) {
        Ok(s) => Some(s.config_dir().to_string_lossy().into_owned()),
        Err(_) => None,
    }
}

/// Relies on etcetera::choose_app_strategy and AppStrategy::state_dir: the
/// per-platform state directory, or nothing when the platform defines none
/// or no home directory can be found. The platform chooses the strategy's
/// type, so choosing and reading stand in one body.
#[verifier::external_body]
fn platform_state_dir(top_level_domain: &str, author: &str, app_name: &str) -> (r: Option<
    String,
>) {
    match choose_app_strategy(AppStrategyArgs {
        top_level_domain: top_level_domain.to_string(),
        author: author.to_string(),
        app_name: app_name.to_string(),
    }) {
        Ok(s) => s.state_dir().map(|p| p.to_string_lossy().into_owned()),
        Err(_) => None,
    }
}

/// Relies on etcetera::choose_app_strategy and AppStrategy::data_dir: the
/// per-platform data directory, or nothing when no home directory can be
/// found. The platform chooses the strategy's type, so choosing and reading
/// stand in one body.
#[verifier::external_body]
fn platform_data_dir(top_level_domain: &str, author: &str, app_name: &str) -> (r: Option<
    String,
>) {
    match choose_app_strategy(AppStrategyArgs {
        top_level_domain: top_level_domain.to_string(),
        author: author.to_string(),
        app_name: app_name.to_string(),
    }) {
        Ok(s) => Some(s.data_dir().to_string_lossy().into_owned()),
        Err(_) => None,
    }
}

/// The application's per-platform configuration directory; what it holds
/// depends on the process environment, so nothing more is promised of it.
pub fn config() -> (r: Option<String>) {
    platform_config_dir(APP_TLD, APP_AUTHOR, APP_NAME)
}

/// The application's per-platform state directory, falling back to its data
/// directory on platforms without one; `None` when no home directory can be
/// found. The value depends on the process environment.
pub fn state() -> (r: Option<String>) {
    match platform_state_dir(APP_TLD, APP_AUTHOR, APP_NAME) {
        Some(path) => Some(path),
        None => platform_data_dir(APP_TLD, APP_AUTHOR, APP_NAME),
    }
}

/// A directory and a file name joined with the path separator.
pub fn join_path(dir: &str, name: &str) -> (r: String)
    ensures
        r@ == dir@ + "/"@ + name@,
{
    proof {
        reveal_strlit("/");
    }
    let mut out = String::from_str(dir);
    out.append("/");
    out.append(name);
    out
}

} // verus!
