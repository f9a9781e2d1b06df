//! Where the client and the server keep their configuration, and the
//! configuration values themselves.

use std::path::PathBuf;

use vstd::prelude::*;

use crate::error::{Error, ErrorCode};

verus! {

#[verifier::external_type_specification]
#[verifier::external_body]
pub struct ExPathBuf(PathBuf);

/// Relies on dirs::config_dir: the user's configuration directory, if the
/// platform gives one. It is read from the environment, so nothing is known
/// of it beforehand.
#[verifier::external_body]
fn platform_config_dir() -> (r: Option<PathBuf>) {
    dirs::config_dir()
}

/// Relies on dirs::data_dir: the user's data directory, if the platform
/// gives one. It is read from the environment, so nothing is known of it
/// beforehand.
#[verifier::external_body]
fn platform_data_dir() -> (r: Option<PathBuf>) {
    dirs::data_dir()
}

/// Relies on std's Path::join: `base` followed by the component `part`.
#[verifier::external_body]
fn join(base: &PathBuf, part: &str) -> (r: PathBuf) {
    base.join(part)
}

/// Application directory, under the platform's configuration and data
/// directories.
pub const APP_DIR: &'static str = "secrets";

/// Client configuration file name
pub const CLIENT_CONFIG_FILE: &'static str = "client.toml";

/// Server configuration file name
pub const SERVER_CONFIG_FILE: &'static str = "server.toml";

/// Database file name
pub const DB_FILE: &'static str = "data.db";

/// The application's directory under a platform directory; fails with the
/// diagnostic `missing` when the platform has none.
pub fn app_dir_in(base: Option<PathBuf>, missing: &str) -> (r: Result<PathBuf, Error>)
    ensures
        r is Err <==> base is None,
        r is Err ==> r->Err_0.code == ErrorCode::Internal && r->Err_0.message@ == missing@,
{
    match base {
        Some(dir) => Ok(join(&dir, APP_DIR)),
        None => Err(Error::internal(missing)),
    }
}

/// The file `name` in the application's directory under a platform
/// directory; fails with the diagnostic `missing` when the platform has none.
pub fn app_file_in(base: Option<PathBuf>, missing: &str, name: &str) -> (r: Result<
    PathBuf,
    Error,
>)
    ensures
        r is Err <==> base is None,
        r is Err ==> r->Err_0.code == ErrorCode::Internal && r->Err_0.message@ == missing@,
{
    let dir = app_dir_in(base, missing)?;
    Ok(join(&dir, name))
}

/// Returns the application's configuration directory; fails when the
/// platform has no configuration directory.
pub fn config_dir() -> (r: Result<PathBuf, Error>)
    ensures
        r is Err ==> r->Err_0.code == ErrorCode::Internal && r->Err_0.message@
            == "Config directory not found"@,
{
    app_dir_in(platform_config_dir(), "Config directory not found")
}

/// Returns the path of a file in the application's configuration directory.
pub fn config_file(name: &str) -> (r: Result<PathBuf, Error>)
    ensures
        r is Err ==> r->Err_0.code == ErrorCode::Internal && r->Err_0.message@
            == "Config directory not found"@,
{
    app_file_in(platform_config_dir(), "Config directory not found", name)
}

/// Returns the application's data directory; fails when the platform has no
/// data directory.
pub fn data_dir() -> (r: Result<PathBuf, Error>)
    ensures
        r is Err ==> r->Err_0.code == ErrorCode::Internal && r->Err_0.message@
            == "Data directory not found"@,
{
    app_dir_in(platform_data_dir(), "Data directory not found")
}

/// Returns the path to the database file, in the application's data
/// directory.
pub fn db_file() -> (r: Result<PathBuf, Error>)
    ensures
        r is Err ==> r->Err_0.code == ErrorCode::Internal && r->Err_0.message@
            == "Data directory not found"@,
{
    app_file_in(platform_data_dir(), "Data directory not found", DB_FILE)
}

/// Client configuration
#[derive(Debug)]
pub struct ClientConfig {
    /// Server URL
    pub url: String,
    /// Authentication token
    pub token: Option<String>,
}

impl ClientConfig {
    /// Returns the path to the config directory
    pub fn config_dir(&self) -> (r: Result<PathBuf, Error>)
        ensures
            r is Err ==> r->Err_0.code == ErrorCode::Internal && r->Err_0.message@
                == "Config directory not found"@,
    {
        config_dir()
    }

    /// Returns the path to the config file
    pub fn config_file(&self) -> (r: Result<PathBuf, Error>)
        ensures
            r is Err ==> r->Err_0.code == ErrorCode::Internal && r->Err_0.message@
                == "Config directory not found"@,
    {
        config_file(CLIENT_CONFIG_FILE)
    }
}

impl Default for ClientConfig {
    /// A client of the server on the local machine, without a token.
    fn default() -> (r: Self)
        ensures
            r.url@ == "http://localhost:6666"@,
            r.token is None,
    {
        ClientConfig { url: String::from_str("http://localhost:6666"), token: None }
    }
}

/// Server configuration
#[derive(Debug)]
pub struct ServerConfig {
    /// Port
    pub port: u16,
    /// Path to the database file (`****.db`)
    pub database: PathBuf,
}

impl ServerConfig {
    /// Returns the path to the config directory
    pub fn config_dir(&self) -> (r: Result<PathBuf, Error>)
        ensures
            r is Err ==> r->Err_0.code == ErrorCode::Internal && r->Err_0.message@
                == "Config directory not found"@,
    {
        config_dir()
    }

    /// Returns the path to the config file
    pub fn config_file(&self) -> (r: Result<PathBuf, Error>)
        ensures
            r is Err ==> r->Err_0.code == ErrorCode::Internal && r->Err_0.message@
                == "Config directory not found"@,
    {
        config_file(SERVER_CONFIG_FILE)
    }
}

} // verus!
