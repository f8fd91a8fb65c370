//! Configuration handling: the service reads a small configuration file
//! and falls back to fixed defaults for anything it leaves out.  Reading
//! and parsing the file is I/O and stays outside; the defaulting rules
//! live here.

use vstd::prelude::*;

verus! {

/// The service configuration: the address to serve on and the database
/// path, each optional.
pub struct Config {
    pub web_url: Option<String>,
    pub db_path: Option<String>,
}

/// The address the service listens on: the configured one, or
/// `127.0.0.1:8080`.
pub fn get_url(config: &Config) -> (res: String)
    ensures
        match config.web_url {
            Some(u) => res@ == u@,
            None => res@ == "127.0.0.1:8080"@,
        },
{
    match &config.web_url {
        Some(u) => u.clone(),
        None => "127.0.0.1:8080".to_owned(),
    }
}

/// The database path: the configured one, or `flowfs`.
pub fn get_db_path(config: &Config) -> (res: String)
    ensures
        match config.db_path {
            Some(p) => res@ == p@,
            None => res@ == "flowfs"@,
        },
{
    match &config.db_path {
        Some(p) => p.clone(),
        None => "flowfs".to_owned(),
    }
}

} // verus!
