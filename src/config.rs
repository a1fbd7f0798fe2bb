//! Server-level settings: where to listen, the URL prefix, and which modules
//! to mount.

use vstd::prelude::*;

verus! {

/// Server-level settings.
#[derive(Debug)]
pub struct Config {
    pub address: String,
    pub port: u16,
    /// Prefix that a reverse proxy puts before every path of this server.
    pub url_base: String,
    pub modules: Vec<Module>,
}

/// A mountable group of endpoints.
#[derive(Debug)]
pub enum Module {
    Git { mount_path: String },
}

/// The listen address when none is configured.
pub fn default_config_address() -> (r: String)
    ensures
        r@ == "localhost"@,
{
    String::from_str("localhost")
}

/// The listen port when none is configured.
pub fn default_config_port() -> (r: u16)
    ensures
        r == 7267,
{
    7267
}

/// The URL prefix when none is configured: none.
pub fn default_config_url_base() -> (r: String)
    ensures
        r@ == Seq::<char>::empty(),
{
    String::new()
}

/// The modules when none are configured: none.
pub fn default_config_modules<T>() -> (r: Vec<T>)
    ensures
        r@ == Seq::<T>::empty(),
{
    Vec::new()
}

/// Where the git module is mounted when no path is configured.
pub fn default_config_mount_path() -> (r: String)
    ensures
        r@ == "/git"@,
{
    String::from_str("/git")
}

/// Puts `url_base` before `url`, for a server that a reverse proxy serves
/// under a path.
pub fn prepend_url_base(url: String, url_base: &str) -> (r: String)
    ensures
        r@ == url_base@ + url@,
{
    let mut r = String::from_str(url_base);
    r.append(url.as_str());
    r
}

} // verus!
