//! Settings: what the configuration file may say, and what holds where it
//! says nothing.

use crate::text::{join_text, decimal, port_text, trim, trimmed};
use vstd::prelude::*;
use vstd::string::*;

verus! {

/// Port to listen on.
pub const DEFAULT_PORT: u16 = 3000;

/// Log filter.
pub const DEFAULT_RUST_LOG: &'static str = "info";

/// Relying-party id of the credential verifier.
pub const DEFAULT_RP_ID: &'static str = "localhost";

/// The canonical origin.
pub const DEFAULT_RP_ORIGIN: &'static str = "http://localhost:3000";

/// The configuration file's entries, each of which may be missing.
#[derive(Debug)]
pub struct FileConfig {
    pub port: Option<u16>,
    pub rust_log: Option<String>,
    pub rp_id: Option<String>,
    pub rp_origin: Option<String>,
    pub allowed_hosts: Option<Vec<String>>,
    pub database_path: Option<String>,
}

/// The settings in force.
#[derive(Debug)]
pub struct AppConfig {
    pub port: u16,
    pub rust_log: String,
    pub rp_id: String,
    pub rp_origin: String,
    pub allowed_hosts: Vec<String>,
    pub database_path: String,
}

/// A text entry counts only if something is left of it after trimming.
pub open spec fn non_empty(value: Option<String>) -> Option<Seq<char>> {
    match value {
        Some(s) => if trimmed(s@).len() > 0 {
            Some(trimmed(s@))
        } else {
            None
        },
        None => None,
    }
}

/// Trims an entry and drops it if nothing is left.
pub fn non_empty_string(value: Option<String>) -> (r: Option<String>)
    ensures
        crate::origin::text_of(r) == non_empty(value),
{
    match value {
        Some(s) => {
            let t = trim(s.as_str());
            if t.unicode_len() > 0 {
                Some(t.to_owned())
            } else {
                None
            }
        },
        None => None,
    }
}

/// An entry, or the default where the entry does not count.
pub open spec fn text_or(value: Option<String>, default: Seq<char>) -> Seq<char> {
    match non_empty(value) {
        Some(s) => s,
        None => default,
    }
}

fn string_or(value: Option<String>, default: &str) -> (r: String)
    ensures
        r@ == text_or(value, default@),
{
    match non_empty_string(value) {
        Some(s) => s,
        None => default.to_owned(),
    }
}

/// The text of the configuration file that is written when there is none.
/// It names every setting but the database path, which follows the data
/// directory.
pub open spec fn default_config_text() -> Seq<char> {
    "port = "@ + decimal(DEFAULT_PORT as nat) + "\nrust_log = \""@ + DEFAULT_RUST_LOG@
        + "\"\nrp_id = \""@ + DEFAULT_RP_ID@ + "\"\nrp_origin = \""@ + DEFAULT_RP_ORIGIN@
        + "\"\nallowed_hosts = []\n"@
}

/// Contents of a fresh configuration file.
pub fn default_config_contents() -> (r: String)
    ensures
        r@ == default_config_text(),
{
    let port = port_text(DEFAULT_PORT);
    let mut r = join_text("port = ", port.as_str());
    r.append("\nrust_log = \"");
    r.append(DEFAULT_RUST_LOG);
    r.append("\"\nrp_id = \"");
    r.append(DEFAULT_RP_ID);
    r.append("\"\nrp_origin = \"");
    r.append(DEFAULT_RP_ORIGIN);
    r.append("\"\nallowed_hosts = []\n");
    r
}

/// Content of a list of texts.
pub open spec fn texts(list: Seq<String>) -> Seq<Seq<char>> {
    list.map_values(|s: String| s@)
}

/// The configured hosts that count: each trimmed, empty ones dropped, in
/// their order.
pub open spec fn clean_hosts(hosts: Seq<Seq<char>>) -> Seq<Seq<char>>
    decreases hosts.len(),
{
    if hosts.len() == 0 {
        Seq::empty()
    } else {
        let rest = clean_hosts(hosts.drop_last());
        if trimmed(hosts.last()).len() > 0 {
            rest.push(trimmed(hosts.last()))
        } else {
            rest
        }
    }
}

/// Trims the configured hosts and drops the empty ones.
pub fn clean_allowed_hosts(hosts: &Vec<String>) -> (out: Vec<String>)
    ensures
        texts(out@) == clean_hosts(texts(hosts@)),
{
    let ghost all = texts(hosts@);
    let mut out: Vec<String> = Vec::new();
    let n: usize = hosts.len();
    let mut i: usize = 0;
    assert(texts(out@) =~= clean_hosts(all.subrange(0, 0)));
    while i < n
        invariant
            i <= n,
            n == hosts@.len(),
            all == texts(hosts@),
            texts(out@) == clean_hosts(all.subrange(0, i as int)),
        decreases n - i,
    {
        let ghost before = texts(out@);
        assert(all.subrange(0, i + 1).drop_last() =~= all.subrange(0, i as int));
        assert(all.subrange(0, i + 1).last() == hosts@[i as int]@);
        let t = trim(hosts[i].as_str());
        if t.unicode_len() > 0 {
            out.push(t.to_owned());
            assert(texts(out@) =~= before.push(trimmed(hosts@[i as int]@)));
        }
        i += 1;
    }
    assert(all.subrange(0, n as int) =~= all);
    out
}

/// The configured hosts of a file, none where it names none.
pub open spec fn hosts_of(file: FileConfig) -> Seq<Seq<char>> {
    match file.allowed_hosts {
        Some(hosts) => clean_hosts(texts(hosts@)),
        None => Seq::empty(),
    }
}

/// Settles the settings: every entry of the file that counts, and the
/// default for every other. The database lies at `default_database_path`
/// unless the file names another place.
pub fn load_app_config(file: FileConfig, default_database_path: String) -> (config: AppConfig)
    ensures
        config.port == match file.port {
            Some(p) => p,
            None => DEFAULT_PORT,
        },
        config.rust_log@ == text_or(file.rust_log, DEFAULT_RUST_LOG@),
        config.rp_id@ == text_or(file.rp_id, DEFAULT_RP_ID@),
        config.rp_origin@ == text_or(file.rp_origin, DEFAULT_RP_ORIGIN@),
        texts(config.allowed_hosts@) == hosts_of(file),
        config.database_path@ == text_or(file.database_path, default_database_path@),
{
    let allowed_hosts = match &file.allowed_hosts {
        Some(hosts) => clean_allowed_hosts(hosts),
        None => {
            let none: Vec<String> = Vec::new();
            assert(texts(none@) =~= Seq::<Seq<char>>::empty());
            none
        },
    };
    let port = match file.port {
        Some(p) => p,
        None => DEFAULT_PORT,
    };
    AppConfig {
        port,
        rust_log: string_or(file.rust_log, DEFAULT_RUST_LOG),
        rp_id: string_or(file.rp_id, DEFAULT_RP_ID),
        rp_origin: string_or(file.rp_origin, DEFAULT_RP_ORIGIN),
        allowed_hosts,
        database_path: string_or(file.database_path, default_database_path.as_str()),
    }
}

/// The address of the database file for the storage engine.
pub fn sqlite_url_for_path(database_path: &str) -> (r: String)
    ensures
        r@ == "sqlite:"@ + database_path@ + "?mode=rwc"@,
{
    let mut r = join_text("sqlite:", database_path);
    r.append("?mode=rwc");
    r
}

} // verus!
