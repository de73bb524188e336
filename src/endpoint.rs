use vstd::prelude::*;

use crate::registry::MacronError;

verus! {

pub open spec fn login_url_of(server: Seq<char>) -> Seq<char> {
    "https://"@ + server + "/v2/login"@
}

pub open spec fn receiver_url_of(server: Seq<char>) -> Seq<char> {
    "wss://"@ + server + "/v2/receiver"@
}

pub open spec fn session_query_of(token: Seq<char>) -> Seq<char> {
    "session_token="@ + token
}

/// Where the configuration file is looked for under a home directory.
pub open spec fn default_config_path_of(home: Seq<char>) -> Seq<char> {
    home + "/.config/macron/config.toml"@
}

/// The REST login endpoint of a server.
pub fn login_url(server: &str) -> (r: String)
    ensures
        r@ == login_url_of(server@),
{
    let mut r = "https://".to_owned();
    r.append(server);
    r.append("/v2/login");
    r
}

/// The persistent-connection endpoint of a server, before its query is set.
pub fn receiver_url(server: &str) -> (r: String)
    ensures
        r@ == receiver_url_of(server@),
{
    let mut r = "wss://".to_owned();
    r.append(server);
    r.append("/v2/receiver");
    r
}

/// The query that attaches a session token to the persistent connection.
pub fn session_query(token: &str) -> (r: String)
    ensures
        r@ == session_query_of(token@),
{
    let mut r = "session_token=".to_owned();
    r.append(token);
    r
}

/// Resolves the configuration file's path from the designated environment
/// variable's value, else from the home directory; with neither there is no
/// configuration.
pub fn config_path(configured: Option<String>, home: Option<String>) -> (r: Result<String, MacronError>)
    ensures
        configured is Some ==> r is Ok && r->Ok_0@ == configured->Some_0@,
        configured is None && home is Some ==> r is Ok && r->Ok_0@ == default_config_path_of(home->Some_0@),
        configured is None && home is None ==> r == Err::<String, MacronError>(MacronError::ConfigMissing),
{
    match configured {
        Some(dir) => Ok(dir),
        None => match home {
            Some(h) => {
                let mut p = h;
                p.append("/.config/macron/config.toml");
                Ok(p)
            },
            None => Err(MacronError::ConfigMissing),
        },
    }
}

} // verus!
