//! The RPC endpoint details a daemon exposes once it runs: the local
//! URL derived from the configured RPC port, and the credentials the
//! configuration provides.  Building an actual RPC client from these
//! values is the caller's business.

use vstd::prelude::*;

use crate::text::{dec_digits, push_dec};

verus! {

/// Credentials for a daemon's JSON-RPC endpoint.
#[derive(Clone, Debug, PartialEq, Eq)]
pub enum Auth {
    /// Authentication through the cookie file at this path.
    CookieFile(String),
    /// Authentication with this user name and password.
    UserPass(String, String),
}

/// The URL text of the local RPC endpoint at the given port.
pub open spec fn rpc_url_text(port: u16) -> Seq<char> {
    "http://127.0.0.1:"@ + dec_digits(port as nat)
}

/// The credentials the configuration determines: the cookie file when
/// one is set, else user name and password when both are set, else
/// nothing.
pub open spec fn auth_spec(
    cookie: Option<String>,
    user: Option<String>,
    pass: Option<String>,
) -> Option<Auth> {
    if cookie is Some {
        Some(Auth::CookieFile(cookie.unwrap()))
    } else if user is Some {
        if pass is Some {
            Some(Auth::UserPass(user.unwrap(), pass.unwrap()))
        } else {
            None
        }
    } else {
        None
    }
}

/// The RPC endpoint determined by the relevant configuration settings:
/// present exactly when an RPC port is configured and credentials are
/// complete.
pub fn rpc_info(
    rpcport: Option<u16>,
    rpccookie: &Option<String>,
    rpcuser: &Option<String>,
    rpcpass: &Option<String>,
) -> (r: Option<(String, Auth)>)
    ensures
        match (rpcport, auth_spec(*rpccookie, *rpcuser, *rpcpass)) {
            (Some(p), Some(a)) => r matches Some((url, auth)) && url@ == rpc_url_text(p) && auth
                == a,
            _ => r is None,
        },
{
    let port = match rpcport {
        Some(p) => p,
        None => {
            return None;
        },
    };
    let auth = match rpccookie {
        Some(c) => Auth::CookieFile(c.clone()),
        None => match rpcuser {
            Some(u) => match rpcpass {
                Some(p) => Auth::UserPass(u.clone(), p.clone()),
                None => {
                    return None;
                },
            },
            None => {
                return None;
            },
        },
    };
    let mut url = String::new();
    url.append("http://127.0.0.1:");
    push_dec(&mut url, port as u64);
    assert(url@ =~= rpc_url_text(port));
    Some((url, auth))
}

} // verus!
