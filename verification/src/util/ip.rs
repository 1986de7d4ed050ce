//! Which address a request comes from.
use vstd::prelude::*;

verus! {

/// The client's address: behind Cloudflare, the address Cloudflare reports
/// (when its header is text); else the address of the connection.
pub fn client_ip(cloudflare: bool, cf_connecting_ip: Option<&str>, peer_ip: String) -> (r: String)
    ensures
        r@ == if cloudflare && cf_connecting_ip is Some { cf_connecting_ip->0@ } else { peer_ip@ },
{
    if cloudflare {
        if let Some(header) = cf_connecting_ip {
            return header.to_owned();
        }
    }
    peer_ip
}

} // verus!
