//! The data side of the Toxiproxy admin client used when exercising the
//! probe against a slowed-down target: the request payload is assembled
//! here, verified; posting it is the caller's business.

use vstd::prelude::*;

use crate::text::{decimal_digits, push_decimal};

verus! {

/// The admin request that creates one proxy: a listen address on all
/// interfaces and the upstream to forward to, both rendered as
/// `host:port` text.
pub struct ProxyCreationRequest {
    pub name: String,
    pub listen: String,
    pub upstream: String,
    pub enabled: bool,
}

impl ProxyCreationRequest {
    pub fn new(name: &str, proxy_port: u16, upstream_address: &str, upstream_port: u16) -> (r:
        Self)
        ensures
            r.name@ == name@,
            r.listen@ == "0.0.0.0:"@ + decimal_digits(proxy_port as nat),
            r.upstream@ == upstream_address@ + ":"@ + decimal_digits(upstream_port as nat),
            r.enabled,
    {
        let mut listen = "0.0.0.0:".to_owned();
        push_decimal(&mut listen, proxy_port as u64);
        let mut upstream = upstream_address.to_owned();
        upstream.append(":");
        push_decimal(&mut upstream, upstream_port as u64);
        proof {
            assert(upstream@ =~= upstream_address@ + ":"@ + decimal_digits(
                upstream_port as nat,
            ));
        }
        ProxyCreationRequest { name: name.to_owned(), listen, upstream, enabled: true }
    }
}

/// Where a Toxiproxy instance's admin interface listens.
pub struct ToxiproxyClient {
    host: String,
    port: u16,
}

impl View for ToxiproxyClient {
    type V = (Seq<char>, u16);

    closed spec fn view(&self) -> (Seq<char>, u16) {
        (self.host@, self.port)
    }
}

impl ToxiproxyClient {
    pub fn new(host: &str, port: u16) -> (r: Self)
        ensures
            r@ == (host@, port),
    {
        ToxiproxyClient { host: host.to_owned(), port }
    }

    pub fn host(&self) -> (r: &str)
        ensures
            r@ == self@.0,
    {
        self.host.as_str()
    }

    pub fn port(&self) -> (r: u16)
        ensures
            r == self@.1,
    {
        self.port
    }
}

} // verus!
