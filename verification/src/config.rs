use vstd::prelude::*;
use crate::ip::is_ip_literal;
use crate::ip::is_ipv4_literal;
use crate::ip::is_valid_ip_literal;

verus! {

/// Mathematical view of a [`ServerConfig`].
#[verifier::ext_equal]
pub ghost struct ConfigView {
    pub host: Seq<char>,
    pub port: int,
    pub max_connections: int,
}

/// Immutable snapshot of {host, port, max_connections} used to build one
/// server instance. Created by the caller before each start; never mutated.
#[derive(Clone, Debug)]
pub struct ServerConfig {
    pub host: String,
    pub port: u16,
    pub max_connections: usize,
}

impl View for ServerConfig {
    type V = ConfigView;

    open spec fn view(&self) -> ConfigView {
        ConfigView {
            host: self.host@,
            port: self.port as int,
            max_connections: self.max_connections as int,
        }
    }
}

pub open spec fn loopback_host() -> Seq<char> {
    "127.0.0.1"@
}

/// What validation makes of a raw configuration: the host is kept when it
/// is an IP literal and replaced by the loopback address otherwise; port
/// and max_connections pass through as given.
pub open spec fn spec_validate(c: ConfigView) -> ConfigView {
    ConfigView { host: if is_ip_literal(c.host) { c.host } else { loopback_host() }, ..c }
}

impl ServerConfig {
    /// Validate a raw configuration. Never fails: an unparsable host is a
    /// lenient-fallback case, not an error, and is replaced by the loopback
    /// address `127.0.0.1`. The caller's log sink should note the
    /// substitution, which `host_was_replaced` on the result detects.
    pub fn validate(self) -> (v: ServerConfig)
        ensures
            v@ == spec_validate(self@),
            is_ip_literal(v@.host),
    {
        proof {
            lemma_loopback_is_ip_literal();
        }
        if is_valid_ip_literal(self.host.as_str()) {
            self
        } else {
            ServerConfig {
                host: loopback(),
                port: self.port,
                max_connections: self.max_connections,
            }
        }
    }

    /// Whether validation of `raw` replaced the host of this (validated)
    /// configuration; lets the caller emit the warning diagnostic.
    pub fn host_was_replaced(&self, raw: &ServerConfig) -> (b: bool)
        requires
            self@ == spec_validate(raw@),
        ensures
            b == !is_ip_literal(raw@.host),
    {
        proof {
            lemma_loopback_is_ip_literal();
        }
        !is_valid_ip_literal(raw.host.as_str())
    }
}

/// The loopback address substituted for an unparsable host.
pub fn loopback() -> (h: String)
    ensures
        h@ == loopback_host(),
{
    String::from_str("127.0.0.1")
}

/// The loopback address is itself a valid IP literal, so validation is
/// idempotent: validating an already-validated configuration changes
/// nothing.
pub proof fn lemma_loopback_is_ip_literal()
    ensures
        is_ip_literal(loopback_host()),
{
    reveal_strlit("127.0.0.1");
    let h = loopback_host();
    assert(h.len() == 9);
    assert(crate::ip::spec_octet_end(h, 0) == Some(3int));
    assert(crate::ip::spec_octet_end(h, 4) == Some(5int));
    assert(crate::ip::spec_octet_end(h, 6) == Some(7int));
    assert(crate::ip::spec_octet_end(h, 8) == Some(9int));
    assert(crate::ip::spec_ipv4_end(h, 0) == Some(9int));
    assert(is_ipv4_literal(h));
}

/// Validation is idempotent.
pub proof fn lemma_validate_idempotent(c: ConfigView)
    ensures
        spec_validate(spec_validate(c)) == spec_validate(c),
{
    lemma_loopback_is_ip_literal();
}

/// The ceiling on serving workers; a resource-protection measure applied
/// when the listener is built, not a user-visible validation error.
pub const WORKER_CEILING: usize = 16;

/// Number of serving workers the listener is built with: the configured
/// max_connections, clamped to the worker ceiling.
pub fn worker_count(c: &ServerConfig) -> (w: usize)
    ensures
        w == if c@.max_connections < WORKER_CEILING as int {
            c@.max_connections
        } else {
            WORKER_CEILING as int
        },
{
    if c.max_connections < WORKER_CEILING {
        c.max_connections
    } else {
        WORKER_CEILING
    }
}

impl Default for ServerConfig {
    /// The configuration the caller starts from: loopback host, port 8000,
    /// up to 100 connections.
    fn default() -> (c: Self)
        ensures
            c@.host == loopback_host(),
            c@.port == 8000,
            c@.max_connections == 100,
    {
        ServerConfig { host: loopback(), port: 8000, max_connections: 100 }
    }
}

} // verus!
