//! Connection configuration: the derived client identity, the
//! completeness rule for the TLS file trio, and the broker address
//! builder with its display-safe variant.
use vstd::prelude::*;
use vstd::string::StringExecFns;

use crate::text::{spec_dec, str_eq, u16_to_string};

verus! {

/// The connection configuration, read once at process start and
/// immutable thereafter.
pub struct ConnectionConfig {
    pub host: String,
    pub user: String,
    /// Secret: the display-safe address replaces it with a fixed mask.
    pub pass: String,
    pub vhost: Option<String>,
    pub client_name: Option<String>,
    pub port: Option<u16>,
    pub is_secure: bool,
    pub cafile: Option<String>,
    pub certfile: Option<String>,
    pub keyfile: Option<String>,
}

/// The fatal configuration errors: everything else about a
/// configuration is accepted as given.
#[derive(Clone, Copy, PartialEq, Eq, Structural, Debug)]
pub enum ConfigError {
    /// The derived client identity equals the reserved broadcast
    /// channel name `all`.
    ReservedClientName,
    /// Some but not all of the CA, certificate and key file paths are
    /// set.
    IncompleteTlsFiles,
}

/// The three file paths from which the TLS identity is loaded.
#[derive(Debug)]
pub struct TlsFiles {
    pub cafile: String,
    pub certfile: String,
    pub keyfile: String,
}

/// The URI scheme: `amqps` over secure transport, else `amqp`.
pub open spec fn spec_scheme(secure: bool) -> Seq<char> {
    if secure {
        "amqps"@
    } else {
        "amqp"@
    }
}

/// The effective port: the configured one, else 5671 over secure
/// transport and 5672 otherwise.
pub open spec fn spec_port(c: ConnectionConfig) -> u16 {
    match c.port {
        Some(p) => p,
        None => if c.is_secure {
            5671
        } else {
            5672
        },
    }
}

/// The derived client identity: the explicit client name, else the
/// user name.
pub open spec fn spec_identity(c: ConnectionConfig) -> Seq<char> {
    match c.client_name {
        Some(n) => n@,
        None => c.user@,
    }
}

/// The trailing vhost segment of the address: `/{vhost}` when a vhost
/// is configured, else empty.
pub open spec fn spec_vhost_part(c: ConnectionConfig) -> Seq<char> {
    match c.vhost {
        Some(v) => "/"@ + v@,
        None => Seq::<char>::empty(),
    }
}

/// The broker address with `pass` standing in the password position:
/// `{scheme}://{user}:{pass}@{host}:{port}` plus the vhost segment.
pub open spec fn spec_addr_with_pass(c: ConnectionConfig, pass: Seq<char>) -> Seq<char> {
    spec_scheme(c.is_secure) + "://"@ + c.user@ + ":"@ + pass + "@"@ + c.host@ + ":"@ + spec_dec(
        spec_port(c) as nat,
    ) + spec_vhost_part(c)
}

/// The real connection address, with the configured password.
pub open spec fn spec_addr(c: ConnectionConfig) -> Seq<char> {
    spec_addr_with_pass(c, c.pass@)
}

/// The display-safe address, with the fixed mask in the password
/// position.
pub open spec fn spec_display_addr(c: ConnectionConfig) -> Seq<char> {
    spec_addr_with_pass(c, "***"@)
}

/// All three TLS file paths are configured.
pub open spec fn spec_tls_complete(c: ConnectionConfig) -> bool {
    c.cafile is Some && c.certfile is Some && c.keyfile is Some
}

/// No TLS file path is configured.
pub open spec fn spec_tls_absent(c: ConnectionConfig) -> bool {
    c.cafile is None && c.certfile is None && c.keyfile is None
}

impl ConnectionConfig {
    /// The effective port.
    pub fn port(&self) -> (p: u16)
        ensures
            p == spec_port(*self),
    {
        match self.port {
            Some(p) => p,
            None => if self.is_secure {
                5671
            } else {
                5672
            },
        }
    }

    /// The derived client identity; rejected when it equals the
    /// reserved broadcast channel name `all`.
    pub fn client_identity(&self) -> (r: Result<String, ConfigError>)
        ensures
            r is Ok <==> spec_identity(*self) != "all"@,
            r matches Ok(name) ==> name@ == spec_identity(*self),
            r matches Err(e) ==> e is ReservedClientName,
    {
        let name = match &self.client_name {
            Some(n) => n.clone(),
            None => self.user.clone(),
        };
        if str_eq(name.as_str(), "all") {
            Err(ConfigError::ReservedClientName)
        } else {
            Ok(name)
        }
    }

    /// The TLS file trio: all three paths when all are configured,
    /// nothing when none is, and an error otherwise.
    pub fn tls_files(&self) -> (r: Result<Option<TlsFiles>, ConfigError>)
        ensures
            spec_tls_complete(*self) <==> (r matches Ok(o) && o is Some),
            spec_tls_absent(*self) <==> (r matches Ok(o) && o is None),
            r matches Ok(Some(t)) ==> {
                &&& t.cafile@ == self.cafile->Some_0@
                &&& t.certfile@ == self.certfile->Some_0@
                &&& t.keyfile@ == self.keyfile->Some_0@
            },
            r matches Err(e) ==> e is IncompleteTlsFiles,
    {
        match (&self.cafile, &self.certfile, &self.keyfile) {
            (Some(ca), Some(cert), Some(key)) => Ok(
                Some(
                    TlsFiles {
                        cafile: ca.clone(),
                        certfile: cert.clone(),
                        keyfile: key.clone(),
                    },
                ),
            ),
            (None, None, None) => Ok(None),
            _ => Err(ConfigError::IncompleteTlsFiles),
        }
    }

    fn addr_with_pass(&self, pass: &str) -> (r: String)
        ensures
            r@ == spec_addr_with_pass(*self, pass@),
    {
        let mut r: String = if self.is_secure {
            "amqps".to_owned()
        } else {
            "amqp".to_owned()
        };
        r.append("://");
        r.append(self.user.as_str());
        r.append(":");
        r.append(pass);
        r.append("@");
        r.append(self.host.as_str());
        r.append(":");
        let port_text = u16_to_string(self.port());
        r.append(port_text.as_str());
        match &self.vhost {
            Some(v) => {
                r.append("/");
                r.append(v.as_str());
            },
            None => {},
        }
        proof {
            assert(r@ =~= spec_addr_with_pass(*self, pass@));
        }
        r
    }

    /// The real connection address.
    pub fn broker_addr(&self) -> (r: String)
        ensures
            r@ == spec_addr(*self),
    {
        self.addr_with_pass(self.pass.clone().as_str())
    }

    /// The display-safe address: the same text with the fixed mask in
    /// the password position.
    pub fn display_addr(&self) -> (r: String)
        ensures
            r@ == spec_display_addr(*self),
    {
        proof {
            reveal_strlit("***");
        }
        self.addr_with_pass("***")
    }
}

/// With no explicit client name configured, the derived identity is
/// the user name itself.
pub proof fn lemma_default_identity(c: ConnectionConfig)
    requires
        c.client_name is None,
    ensures
        spec_identity(c) == c.user@,
{
}

/// The display-safe address never depends on the password: two
/// configurations that differ only in `pass` yield the same display
/// text, so the secret cannot appear in it through the password field.
pub proof fn lemma_display_addr_masks_password(c1: ConnectionConfig, c2: ConnectionConfig)
    requires
        c2 == (ConnectionConfig { pass: c2.pass, ..c1 }),
    ensures
        spec_display_addr(c1) == spec_display_addr(c2),
{
}

} // verus!
