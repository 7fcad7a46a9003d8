use vstd::prelude::*;

use crate::text::prefixed;

verus! {

/// Where and as whom to connect, in the terms of libpq's environment
/// variables. Each field may be absent.
#[derive(Debug)]
pub struct ConnectionSettings {
    pub pghost: Option<String>,
    pub pghostaddr: Option<String>,
    pub pgport: Option<String>,
    pub pgdatabase: Option<String>,
    pub pguser: Option<String>,
    pub pgpassword: Option<String>,
}

/// `key=value ` for a present value, nothing for an absent one.
pub open spec fn kv_part(key: Seq<char>, value: Option<String>) -> Seq<char> {
    match value {
        Some(v) => key + "="@ + v@ + " "@,
        None => Seq::empty(),
    }
}

/// The host part: the host name if given, else the host address.
pub open spec fn host_part(s: ConnectionSettings) -> Seq<char> {
    if s.pghost is Some {
        kv_part("host"@, s.pghost)
    } else {
        kv_part("host"@, s.pghostaddr)
    }
}

/// The key-value connection string: password, user, database name, port
/// and host, each `key=value ` when present.
pub open spec fn kv_connection_string(s: ConnectionSettings) -> Seq<char> {
    kv_part("password"@, s.pgpassword) + kv_part("user"@, s.pguser) + kv_part(
        "dbname"@,
        s.pgdatabase,
    ) + kv_part("port"@, s.pgport) + host_part(s)
}

/// `key=value ` for a present value, an empty string for an absent one.
fn pair_part(key: &str, value: &Option<String>) -> (r: String)
    ensures
        r@ == kv_part(key@, *value),
{
    match value {
        Some(v) => prefixed(key, "=").concat(v.as_str()).concat(" "),
        None => String::new(),
    }
}

/// `given` when present, else `current`.
pub open spec fn preferred(given: Option<String>, current: Option<String>) -> Option<String> {
    if given is Some {
        given
    } else {
        current
    }
}

impl ConnectionSettings {
    /// Lets values given on the command line take precedence: each one that
    /// is present replaces the setting read from the environment.
    pub fn override_with(
        &mut self,
        host: Option<String>,
        port: Option<String>,
        dbname: Option<String>,
        user: Option<String>,
    )
        ensures
            final(self).pghost == preferred(host, old(self).pghost),
            final(self).pgport == preferred(port, old(self).pgport),
            final(self).pgdatabase == preferred(dbname, old(self).pgdatabase),
            final(self).pguser == preferred(user, old(self).pguser),
            final(self).pghostaddr == old(self).pghostaddr,
            final(self).pgpassword == old(self).pgpassword,
    {
        if host.is_some() {
            self.pghost = host;
        }
        if port.is_some() {
            self.pgport = port;
        }
        if dbname.is_some() {
            self.pgdatabase = dbname;
        }
        if user.is_some() {
            self.pguser = user;
        }
    }

    /// Builds the key-value libpq-style connection string.
    pub fn get_kv_connection_string(&self) -> (r: String)
        ensures
            r@ == kv_connection_string(*self),
    {
        let host = if self.pghost.is_some() {
            pair_part("host", &self.pghost)
        } else {
            pair_part("host", &self.pghostaddr)
        };
        let port = pair_part("port", &self.pgport);
        let database = pair_part("dbname", &self.pgdatabase);
        let user = pair_part("user", &self.pguser);
        let password = pair_part("password", &self.pgpassword);
        password.concat(user.as_str()).concat(database.as_str()).concat(port.as_str()).concat(
            host.as_str(),
        )
    }
}

} // verus!
