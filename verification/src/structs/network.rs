use vstd::prelude::*;
use crate::structs::server::DecodeError;
use crate::text::concat_str;

verus! {

#[derive(Clone, Copy, Debug, PartialEq, Eq, Structural)]
pub enum Protocol {
    Tcp,
    Udp,
}

impl Protocol {
    /// The name of the protocol in the database and in `docker -p`.
    pub open spec fn label(self) -> Seq<char> {
        match self {
            Protocol::Tcp => "tcp"@,
            Protocol::Udp => "udp"@,
        }
    }

    pub fn as_str(&self) -> (r: &'static str)
        ensures
            r@ == self.label(),
    {
        match self {
            Protocol::Tcp => "tcp",
            Protocol::Udp => "udp",
        }
    }

    /// The protocol whose label is `s`, if any.
    pub open spec fn named(s: Seq<char>) -> Option<Protocol> {
        if s == "tcp"@ {
            Some(Protocol::Tcp)
        } else if s == "udp"@ {
            Some(Protocol::Udp)
        } else {
            None
        }
    }

    /// The message of the error for a name that is no protocol.
    pub open spec fn bad_name_message(s: Seq<char>) -> Seq<char> {
        "invalid protocol: "@ + s
    }

    /// Parses a protocol from its label.
    pub fn from_name(s: &str) -> (r: Result<Protocol, DecodeError>)
        ensures
            match Protocol::named(s@) {
                Some(p) => r == Ok::<Protocol, DecodeError>(p),
                None => r is Err && r->Err_0.message@ == Protocol::bad_name_message(s@),
            },
    {
        if crate::text::str_eq(s, "tcp") {
            Ok(Protocol::Tcp)
        } else if crate::text::str_eq(s, "udp") {
            Ok(Protocol::Udp)
        } else {
            Err(DecodeError { message: concat_str("invalid protocol: ", s) })
        }
    }
}

impl std::str::FromStr for Protocol {
    type Err = DecodeError;

    fn from_str(s: &str) -> (r: Result<Protocol, DecodeError>)
        ensures
            match Protocol::named(s@) {
                Some(p) => r == Ok::<Protocol, DecodeError>(p),
                None => r is Err && r->Err_0.message@ == Protocol::bad_name_message(s@),
            },
    {
        Protocol::from_name(s)
    }
}

#[derive(Clone, Copy, Debug, PartialEq, Eq, Structural)]
pub enum NetworkMode {
    /// No network at all, no traffic in or out, no allocation.
    NoNetwork,
    /// Outgoing traffic only, no allocation.
    Private,
    /// Incoming and outgoing traffic; at least one allocation.
    Public,
}

impl NetworkMode {
    pub open spec fn label(self) -> Seq<char> {
        match self {
            NetworkMode::NoNetwork => "none"@,
            NetworkMode::Private => "private"@,
            NetworkMode::Public => "public"@,
        }
    }

    pub fn as_str(&self) -> (r: &'static str)
        ensures
            r@ == self.label(),
    {
        match self {
            NetworkMode::NoNetwork => "none",
            NetworkMode::Private => "private",
            NetworkMode::Public => "public",
        }
    }

    pub open spec fn named(s: Seq<char>) -> Option<NetworkMode> {
        if s == "none"@ {
            Some(NetworkMode::NoNetwork)
        } else if s == "private"@ {
            Some(NetworkMode::Private)
        } else if s == "public"@ {
            Some(NetworkMode::Public)
        } else {
            None
        }
    }

    pub open spec fn bad_name_message(s: Seq<char>) -> Seq<char> {
        "invalid network mode: "@ + s
    }

    pub fn from_name(s: &str) -> (r: Result<NetworkMode, DecodeError>)
        ensures
            match NetworkMode::named(s@) {
                Some(m) => r == Ok::<NetworkMode, DecodeError>(m),
                None => r is Err && r->Err_0.message@ == NetworkMode::bad_name_message(s@),
            },
    {
        if crate::text::str_eq(s, "none") {
            Ok(NetworkMode::NoNetwork)
        } else if crate::text::str_eq(s, "private") {
            Ok(NetworkMode::Private)
        } else if crate::text::str_eq(s, "public") {
            Ok(NetworkMode::Public)
        } else {
            Err(DecodeError { message: concat_str("invalid network mode: ", s) })
        }
    }
}

impl std::str::FromStr for NetworkMode {
    type Err = DecodeError;

    fn from_str(s: &str) -> (r: Result<NetworkMode, DecodeError>)
        ensures
            match NetworkMode::named(s@) {
                Some(v) => r == Ok::<NetworkMode, DecodeError>(v),
                None => r is Err && r->Err_0.message@ == NetworkMode::bad_name_message(s@),
            },
    {
        NetworkMode::from_name(s)
    }
}

/// A published port of a server.
#[derive(Clone, Copy, Debug, PartialEq, Eq, Structural)]
pub struct Allocation {
    pub port: i32,
    pub protocol: Protocol,
}

} // verus!
