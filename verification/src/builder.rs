//! Where the service listens and which providers it asks.

use vstd::prelude::*;

use crate::finder::FindLatLong;

verus! {

/// An IP address: the 32 bits of an IPv4 address or the 128 bits of an IPv6
/// address, the first octet highest.
#[derive(Clone, Copy, Debug, PartialEq, Eq, Structural)]
pub enum Ip {
    V4(u32),
    V6(u128),
}

/// A socket address. One for IPv6 carries flow information and a scope
/// besides address and port.
#[derive(Clone, Copy, Debug, PartialEq, Eq, Structural)]
#[allow(inconsistent_fields)]
pub enum SockAddr {
    V4 { ip: u32, port: u16 },
    V6 { ip: u128, port: u16, flowinfo: u32, scope_id: u32 },
}

impl SockAddr {
    /// The address of `ip` and `port`, for IPv6 without flow information and
    /// scope.
    pub open spec fn of(ip: Ip, port: u16) -> SockAddr {
        match ip {
            Ip::V4(ip) => SockAddr::V4 { ip, port },
            Ip::V6(ip) => SockAddr::V6 { ip, port, flowinfo: 0, scope_id: 0 },
        }
    }

    /// The IP address.
    pub open spec fn spec_ip(&self) -> Ip {
        match *self {
            SockAddr::V4 { ip, .. } => Ip::V4(ip),
            SockAddr::V6 { ip, .. } => Ip::V6(ip),
        }
    }

    /// The port.
    pub open spec fn spec_port(&self) -> u16 {
        match *self {
            SockAddr::V4 { port, .. } => port,
            SockAddr::V6 { port, .. } => port,
        }
    }

    /// This address with `ip` in place of its IP address. Flow information
    /// and scope stay where both are IPv6, and there only.
    pub open spec fn with_ip(self, ip: Ip) -> SockAddr {
        match (self, ip) {
            (SockAddr::V6 { port, flowinfo, scope_id, .. }, Ip::V6(ip)) => SockAddr::V6 {
                ip,
                port,
                flowinfo,
                scope_id,
            },
            _ => SockAddr::of(ip, self.spec_port()),
        }
    }

    /// This address with `port` in place of its port.
    pub open spec fn with_port(self, port: u16) -> SockAddr {
        match self {
            SockAddr::V4 { ip, .. } => SockAddr::V4 { ip, port },
            SockAddr::V6 { ip, flowinfo, scope_id, .. } => SockAddr::V6 {
                ip,
                port,
                flowinfo,
                scope_id,
            },
        }
    }

    /// The address of `ip` and `port`.
    pub fn new(ip: Ip, port: u16) -> (addr: SockAddr)
        ensures
            addr == SockAddr::of(ip, port),
    {
        match ip {
            Ip::V4(ip) => SockAddr::V4 { ip, port },
            Ip::V6(ip) => SockAddr::V6 { ip, port, flowinfo: 0, scope_id: 0 },
        }
    }

    /// The IP address.
    #[verifier::when_used_as_spec(spec_ip)]
    pub fn ip(&self) -> (ip: Ip)
        ensures
            ip == self.spec_ip(),
    {
        match *self {
            SockAddr::V4 { ip, .. } => Ip::V4(ip),
            SockAddr::V6 { ip, .. } => Ip::V6(ip),
        }
    }

    /// The port.
    #[verifier::when_used_as_spec(spec_port)]
    pub fn port(&self) -> (port: u16)
        ensures
            port == self.spec_port(),
    {
        match *self {
            SockAddr::V4 { port, .. } => port,
            SockAddr::V6 { port, .. } => port,
        }
    }

    /// Puts `ip` in place of the IP address and keeps the port.
    pub fn set_ip(&mut self, ip: Ip)
        ensures
            *final(self) == old(self).with_ip(ip),
    {
        let next = match (*self, ip) {
            (SockAddr::V6 { port, flowinfo, scope_id, .. }, Ip::V6(ip)) => SockAddr::V6 {
                ip,
                port,
                flowinfo,
                scope_id,
            },
            (old, ip) => SockAddr::new(ip, old.port()),
        };
        *self = next;
    }

    /// Puts `port` in place of the port and keeps the rest.
    pub fn set_port(&mut self, port: u16)
        ensures
            *final(self) == old(self).with_port(port),
    {
        let next = match *self {
            SockAddr::V4 { ip, .. } => SockAddr::V4 { ip, port },
            SockAddr::V6 { ip, flowinfo, scope_id, .. } => SockAddr::V6 {
                ip,
                port,
                flowinfo,
                scope_id,
            },
        };
        *self = next;
    }
}

/// What a service is built from: the address to listen on and the providers
/// to ask.
#[derive(Debug)]
pub struct ServiceBuilder {
    sock_addr: SockAddr,
    finder: FindLatLong,
}

/// The mathematical value of a [`ServiceBuilder`].
pub struct ServiceBuilderView {
    pub sock_addr: SockAddr,
    pub finder: Seq<crate::finder::AnyProtocol>,
}

impl View for ServiceBuilder {
    type V = ServiceBuilderView;

    closed spec fn view(&self) -> ServiceBuilderView {
        ServiceBuilderView { sock_addr: self.sock_addr, finder: self.finder@ }
    }
}

impl ServiceBuilder {
    /// The bits of the unspecified IPv4 address, `0.0.0.0`.
    pub const DEFAULT_IP: u32 = 0;

    /// The port that a service listens on unless it is told otherwise.
    pub const DEFAULT_PORT: u16 = 8080;

    /// The address that a service listens on unless it is told otherwise.
    pub open spec fn default_address() -> SockAddr {
        SockAddr::V4 { ip: Self::DEFAULT_IP, port: Self::DEFAULT_PORT }
    }

    /// A builder for a service that asks `finder` and listens on the default
    /// address.
    pub fn new(finder: FindLatLong) -> (builder: ServiceBuilder)
        ensures
            builder@ == (ServiceBuilderView {
                sock_addr: Self::default_address(),
                finder: finder@,
            }),
    {
        ServiceBuilder {
            sock_addr: SockAddr::new(Ip::V4(Self::DEFAULT_IP), Self::DEFAULT_PORT),
            finder,
        }
    }

    /// This builder with `a` as the address to listen on.
    pub fn address(self, a: SockAddr) -> (builder: ServiceBuilder)
        ensures
            builder@ == (ServiceBuilderView { sock_addr: a, finder: self@.finder }),
    {
        let mut builder = self;
        builder.sock_addr = a;
        builder
    }

    /// This builder with `a` as the IP address to listen on; the port stays.
    pub fn ip(self, a: Ip) -> (builder: ServiceBuilder)
        ensures
            builder@ == (ServiceBuilderView {
                sock_addr: self@.sock_addr.with_ip(a),
                finder: self@.finder,
            }),
    {
        let mut builder = self;
        builder.sock_addr.set_ip(a);
        builder
    }

    /// This builder with `p` as the port to listen on; the IP address stays.
    pub fn port(self, p: u16) -> (builder: ServiceBuilder)
        ensures
            builder@ == (ServiceBuilderView {
                sock_addr: self@.sock_addr.with_port(p),
                finder: self@.finder,
            }),
    {
        let mut builder = self;
        builder.sock_addr.set_port(p);
        builder
    }

    /// The address to listen on.
    pub fn get_address(&self) -> (a: &SockAddr)
        ensures
            *a == self@.sock_addr,
    {
        &self.sock_addr
    }

    /// The providers that the service asks.
    pub fn finder(&self) -> (finder: &FindLatLong)
        ensures
            finder@ == self@.finder,
    {
        &self.finder
    }
}

} // verus!
