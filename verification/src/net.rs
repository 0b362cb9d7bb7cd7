//! Plain network value types: tunnel and transport protocols, IP versions and
//! addresses, proxies, and the concrete endpoints that selection produces.
//!
//! IP addresses are held as plain integers (a v4 address as its 32-bit value,
//! a v6 address as its 128-bit value) so that every field is a value the
//! verifier can reason about directly.

use vstd::prelude::*;

verus! {

/// The tunnel protocol of a relay or a query.
#[derive(Clone, Copy, Debug, PartialEq, Eq, Structural)]
pub enum TunnelType {
    Wireguard,
    OpenVpn,
}

/// The transport protocol of an endpoint.
#[derive(Clone, Copy, Debug, PartialEq, Eq, Structural)]
pub enum TransportProtocol {
    Udp,
    Tcp,
}

/// The IP protocol version of an endpoint.
#[derive(Clone, Copy, Debug, PartialEq, Eq, Structural)]
pub enum IpVersion {
    V4,
    V6,
}

/// An IP address: the 32-bit value of a v4 address, or the 128-bit value of a
/// v6 address.
#[derive(Clone, Copy, Debug, PartialEq, Eq, Structural)]
pub enum IpAddress {
    V4(u32),
    V6(u128),
}

/// A socket address: an IP address and a port.
#[derive(Clone, Copy, Debug, PartialEq, Eq, Structural)]
pub struct SocketAddress {
    pub ip: IpAddress,
    pub port: u16,
}

/// Connection details of a shadowsocks proxy.
#[derive(Debug)]
pub struct Shadowsocks {
    pub endpoint: SocketAddress,
    pub cipher: String,
    pub password: String,
}

/// Connection details of a remote socks5 proxy.
#[derive(Debug)]
pub struct Socks5Remote {
    pub endpoint: SocketAddress,
    pub auth: Option<SocksAuth>,
}

/// Username and password for a socks5 proxy.
#[derive(Debug)]
pub struct SocksAuth {
    pub username: String,
    pub password: String,
}

/// A user-configurable proxy used to disguise OpenVPN traffic.
#[derive(Debug)]
pub enum CustomProxy {
    Shadowsocks(Shadowsocks),
    Socks5Remote(Socks5Remote),
}

impl Clone for Shadowsocks {
    fn clone(&self) -> (r: Self)
        ensures
            r == *self,
    {
        Shadowsocks {
            endpoint: self.endpoint,
            cipher: self.cipher.clone(),
            password: self.password.clone(),
        }
    }
}

impl Clone for SocksAuth {
    fn clone(&self) -> (r: Self)
        ensures
            r == *self,
    {
        SocksAuth { username: self.username.clone(), password: self.password.clone() }
    }
}

impl Clone for Socks5Remote {
    fn clone(&self) -> (r: Self)
        ensures
            r == *self,
    {
        Socks5Remote {
            endpoint: self.endpoint,
            auth: match &self.auth {
                Option::None => Option::None,
                Option::Some(a) => Option::Some(a.clone()),
            },
        }
    }
}

impl Clone for CustomProxy {
    fn clone(&self) -> (r: Self)
        ensures
            r == *self,
    {
        match self {
            CustomProxy::Shadowsocks(s) => CustomProxy::Shadowsocks(s.clone()),
            CustomProxy::Socks5Remote(s) => CustomProxy::Socks5Remote(s.clone()),
        }
    }
}

/// Settings for an obfuscator sidecar that reshapes the tunnel's traffic.
#[derive(Clone, Copy, Debug, PartialEq, Eq, Structural)]
pub enum ObfuscatorConfig {
    /// Reshape WireGuard UDP into TCP towards the given endpoint.
    Udp2Tcp { endpoint: SocketAddress },
}

/// The view of a [`Shadowsocks`] proxy.
pub struct ShadowsocksView {
    pub endpoint: SocketAddress,
    pub cipher: Seq<char>,
    pub password: Seq<char>,
}

/// The view of a [`Socks5Remote`] proxy.
pub struct Socks5RemoteView {
    pub endpoint: SocketAddress,
    pub auth: Option<SocksAuthView>,
}

/// The view of a [`SocksAuth`] record.
pub struct SocksAuthView {
    pub username: Seq<char>,
    pub password: Seq<char>,
}

/// The view of a [`CustomProxy`].
pub enum CustomProxyView {
    Shadowsocks(ShadowsocksView),
    Socks5Remote(Socks5RemoteView),
}

impl View for Shadowsocks {
    type V = ShadowsocksView;

    open spec fn view(&self) -> ShadowsocksView {
        ShadowsocksView { endpoint: self.endpoint, cipher: self.cipher@, password: self.password@ }
    }
}

impl View for SocksAuth {
    type V = SocksAuthView;

    open spec fn view(&self) -> SocksAuthView {
        SocksAuthView { username: self.username@, password: self.password@ }
    }
}

impl View for Socks5Remote {
    type V = Socks5RemoteView;

    open spec fn view(&self) -> Socks5RemoteView {
        Socks5RemoteView {
            endpoint: self.endpoint,
            auth: match self.auth {
                Option::None => Option::None,
                Option::Some(a) => Option::Some(a@),
            },
        }
    }
}

impl View for CustomProxy {
    type V = CustomProxyView;

    open spec fn view(&self) -> CustomProxyView {
        match self {
            CustomProxy::Shadowsocks(s) => CustomProxyView::Shadowsocks(s@),
            CustomProxy::Socks5Remote(s) => CustomProxyView::Socks5Remote(s@),
        }
    }
}

/// Returns whether two proxies are the same configuration.
pub fn custom_proxy_eq(a: &CustomProxy, b: &CustomProxy) -> (r: bool)
    ensures
        r == (a@ == b@),
{
    match (a, b) {
        (CustomProxy::Shadowsocks(x), CustomProxy::Shadowsocks(y)) => {
            let r = x.endpoint == y.endpoint && x.cipher == y.cipher && x.password == y.password;
            proof {
                if r {
                    assert(a@ == b@);
                }
            }
            r
        },
        (CustomProxy::Socks5Remote(x), CustomProxy::Socks5Remote(y)) => {
            let ep = x.endpoint == y.endpoint;
            let auth = match (&x.auth, &y.auth) {
                (Option::None, Option::None) => true,
                (Option::Some(xa), Option::Some(ya)) => {
                    xa.username == ya.username && xa.password == ya.password
                },
                _ => false,
            };
            let r = ep && auth;
            proof {
                if r {
                    assert(a@ == b@);
                }
            }
            r
        },
        _ => false,
    }
}

} // verus!
