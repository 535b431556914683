//! Where a command goes, and with which identity.
//!
//! `P` stands for the path of a certificate or key file, which is handed on as it is.

use vstd::prelude::*;
use crate::command::{direct_service_target, direct_target, Commands};
use crate::lifecycle::DEFAULT_DIRECT_TIMEOUT_SECS;

verus! {

/// What the user gave on the command line.
#[derive(Debug)]
pub struct Cli<P, Q, C> {
    pub addr: String,
    pub port: u16,
    /// The TLS service name.
    pub name: String,
    pub vsock: Option<String>,
    pub cacert: Option<P>,
    pub cert: Option<P>,
    pub key: Option<P>,
    pub notls: bool,
    /// The budget of a direct delivery, in seconds.
    pub timeout: Option<u64>,
    pub command: Commands<Q, C>,
}

/// The address of a service.
#[derive(Debug)]
pub enum EndpointAddress {
    /// A vsock address, as the user wrote it.
    Vsock { text: String },
    Tcp { addr: String, port: u16 },
}

/// The identity for mutual TLS.
#[derive(Debug)]
pub struct TlsConfig<P> {
    pub ca_cert_file_path: P,
    pub cert_file_path: P,
    pub key_file_path: P,
    pub tls_name: Option<String>,
}

#[derive(Debug)]
pub struct TransportConfig {
    pub address: EndpointAddress,
    pub tls_name: String,
}

/// How to reach an agent.
#[derive(Debug)]
pub struct EndpointConfig<P> {
    pub transport: TransportConfig,
    pub tls: Option<TlsConfig<P>>,
}

/// Where a command goes.
#[derive(Debug)]
pub enum Route<P, Q, C> {
    /// Straight to the agent of a VM, without the admin service.
    Direct { endpoint: EndpointConfig<P>, unit: String, timeout_secs: u64 },
    /// To the admin service, with the TLS name and identity.
    Admin {
        address: EndpointAddress,
        tls: Option<(String, TlsConfig<P>)>,
        command: Commands<Q, C>,
    },
}

/// A file that TLS needs and that the user did not name.
#[derive(Clone, Copy, Debug, PartialEq, Eq, Structural)]
pub enum MissingCredential {
    CaCert,
    Cert,
    Key,
}

/// What the user is told of a missing file.
pub open spec fn missing_text(missing: MissingCredential) -> Seq<char> {
    match missing {
        MissingCredential::CaCert => "cacert is required"@,
        MissingCredential::Cert => "cert is required"@,
        MissingCredential::Key => "key is required"@,
    }
}

impl MissingCredential {
    /// What the user is told.
    pub fn message(&self) -> (text: &'static str)
        ensures
            text@ == missing_text(*self),
    {
        match self {
            MissingCredential::CaCert => "cacert is required",
            MissingCredential::Cert => "cert is required",
            MissingCredential::Key => "key is required",
        }
    }
}

impl<P, Q, C> Cli<P, Q, C> {
    /// The first file that is missing. Without TLS none is.
    pub open spec fn missing(self) -> Option<MissingCredential> {
        if self.notls {
            None
        } else if self.cacert is None {
            Some(MissingCredential::CaCert)
        } else if self.cert is None {
            Some(MissingCredential::Cert)
        } else if self.key is None {
            Some(MissingCredential::Key)
        } else {
            None
        }
    }

    /// The TLS name and identity that the options stand for.
    pub open spec fn tls(self) -> Option<(String, TlsConfig<P>)> {
        match (self.notls, self.cacert, self.cert, self.key) {
            (false, Some(ca_cert_file_path), Some(cert_file_path), Some(key_file_path)) => Some(
                (
                    self.name,
                    TlsConfig {
                        ca_cert_file_path,
                        cert_file_path,
                        key_file_path,
                        tls_name: Some(self.name),
                    },
                ),
            ),
            _ => None,
        }
    }

    /// The address that the options stand for: vsock where it is given.
    pub open spec fn address(self) -> EndpointAddress {
        match self.vsock {
            Some(text) => EndpointAddress::Vsock { text },
            None => EndpointAddress::Tcp { addr: self.addr, port: self.port },
        }
    }

    /// The budget of a direct delivery.
    pub open spec fn budget_secs(self) -> u64 {
        match self.timeout {
            Some(secs) => secs,
            None => DEFAULT_DIRECT_TIMEOUT_SECS,
        }
    }

    /// The first file that TLS needs and that is missing.
    pub fn missing_credential(&self) -> (missing: Option<MissingCredential>)
        ensures
            missing == self.missing(),
    {
        if self.notls {
            None
        } else if self.cacert.is_none() {
            Some(MissingCredential::CaCert)
        } else if self.cert.is_none() {
            Some(MissingCredential::Cert)
        } else if self.key.is_none() {
            Some(MissingCredential::Key)
        } else {
            None
        }
    }

    /// Where the command goes. A direct service start is kept away from the admin service, which
    /// during a shutdown of the whole system may itself be going down.
    pub fn route(self) -> (route: Route<P, Q, C>)
        requires
            self.missing() is None,
        ensures
            match direct_target(self.command) {
                Some(target) => {
                    &&& route matches Route::Direct { endpoint, unit, timeout_secs }
                    &&& unit@ == target
                    &&& timeout_secs == self.budget_secs()
                    &&& is_endpoint(endpoint, self.address(), self.tls())
                },
                None => route == (Route::Admin {
                    address: self.address(),
                    tls: self.tls(),
                    command: self.command,
                }),
            },
            route is Direct <==> direct_target(self.command) is Some,
            route.target_address() == (match self.vsock {
                Some(text) => EndpointAddress::Vsock { text },
                None => EndpointAddress::Tcp { addr: self.addr, port: self.port },
            }),
            route matches Route::Direct { timeout_secs, .. } ==> (match self.timeout {
                Some(secs) => timeout_secs == secs,
                None => timeout_secs == 3,
            }),
            route matches Route::Admin { command, .. } ==> command == self.command,
    {
        let unit: Option<String> = match direct_service_target(&self.command) {
            Some(unit) => Some(unit.to_owned()),
            None => None,
        };
        let tls: Option<(String, TlsConfig<P>)> = match (
            self.notls,
            self.cacert,
            self.cert,
            self.key,
        ) {
            (false, Some(ca_cert_file_path), Some(cert_file_path), Some(key_file_path)) => Some(
                (
                    self.name.clone(),
                    TlsConfig {
                        ca_cert_file_path,
                        cert_file_path,
                        key_file_path,
                        tls_name: Some(self.name),
                    },
                ),
            ),
            _ => None,
        };
        let address: EndpointAddress = match self.vsock {
            Some(text) => EndpointAddress::Vsock { text },
            None => EndpointAddress::Tcp { addr: self.addr, port: self.port },
        };
        match unit {
            Some(unit) => Route::Direct {
                endpoint: endpoint_config(address, tls),
                unit,
                timeout_secs: self.timeout.unwrap_or(DEFAULT_DIRECT_TIMEOUT_SECS),
            },
            None => Route::Admin { address, tls, command: self.command },
        }
    }
}

impl<P, Q, C> Route<P, Q, C> {
    /// The address that is connected to, on either way.
    pub open spec fn target_address(self) -> EndpointAddress {
        match self {
            Route::Direct { endpoint, .. } => endpoint.transport.address,
            Route::Admin { address, .. } => address,
        }
    }
}

/// Whether `endpoint` has this address and identity. Without TLS the name is a placeholder.
pub open spec fn is_endpoint<P>(
    endpoint: EndpointConfig<P>,
    address: EndpointAddress,
    tls: Option<(String, TlsConfig<P>)>,
) -> bool {
    &&& endpoint.transport.address == address
    &&& match tls {
        Some((name, identity)) => endpoint.transport.tls_name == name && endpoint.tls == Some(
            identity,
        ),
        None => endpoint.transport.tls_name@ == "bogus(no tls)"@ && endpoint.tls is None,
    }
}

/// How to reach the agent at `address` with the identity `tls`.
pub fn endpoint_config<P>(
    address: EndpointAddress,
    tls: Option<(String, TlsConfig<P>)>,
) -> (endpoint: EndpointConfig<P>)
    ensures
        is_endpoint(endpoint, address, tls),
{
    match tls {
        Some((tls_name, identity)) => EndpointConfig {
            transport: TransportConfig { address, tls_name },
            tls: Some(identity),
        },
        None => EndpointConfig {
            transport: TransportConfig { address, tls_name: "bogus(no tls)".to_owned() },
            tls: None,
        },
    }
}

/// TLS is used exactly where the user did not switch it off, and the service name then stands
/// both beside the identity and in it.
pub proof fn law_tls_unless_switched_off<P, Q, C>(cli: Cli<P, Q, C>)
    requires
        cli.missing() is None,
    ensures
        cli.tls() is None <==> cli.notls,
        cli.tls() matches Some((name, identity)) ==> name == cli.name && identity.tls_name == Some(
            cli.name,
        ) && Some(identity.ca_cert_file_path) == cli.cacert && Some(identity.cert_file_path)
            == cli.cert && Some(identity.key_file_path) == cli.key,
{
}

/// The address is the vsock one wherever it is given, as the user wrote it, and the TCP one with
/// the given host and port otherwise. Neither TLS nor the command makes a difference.
pub proof fn law_vsock_wherever_it_is_given<P, Q, C>(cli: Cli<P, Q, C>)
    ensures
        cli.vsock matches Some(text) ==> cli.address() == (EndpointAddress::Vsock { text }),
        cli.vsock is None ==> cli.address() == (EndpointAddress::Tcp {
            addr: cli.addr,
            port: cli.port,
        }),
{
}

/// A file is missing exactly where TLS is on and the user did not name all three, and of several
/// missing files the certificate authority's is reported before the certificate, and that before
/// the key.
pub proof fn law_missing_files_in_order<P, Q, C>(cli: Cli<P, Q, C>)
    ensures
        cli.missing() is None <==> cli.notls || (cli.cacert is Some && cli.cert is Some && cli.key
            is Some),
        cli.missing() == Some(MissingCredential::CaCert) <==> !cli.notls && cli.cacert is None,
        cli.missing() == Some(MissingCredential::Cert) <==> !cli.notls && cli.cacert is Some
            && cli.cert is None,
        cli.missing() == Some(MissingCredential::Key) <==> !cli.notls && cli.cacert is Some
            && cli.cert is Some && cli.key is None,
{
}

/// A direct delivery gets the budget that the user names, be it zero, and three seconds where none
/// is named.
pub proof fn law_budget_as_named<P, Q, C>(cli: Cli<P, Q, C>)
    ensures
        cli.timeout matches Some(secs) ==> cli.budget_secs() == secs,
        cli.timeout is None ==> cli.budget_secs() == 3,
{
}

/// An endpoint has just the address and the identity that it was made from, and the name beside
/// the identity; without TLS it has no identity and a placeholder for the name.
pub proof fn law_endpoint_keeps_address_and_identity<P>(
    endpoint: EndpointConfig<P>,
    address: EndpointAddress,
    tls: Option<(String, TlsConfig<P>)>,
)
    requires
        is_endpoint(endpoint, address, tls),
    ensures
        endpoint.transport.address == address,
        endpoint.tls is Some <==> tls is Some,
        tls matches Some(pair) ==> endpoint.tls == Some(pair.1) && endpoint.transport.tls_name
            == pair.0,
        tls is None ==> endpoint.transport.tls_name@ == "bogus(no tls)"@,
{
}

/// What the user is told of each missing file.
pub proof fn law_missing_files_are_named()
    ensures
        missing_text(MissingCredential::CaCert) == "cacert is required"@,
        missing_text(MissingCredential::Cert) == "cert is required"@,
        missing_text(MissingCredential::Key) == "key is required"@,
{
}

} // verus!
