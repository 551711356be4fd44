//! What a run is configured with: the certificates to request and the DNS
//! provider to prove control with.

use vstd::prelude::*;

verus! {

/// A root domain and the hosts below it that a certificate shall cover. No
/// list of hosts, or the host `.`, stands for the root domain itself.
#[derive(Debug)]
pub struct DomainRequest {
    pub root: String,
    pub hosts: Option<Vec<String>>,
}

/// A `DomainRequest` as texts.
pub struct DomainRequestView {
    pub root: Seq<char>,
    pub hosts: Option<Seq<Seq<char>>>,
}

impl DeepView for DomainRequest {
    type V = DomainRequestView;

    open spec fn deep_view(&self) -> DomainRequestView {
        DomainRequestView { root: self.root@, hosts: self.hosts.deep_view() }
    }
}

impl View for DomainRequest {
    type V = DomainRequestView;

    open spec fn view(&self) -> DomainRequestView {
        self.deep_view()
    }
}

/// One certificate to request: its name and the domains it shall cover.
#[derive(Debug)]
pub struct CertificateRequest {
    pub name: String,
    pub domains: Vec<DomainRequest>,
}

/// A `CertificateRequest` as texts.
pub struct CertificateRequestView {
    pub name: Seq<char>,
    pub domains: Seq<DomainRequestView>,
}

impl DeepView for CertificateRequest {
    type V = CertificateRequestView;

    open spec fn deep_view(&self) -> CertificateRequestView {
        CertificateRequestView { name: self.name@, domains: self.domains.deep_view() }
    }
}

impl View for CertificateRequest {
    type V = CertificateRequestView;

    open spec fn view(&self) -> CertificateRequestView {
        self.deep_view()
    }
}

/// The keys of a Porkbun API account.
#[derive(Debug)]
pub struct PorkbunKeys {
    pub public: String,
    pub secret: String,
}

/// The DNS provider whose API creates and deletes the challenge records.
#[derive(Debug)]
pub enum DNSRecordsAPI {
    Porkbun { keys: PorkbunKeys },
    Cloudflare {},
}

/// The configuration of a run.
#[derive(Debug)]
pub struct Config {
    pub output_directory: String,
    pub staging: Option<bool>,
    pub dns_api: DNSRecordsAPI,
    pub certs: Vec<CertificateRequest>,
}

impl Config {
    /// The certificate authority to use: the staging one where the
    /// configuration says so, else the production one.
    pub fn authority(&self) -> (ca: crate::model::CertificateAuthority)
        ensures
            ca == if self.staging == Some(true) {
                crate::model::CertificateAuthority::LetsEncryptStaging
            } else {
                crate::model::CertificateAuthority::LetsEncryptProduction
            },
    {
        match self.staging {
            Some(true) => crate::model::CertificateAuthority::LetsEncryptStaging,
            _ => crate::model::CertificateAuthority::LetsEncryptProduction,
        }
    }
}

} // verus!
