//! Just enough of the Porkbun API to create and delete DNS records: the
//! addresses of its endpoints and the bodies of its requests.

use crate::encoding::{json_string, json_string_text};
use vstd::prelude::*;

verus! {

/// An endpoint of the API, with what its address is made of: the domain,
/// and a record's id or its name and type.
#[derive(Debug)]
pub enum Endpoint {
    Ping,
    RecordCreate(String),
    RecordEditId(String, String),
    RecordDeleteId(String, String),
    RecordRetrieveId(String, Option<String>),
    RecordEditType(String, Option<String>, String),
    RecordDeleteType(String, Option<String>, String),
    RecordRetrieveType(String, Option<String>, String),
}

/// An `Endpoint` as texts.
pub enum EndpointView {
    Ping,
    RecordCreate(Seq<char>),
    RecordEditId(Seq<char>, Seq<char>),
    RecordDeleteId(Seq<char>, Seq<char>),
    RecordRetrieveId(Seq<char>, Option<Seq<char>>),
    RecordEditType(Seq<char>, Option<Seq<char>>, Seq<char>),
    RecordDeleteType(Seq<char>, Option<Seq<char>>, Seq<char>),
    RecordRetrieveType(Seq<char>, Option<Seq<char>>, Seq<char>),
}

impl DeepView for Endpoint {
    type V = EndpointView;

    open spec fn deep_view(&self) -> EndpointView {
        match self {
            Endpoint::Ping => EndpointView::Ping,
            Endpoint::RecordCreate(domain) => EndpointView::RecordCreate(domain@),
            Endpoint::RecordEditId(domain, id) => EndpointView::RecordEditId(domain@, id@),
            Endpoint::RecordDeleteId(domain, id) => EndpointView::RecordDeleteId(domain@, id@),
            Endpoint::RecordRetrieveId(domain, id) => EndpointView::RecordRetrieveId(
                domain@,
                id.deep_view(),
            ),
            Endpoint::RecordEditType(domain, name, kind) => EndpointView::RecordEditType(
                domain@,
                name.deep_view(),
                kind@,
            ),
            Endpoint::RecordDeleteType(domain, name, kind) => EndpointView::RecordDeleteType(
                domain@,
                name.deep_view(),
                kind@,
            ),
            Endpoint::RecordRetrieveType(domain, name, kind) => EndpointView::RecordRetrieveType(
                domain@,
                name.deep_view(),
                kind@,
            ),
        }
    }
}

impl View for Endpoint {
    type V = EndpointView;

    open spec fn view(&self) -> EndpointView {
        self.deep_view()
    }
}

/// An optional part of an address: the text, or nothing.
pub open spec fn or_empty(part: Option<Seq<char>>) -> Seq<char> {
    match part {
        Some(text) => text,
        None => Seq::empty(),
    }
}

/// The address of an endpoint.
pub open spec fn endpoint_text(endpoint: EndpointView) -> Seq<char> {
    match endpoint {
        EndpointView::Ping => "https://porkbun.com/api/json/v3/ping"@,
        EndpointView::RecordCreate(domain) => "https://porkbun.com/api/json/v3/dns/create/"@
            + domain,
        EndpointView::RecordEditId(domain, id) => "https://porkbun.com/api/json/v3/dns/edit/"@
            + domain + "/"@ + id,
        EndpointView::RecordDeleteId(domain, id) => "https://porkbun.com/api/json/v3/dns/delete/"@
            + domain + "/"@ + id,
        EndpointView::RecordRetrieveId(domain, id) => {
            "https://porkbun.com/api/json/v3/dns/retrieve/"@ + domain + "/"@ + or_empty(id)
        },
        EndpointView::RecordEditType(domain, name, kind) => {
            "https://porkbun.com/api/json/v3/dns/editByNameType/"@ + domain + "/"@ + kind + "/"@
                + or_empty(name)
        },
        EndpointView::RecordDeleteType(domain, name, kind) => {
            "https://porkbun.com/api/json/v3/dns/deleteByNameType/"@ + domain + "/"@ + kind + "/"@
                + or_empty(name)
        },
        EndpointView::RecordRetrieveType(domain, name, kind) => {
            "https://porkbun.com/api/json/v3/dns/retrieveByNameType/"@ + domain + "/"@ + kind
                + "/"@ + or_empty(name)
        },
    }
}

/// Appends an optional part of an address to `out`.
fn append_or_empty(out: &mut String, part: &Option<String>)
    ensures
        final(out)@ == old(out)@ + or_empty(part.deep_view()),
{
    match part {
        Some(text) => {
            out.append(text.as_str());
        },
        None => {
        },
    }
}

impl Endpoint {
    /// The address of the endpoint.
    pub fn url(&self) -> (out: String)
        ensures
            out@ == endpoint_text(self@),
    {
        let mut out = String::new();
        match self {
            Endpoint::Ping => {
                out.append("https://porkbun.com/api/json/v3/ping");
            },
            Endpoint::RecordCreate(domain) => {
                out.append("https://porkbun.com/api/json/v3/dns/create/");
                out.append(domain.as_str());
            },
            Endpoint::RecordEditId(domain, id) => {
                out.append("https://porkbun.com/api/json/v3/dns/edit/");
                out.append(domain.as_str());
                out.append("/");
                out.append(id.as_str());
            },
            Endpoint::RecordDeleteId(domain, id) => {
                out.append("https://porkbun.com/api/json/v3/dns/delete/");
                out.append(domain.as_str());
                out.append("/");
                out.append(id.as_str());
            },
            Endpoint::RecordRetrieveId(domain, id) => {
                out.append("https://porkbun.com/api/json/v3/dns/retrieve/");
                out.append(domain.as_str());
                out.append("/");
                append_or_empty(&mut out, id);
            },
            Endpoint::RecordEditType(domain, name, kind) => {
                out.append("https://porkbun.com/api/json/v3/dns/editByNameType/");
                out.append(domain.as_str());
                out.append("/");
                out.append(kind.as_str());
                out.append("/");
                append_or_empty(&mut out, name);
            },
            Endpoint::RecordDeleteType(domain, name, kind) => {
                out.append("https://porkbun.com/api/json/v3/dns/deleteByNameType/");
                out.append(domain.as_str());
                out.append("/");
                out.append(kind.as_str());
                out.append("/");
                append_or_empty(&mut out, name);
            },
            Endpoint::RecordRetrieveType(domain, name, kind) => {
                out.append("https://porkbun.com/api/json/v3/dns/retrieveByNameType/");
                out.append(domain.as_str());
                out.append("/");
                out.append(kind.as_str());
                out.append("/");
                append_or_empty(&mut out, name);
            },
        }
        out
    }
}

/// A request to the API: the address to post to and the JSON body.
#[derive(Debug)]
pub struct PorkbunRequest {
    pub url: String,
    pub body: String,
}

/// The two members of a request body that hold the API keys.
pub open spec fn keys_text(secret: Seq<char>, public: Seq<char>) -> Seq<char> {
    "\"secretapikey\":"@ + json_string_text(secret) + ",\"apikey\":"@ + json_string_text(public)
}

/// The body of a request that only authenticates.
pub open spec fn keys_body_text(secret: Seq<char>, public: Seq<char>) -> Seq<char> {
    "{"@ + keys_text(secret, public) + "}"@
}

/// The body of a request that creates a TXT record: the keys, the record's
/// name or `null`, its type, its content, and no time to live or priority.
pub open spec fn create_body_text(
    secret: Seq<char>,
    public: Seq<char>,
    name: Option<Seq<char>>,
    content: Seq<char>,
) -> Seq<char> {
    "{"@ + keys_text(secret, public) + ",\"name\":"@ + (match name {
        Some(n) => json_string_text(n),
        None => "null"@,
    }) + ",\"type\":\"TXT\",\"content\":"@ + json_string_text(content)
        + ",\"ttl\":null,\"prio\":null}"@
}

/// The keys of an API account, with which the requests are made.
#[derive(Debug)]
pub struct PorkbunAPI {
    secretapikey: String,
    apikey: String,
}

impl PorkbunAPI {
    /// The secret key, as text.
    pub closed spec fn secret(&self) -> Seq<char> {
        self.secretapikey@
    }

    /// The public key, as text.
    pub closed spec fn public(&self) -> Seq<char> {
        self.apikey@
    }

    /// Use the given keys for Porkbun API access.
    pub fn new(secret_key: String, public_key: String) -> (api: PorkbunAPI)
        ensures
            api.secret() == secret_key@,
            api.public() == public_key@,
    {
        PorkbunAPI { secretapikey: secret_key, apikey: public_key }
    }

    /// Writes the two members that hold the keys.
    fn keys(&self, out: &mut String)
        ensures
            final(out)@ == old(out)@ + keys_text(self.secret(), self.public()),
    {
        out.append("\"secretapikey\":");
        out.append(json_string(self.secretapikey.as_str()).as_str());
        out.append(",\"apikey\":");
        out.append(json_string(self.apikey.as_str()).as_str());
    }

    /// The request that pings the API.
    pub fn ping(&self) -> (request: PorkbunRequest)
        ensures
            request.url@ == endpoint_text(EndpointView::Ping),
            request.body@ == keys_body_text(self.secret(), self.public()),
    {
        let mut body = String::new();
        body.append("{");
        self.keys(&mut body);
        body.append("}");
        PorkbunRequest { url: Endpoint::Ping.url(), body }
    }

    /// The request that creates a TXT record named `subdomain` under
    /// `domain` that holds `value`.
    pub fn create(&self, subdomain: Option<&str>, domain: &str, value: &str) -> (request:
        PorkbunRequest)
        ensures
            request.url@ == endpoint_text(EndpointView::RecordCreate(domain@)),
            request.body@ == create_body_text(
                self.secret(),
                self.public(),
                subdomain.deep_view(),
                value@,
            ),
    {
        let mut body = String::new();
        body.append("{");
        self.keys(&mut body);
        body.append(",\"name\":");
        match subdomain {
            Some(name) => {
                body.append(json_string(name).as_str());
            },
            None => {
                body.append("null");
            },
        }
        body.append(",\"type\":\"TXT\",\"content\":");
        body.append(json_string(value).as_str());
        body.append(",\"ttl\":null,\"prio\":null}");
        PorkbunRequest { url: Endpoint::RecordCreate(domain.to_string()).url(), body }
    }

    /// The request that deletes the TXT records named `subdomain` under
    /// `domain`.
    pub fn delete(&self, subdomain: Option<&str>, domain: &str) -> (request: PorkbunRequest)
        ensures
            request.url@ == endpoint_text(
                EndpointView::RecordDeleteType(domain@, subdomain.deep_view(), "TXT"@),
            ),
            request.body@ == keys_body_text(self.secret(), self.public()),
    {
        let mut body = String::new();
        body.append("{");
        self.keys(&mut body);
        body.append("}");
        let name = match subdomain {
            Some(n) => Some(n.to_string()),
            None => None,
        };
        let endpoint = Endpoint::RecordDeleteType(domain.to_string(), name, "TXT".to_string());
        PorkbunRequest { url: endpoint.url(), body }
    }
}

} // verus!
