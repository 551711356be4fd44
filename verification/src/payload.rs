//! The bodies of the protocol's requests.

use crate::json::{identifier_array, identifier_array_text, string_array, string_array_text};
use crate::encoding::{json_string, json_string_text};
use crate::model::{Identifier, IdentifierView};
use vstd::prelude::*;

verus! {

/// The body of a signed request, one variant per request shape.
#[derive(Debug)]
pub enum Payload {
    /// Registers an account.
    NewAccount { contact: Vec<String>, terms_of_service_agreed: bool },
    /// Asks for a certificate for the identifiers.
    NewOrder { identifiers: Vec<Identifier> },
    /// Submits a certificate signing request, already Base64-encoded.
    Finalize { csr: String },
    /// An empty JSON object: tells the authority that a challenge is ready.
    EmptyObject,
    /// No body at all: reads a resource.
    Empty,
}

/// A `Payload` as texts.
pub enum PayloadView {
    NewAccount { contact: Seq<Seq<char>>, terms_of_service_agreed: bool },
    NewOrder { identifiers: Seq<IdentifierView> },
    Finalize { csr: Seq<char> },
    EmptyObject,
    Empty,
}

impl DeepView for Payload {
    type V = PayloadView;

    open spec fn deep_view(&self) -> PayloadView {
        match self {
            Payload::NewAccount { contact, terms_of_service_agreed } => PayloadView::NewAccount {
                contact: contact.deep_view(),
                terms_of_service_agreed: *terms_of_service_agreed,
            },
            Payload::NewOrder { identifiers } => PayloadView::NewOrder {
                identifiers: identifiers.deep_view(),
            },
            Payload::Finalize { csr } => PayloadView::Finalize { csr: csr@ },
            Payload::EmptyObject => PayloadView::EmptyObject,
            Payload::Empty => PayloadView::Empty,
        }
    }
}

impl View for Payload {
    type V = PayloadView;

    open spec fn view(&self) -> PayloadView {
        self.deep_view()
    }
}

/// The JSON text of a payload. The variant `Empty` has none: it is sent as
/// the empty string.
pub open spec fn payload_text(p: PayloadView) -> Seq<char> {
    match p {
        PayloadView::NewAccount { contact, terms_of_service_agreed } => {
            "{\"contact\":"@ + string_array_text(contact) + ",\"termsOfServiceAgreed\":"@ + (
            if terms_of_service_agreed {
                "true"@
            } else {
                "false"@
            }) + "}"@
        },
        PayloadView::NewOrder { identifiers } => {
            "{\"identifiers\":"@ + identifier_array_text(identifiers) + "}"@
        },
        PayloadView::Finalize { csr } => "{\"csr\":"@ + json_string_text(csr) + "}"@,
        PayloadView::EmptyObject => "{}"@,
        PayloadView::Empty => Seq::empty(),
    }
}

/// The identifiers of kind `dns` for a list of domain names, in their order.
pub open spec fn dns_identifiers(domains: Seq<Seq<char>>) -> Seq<IdentifierView> {
    Seq::new(domains.len(), |i: int| IdentifierView { kind: "dns"@, value: domains[i] })
}

impl Payload {
    /// The JSON text of the payload.
    pub fn to_json(&self) -> (out: String)
        ensures
            out@ == payload_text(self@),
    {
        let mut out = String::new();
        match self {
            Payload::NewAccount { contact, terms_of_service_agreed } => {
                out.append("{\"contact\":");
                out.append(string_array(contact).as_str());
                out.append(",\"termsOfServiceAgreed\":");
                if *terms_of_service_agreed {
                    out.append("true");
                } else {
                    out.append("false");
                }
                out.append("}");
            },
            Payload::NewOrder { identifiers } => {
                out.append("{\"identifiers\":");
                out.append(identifier_array(identifiers).as_str());
                out.append("}");
            },
            Payload::Finalize { csr } => {
                out.append("{\"csr\":");
                out.append(json_string(csr.as_str()).as_str());
                out.append("}");
            },
            Payload::EmptyObject => {
                out.append("{}");
            },
            Payload::Empty => {},
        }
        out
    }

    /// The request for a new account: no contact, terms of service agreed.
    pub fn new_account() -> (p: Payload)
        ensures
            p@ == (PayloadView::NewAccount {
                contact: Seq::empty(),
                terms_of_service_agreed: true,
            }),
    {
        let p = Payload::NewAccount { contact: Vec::new(), terms_of_service_agreed: true };
        assert(p@->NewAccount_contact =~= Seq::empty());
        p
    }

    /// The request for a new order: one identifier of kind `dns` for each of
    /// `domains`, in their order.
    pub fn new_order(domains: &[&str]) -> (p: Payload)
        ensures
            p@ == (PayloadView::NewOrder {
                identifiers: dns_identifiers(domains.deep_view()),
            }),
    {
        let mut identifiers: Vec<Identifier> = Vec::new();
        let mut i: usize = 0;
        while i < domains.len()
            invariant
                i <= domains.len(),
                identifiers@.len() == i,
                domains.deep_view().len() == domains.len(),
                identifiers.deep_view() == dns_identifiers(domains.deep_view().take(i as int)),
            decreases domains.len() - i,
        {
            let ghost before = identifiers.deep_view();
            let id = Identifier { kind: "dns".to_string(), value: domains[i].to_string() };
            identifiers.push(id);
            i += 1;
            proof {
                let now = identifiers.deep_view();
                let want = dns_identifiers(domains.deep_view().take(i as int));
                assert forall|k: int| 0 <= k < now.len() implies now[k] == want[k] by {
                    if k < i - 1 {
                        assert(now[k] == before[k]);
                    }
                }
            }
        }
        proof {
            assert(domains.deep_view().take(i as int) =~= domains.deep_view());
        }
        Payload::NewOrder { identifiers }
    }
}

} // verus!
