//! Resource states as the certificate authority reports them.

use crate::encoding::text_eq;
use vstd::prelude::*;
use vstd::std_specs::convert::FromSpecImpl;

verus! {

/// The state of an order.
#[derive(Clone, Copy, Debug, PartialEq, Eq, Structural)]
pub enum OrderStatus {
    Invalid,
    Pending,
    Ready,
    Processing,
    Valid,
}

/// The state of an authorization.
#[derive(Clone, Copy, Debug, PartialEq, Eq, Structural)]
pub enum AuthStatus {
    Invalid,
    Pending,
    Valid,
}

/// What a status text means for an order: the four known words map to their
/// states, every other text to `Invalid`.
pub open spec fn order_status_of(s: Seq<char>) -> OrderStatus {
    if s == "pending"@ {
        OrderStatus::Pending
    } else if s == "ready"@ {
        OrderStatus::Ready
    } else if s == "processing"@ {
        OrderStatus::Processing
    } else if s == "valid"@ {
        OrderStatus::Valid
    } else {
        OrderStatus::Invalid
    }
}

/// What a status text means for an authorization: `pending` and `valid` map
/// to their states, every other text to `Invalid`.
pub open spec fn auth_status_of(s: Seq<char>) -> AuthStatus {
    if s == "pending"@ {
        AuthStatus::Pending
    } else if s == "valid"@ {
        AuthStatus::Valid
    } else {
        AuthStatus::Invalid
    }
}

impl<'a> From<&'a str> for OrderStatus {
    fn from(s: &'a str) -> (status: OrderStatus)
        ensures
            status == order_status_of(s@),
    {
        if text_eq(s, "pending") {
            OrderStatus::Pending
        } else if text_eq(s, "ready") {
            OrderStatus::Ready
        } else if text_eq(s, "processing") {
            OrderStatus::Processing
        } else if text_eq(s, "valid") {
            OrderStatus::Valid
        } else {
            OrderStatus::Invalid
        }
    }
}

impl<'a> FromSpecImpl<&'a str> for OrderStatus {
    open spec fn obeys_from_spec() -> bool {
        true
    }

    open spec fn from_spec(s: &'a str) -> OrderStatus {
        order_status_of(s@)
    }
}

impl<'a> From<&'a str> for AuthStatus {
    fn from(s: &'a str) -> (status: AuthStatus)
        ensures
            status == auth_status_of(s@),
    {
        if text_eq(s, "pending") {
            AuthStatus::Pending
        } else if text_eq(s, "valid") {
            AuthStatus::Valid
        } else {
            AuthStatus::Invalid
        }
    }
}

impl<'a> FromSpecImpl<&'a str> for AuthStatus {
    open spec fn obeys_from_spec() -> bool {
        true
    }

    open spec fn from_spec(s: &'a str) -> AuthStatus {
        auth_status_of(s@)
    }
}

/// The four status words are four different texts.
proof fn status_words_differ()
    ensures
        "pending"@ != "ready"@,
        "pending"@ != "processing"@,
        "pending"@ != "valid"@,
        "ready"@ != "processing"@,
        "ready"@ != "valid"@,
        "processing"@ != "valid"@,
{
    reveal_strlit("pending");
    reveal_strlit("ready");
    reveal_strlit("processing");
    reveal_strlit("valid");
    assert("processing"@.len() == 10);
    assert("ready"@[0] == 'r');
    assert("valid"@[0] == 'v');
}

/// An order counts as `Valid`, or as still making progress, only on the
/// exact words for those states: every text other than the four known words
/// is `Invalid`.
pub proof fn order_status_unknown_is_invalid(s: Seq<char>)
    ensures
        order_status_of(s) == OrderStatus::Valid <==> s == "valid"@,
        order_status_of(s) == OrderStatus::Pending <==> s == "pending"@,
        order_status_of(s) == OrderStatus::Ready <==> s == "ready"@,
        order_status_of(s) == OrderStatus::Processing <==> s == "processing"@,
        s != "pending"@ && s != "ready"@ && s != "processing"@ && s != "valid"@
            ==> order_status_of(s) == OrderStatus::Invalid,
{
    status_words_differ();
}

/// An authorization counts as `Valid` or `Pending` only on the exact words
/// for those states: every other text is `Invalid`.
pub proof fn auth_status_unknown_is_invalid(s: Seq<char>)
    ensures
        auth_status_of(s) == AuthStatus::Valid <==> s == "valid"@,
        auth_status_of(s) == AuthStatus::Pending <==> s == "pending"@,
        s != "pending"@ && s != "valid"@ ==> auth_status_of(s) == AuthStatus::Invalid,
{
    status_words_differ();
}

} // verus!
