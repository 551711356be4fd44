//! The JSON texts that the protocol puts on the wire, composed from string
//! literals that `serde_json` escapes.

use crate::encoding::{json_string, json_string_text};
use crate::model::{Identifier, IdentifierView};
use vstd::prelude::*;

verus! {

/// The items of a list with a comma between each two.
pub open spec fn joined(items: Seq<Seq<char>>) -> Seq<char>
    decreases items.len(),
{
    if items.len() == 0 {
        Seq::empty()
    } else if items.len() == 1 {
        items[0]
    } else {
        joined(items.drop_last()) + ","@ + items.last()
    }
}

/// A JSON array whose items are the given JSON texts.
pub open spec fn array_text(items: Seq<Seq<char>>) -> Seq<char> {
    "["@ + joined(items) + "]"@
}

/// The JSON string literals of a list of texts.
pub open spec fn string_literals(texts: Seq<Seq<char>>) -> Seq<Seq<char>> {
    Seq::new(texts.len(), |i: int| json_string_text(texts[i]))
}

/// The JSON array of a list of texts.
pub open spec fn string_array_text(texts: Seq<Seq<char>>) -> Seq<char> {
    array_text(string_literals(texts))
}

/// The JSON object of an identifier: its members `type` and `value`.
pub open spec fn identifier_text(id: IdentifierView) -> Seq<char> {
    "{\"type\":"@ + json_string_text(id.kind) + ",\"value\":"@ + json_string_text(id.value) + "}"@
}

/// The JSON objects of a list of identifiers.
pub open spec fn identifier_objects(ids: Seq<IdentifierView>) -> Seq<Seq<char>> {
    Seq::new(ids.len(), |i: int| identifier_text(ids[i]))
}

/// The JSON array of a list of identifiers.
pub open spec fn identifier_array_text(ids: Seq<IdentifierView>) -> Seq<char> {
    array_text(identifier_objects(ids))
}

/// Joining one item more appends a comma, unless the item is the first, and
/// the item.
proof fn joined_step(items: Seq<Seq<char>>, n: int)
    requires
        0 <= n < items.len(),
    ensures
        joined(items.take(n + 1)) == if n == 0 {
            items[n]
        } else {
            joined(items.take(n)) + ","@ + items[n]
        },
{
    let longer = items.take(n + 1);
    if n == 0 {
    } else {
        assert(longer.drop_last() =~= items.take(n));
    }
}

/// Writes the JSON array of `texts`.
pub fn string_array(texts: &Vec<String>) -> (out: String)
    ensures
        out@ == string_array_text(texts.deep_view()),
{
    let ghost items = string_literals(texts.deep_view());
    let mut out = String::new();
    out.append("[");
    let mut i: usize = 0;
    while i < texts.len()
        invariant
            i <= texts.len(),
            items == string_literals(texts.deep_view()),
            items.len() == texts.len(),
            out@ == "["@ + joined(items.take(i as int)),
        decreases texts.len() - i,
    {
        if i > 0 {
            out.append(",");
        }
        let literal = json_string(texts[i].as_str());
        out.append(literal.as_str());
        proof {
            joined_step(items, i as int);
        }
        i += 1;
    }
    out.append("]");
    proof {
        assert(items.take(i as int) =~= items);
    }
    out
}

/// Writes the JSON object of an identifier.
pub fn identifier_object(id: &Identifier) -> (out: String)
    ensures
        out@ == identifier_text(id@),
{
    let mut out = String::new();
    out.append("{\"type\":");
    out.append(json_string(id.kind.as_str()).as_str());
    out.append(",\"value\":");
    out.append(json_string(id.value.as_str()).as_str());
    out.append("}");
    out
}

/// Writes the JSON array of `ids`.
pub fn identifier_array(ids: &Vec<Identifier>) -> (out: String)
    ensures
        out@ == identifier_array_text(ids.deep_view()),
{
    let ghost items = identifier_objects(ids.deep_view());
    let mut out = String::new();
    out.append("[");
    let mut i: usize = 0;
    while i < ids.len()
        invariant
            i <= ids.len(),
            items == identifier_objects(ids.deep_view()),
            items.len() == ids.len(),
            out@ == "["@ + joined(items.take(i as int)),
        decreases ids.len() - i,
    {
        if i > 0 {
            out.append(",");
        }
        let object = identifier_object(&ids[i]);
        out.append(object.as_str());
        proof {
            joined_step(items, i as int);
        }
        i += 1;
    }
    out.append("]");
    proof {
        assert(items.take(i as int) =~= items);
    }
    out
}

} // verus!
