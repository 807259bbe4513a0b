//! A model of parsed JSON documents, as far as the client reads them: the
//! error message of a Robot API error body.

use vstd::prelude::*;

use crate::text::same_text;

verus! {

/// A parsed JSON value. Numbers are kept without their value, which nothing
/// here reads.
pub enum Json {
    /// `null`
    Null,
    /// `true` or `false`
    Bool(bool),
    /// A number.
    Number,
    /// A string.
    Text(String),
    /// An array.
    Array(Vec<Json>),
    /// An object: its members, each key once.
    Object(Vec<(String, Json)>),
}

/// The mathematical model of a [`Json`] value.
pub enum JsonView {
    Null,
    Bool(bool),
    Number,
    Text(Seq<char>),
    Array(Seq<JsonView>),
    Object(Seq<(Seq<char>, JsonView)>),
}

/// The model of a JSON value.
pub open spec fn json_view(j: Json) -> JsonView
    decreases j,
{
    match j {
        Json::Null => JsonView::Null,
        Json::Bool(b) => JsonView::Bool(b),
        Json::Number => JsonView::Number,
        Json::Text(s) => JsonView::Text(s@),
        Json::Array(items) => JsonView::Array(
            Seq::new(
                items@.len(),
                |i: int|
                    if 0 <= i < items@.len() {
                        proof {
                            assert(decreases_to!(j => items));
                            assert(decreases_to!(items => items@));
                            assert(decreases_to!(items@ => items@[i]));
                        }
                        json_view(items@[i])
                    } else {
                        JsonView::Null
                    },
            ),
        ),
        Json::Object(members) => JsonView::Object(
            Seq::new(
                members@.len(),
                |i: int|
                    if 0 <= i < members@.len() {
                        proof {
                            assert(decreases_to!(j => members));
                            assert(decreases_to!(members => members@));
                            assert(decreases_to!(members@ => members@[i]));
                            assert(decreases_to!(members@[i] => members@[i].1));
                        }
                        (members@[i].0@, json_view(members@[i].1))
                    } else {
                        (Seq::empty(), JsonView::Null)
                    },
            ),
        ),
    }
}

// ---------------------------------------------------------------------------
// Parsing
// ---------------------------------------------------------------------------

/// Declares `serde_json::Value`, a parsed JSON document, as an opaque type.
#[verifier::external_type_specification]
#[verifier::external_body]
pub struct ExJsonValue(serde_json::Value);

/// Names what `serde_json::from_str::<serde_json::Value>` gives for `text`,
/// as a model: nothing when the text is refused, otherwise the document, with
/// the members of each object in the order its map yields them.
pub uninterp spec fn json_document(text: Seq<char>) -> Option<JsonView>;

/// `serde_json::from_str::<serde_json::Value>(text).ok()`, with the value
/// converted into a [`Json`].
///
/// Claims that the result is the named document for `text`.
#[verifier::external_body]
fn parse_json(text: &str) -> (doc: Option<Json>)
    ensures
        match doc {
            Some(d) => json_document(text@) == Some(json_view(d)),
            None => json_document(text@) is None,
        },
{
    serde_json::from_str::<serde_json::Value>(text).ok().map(json_model)
}

/// Converts a `serde_json::Value` into a [`Json`], one variant for the
/// other: strings, array elements and object members are moved over, a
/// number's value is dropped. What it gives is claimed by [`parse_json`], its
/// only caller.
#[verifier::external_body]
fn json_model(value: serde_json::Value) -> Json {
    match value {
        serde_json::Value::Null => Json::Null,
        serde_json::Value::Bool(b) => Json::Bool(b),
        serde_json::Value::Number(_) => Json::Number,
        serde_json::Value::String(s) => Json::Text(s),
        serde_json::Value::Array(items) => Json::Array(items.into_iter().map(json_model).collect()),
        serde_json::Value::Object(members) => {
            Json::Object(members.into_iter().map(|(k, v)| (k, json_model(v))).collect())
        },
    }
}

// ---------------------------------------------------------------------------
// Reading
// ---------------------------------------------------------------------------

/// The value of member `key` among `members` (the last one, should a key
/// occur twice).
pub open spec fn member(members: Seq<(Seq<char>, JsonView)>, key: Seq<char>) -> Option<JsonView>
    decreases members.len(),
{
    if members.len() == 0 {
        None
    } else if members.last().0 == key {
        Some(members.last().1)
    } else {
        member(members.drop_last(), key)
    }
}

/// The member `key` of `v` when `v` is an object (`Value::get` with a key).
pub open spec fn json_member(v: JsonView, key: Seq<char>) -> Option<JsonView> {
    match v {
        JsonView::Object(members) => member(members, key),
        _ => None,
    }
}

/// The text at `error.message` of a document, when there is one.
pub open spec fn error_message_of(doc: JsonView) -> Option<Seq<char>> {
    match json_member(doc, "error"@) {
        Some(error) => match json_member(error, "message"@) {
            Some(JsonView::Text(m)) => Some(m),
            _ => None,
        },
        None => None,
    }
}

/// The text at `error.message` of the JSON document `text`, when `text` is
/// JSON and has one.
pub open spec fn json_error_message(text: Seq<char>) -> Option<Seq<char>> {
    match json_document(text) {
        Some(doc) => error_message_of(doc),
        None => None,
    }
}

/// The member `key` of `value` when it is an object.
pub fn object_member<'a>(value: &'a Json, key: &str) -> (r: Option<&'a Json>)
    ensures
        match r {
            Some(j) => json_member(json_view(*value), key@) == Some(json_view(*j)),
            None => json_member(json_view(*value), key@) is None,
        },
{
    match value {
        Json::Object(members) => {
            let ghost ms = json_view(*value)->Object_0;
            assert(ms.len() == members@.len());
            let mut i = members.len();
            assert(ms.take(i as int) =~= ms);
            while i > 0
                invariant
                    i <= members@.len(),
                    ms.len() == members@.len(),
                    ms == json_view(*value)->Object_0,
                    *value == Json::Object(*members),
                    member(ms, key@) == member(ms.take(i as int), key@),
                decreases i,
            {
                let (k, v) = &members[i - 1];
                proof {
                    assert(ms[i - 1] == (k@, json_view(*v)));
                    assert(ms.take(i as int).last() == ms[i - 1]);
                    assert(ms.take(i as int).drop_last() =~= ms.take(i - 1));
                }
                if same_text(k.as_str(), key) {
                    return Some(v);
                }
                i = i - 1;
            }
            None
        },
        _ => None,
    }
}

/// The text at `error.message` of `doc`, when there is one.
pub fn error_message_in(doc: &Json) -> (m: Option<String>)
    ensures
        crate::transport::opt_view(m) == error_message_of(json_view(*doc)),
{
    match object_member(doc, "error") {
        Some(error) => match object_member(error, "message") {
            Some(Json::Text(m)) => Some(m.clone()),
            _ => None,
        },
        None => None,
    }
}

/// The text at `error.message` of the JSON document `text`, when `text` is
/// JSON and has one.
pub fn json_error_message_of(text: &str) -> (m: Option<String>)
    ensures
        crate::transport::opt_view(m) == json_error_message(text@),
{
    match parse_json(text) {
        Some(doc) => error_message_in(&doc),
        None => None,
    }
}

/// Where `key`'s value stands among `members`: at index `i`, with no later
/// member of that key.
pub open spec fn last_member_at(members: Seq<(Seq<char>, JsonView)>, key: Seq<char>, i: int) -> bool {
    0 <= i < members.len() && members[i].0 == key && forall|k: int|
        i < k < members.len() ==> #[trigger] members[k].0 != key
}

proof fn lemma_member_is_last(members: Seq<(Seq<char>, JsonView)>, key: Seq<char>)
    ensures
        member(members, key) is None <==> forall|k: int| 0 <= k < members.len() ==> #[trigger] members[k].0 != key,
        forall|i: int| #[trigger] last_member_at(members, key, i) ==> member(members, key) == Some(members[i].1),
    decreases members.len(),
{
    if members.len() > 0 {
        let p = members.drop_last();
        lemma_member_is_last(p, key);
        assert forall|k: int| 0 <= k < p.len() implies #[trigger] p[k] == members[k] by {}
        let n = members.len() - 1;
        assert(members[n] == members.last());
        assert forall|i: int| #[trigger] last_member_at(members, key, i) implies member(members, key)
            == Some(members[i].1) by {
            if i < n {
                assert(members[n].0 != key);
                assert(last_member_at(p, key, i));
                assert(p[i] == members[i]);
            }
        }
        if forall|k: int| 0 <= k < p.len() ==> #[trigger] p[k].0 != key {
            assert forall|k: int| 0 <= k < n implies #[trigger] members[k].0 != key by {
                assert(p[k] == members[k]);
            }
        }
        if member(members, key) is None {
            assert forall|k: int| 0 <= k < members.len() implies #[trigger] members[k].0 != key by {
                if k < n {
                    assert(p[k] == members[k]);
                }
            }
        }
    }
}

proof fn lemma_member_found(members: Seq<(Seq<char>, JsonView)>, key: Seq<char>)
    ensures
        member(members, key) is Some ==> exists|i: int| #[trigger] last_member_at(members, key, i),
    decreases members.len(),
{
    if members.len() > 0 {
        let p = members.drop_last();
        lemma_member_found(p, key);
        let n = members.len() - 1;
        assert(members[n] == members.last());
        if members.last().0 == key {
            assert(last_member_at(members, key, n));
        } else if member(members, key) is Some {
            let i = choose|i: int| #[trigger] last_member_at(p, key, i);
            assert(p[i] == members[i]);
            assert forall|k: int| i < k < members.len() implies #[trigger] members[k].0 != key by {
                if k < n {
                    assert(p[k] == members[k]);
                }
            }
            assert(last_member_at(members, key, i));
        }
    }
}

/// The message of an error document is the text of the last `message` member
/// of the last `error` member of the top-level object, and nothing else: a
/// document that is not an object, has no `error` object, or whose `error` has
/// no `message` text gives none.
pub proof fn law_error_message_is_at_error_message(doc: JsonView)
    ensures
        error_message_of(doc) is Some <==> exists|ms: Seq<(Seq<char>, JsonView)>, i: int, inner: Seq<(Seq<char>, JsonView)>, j: int|
            doc == JsonView::Object(ms) && #[trigger] last_member_at(ms, "error"@, i) && ms[i].1
                == JsonView::Object(inner) && #[trigger] last_member_at(inner, "message"@, j)
                && inner[j].1 is Text,
        forall|ms: Seq<(Seq<char>, JsonView)>, i: int, inner: Seq<(Seq<char>, JsonView)>, j: int|
            doc == JsonView::Object(ms) && #[trigger] last_member_at(ms, "error"@, i) && ms[i].1
                == JsonView::Object(inner) && #[trigger] last_member_at(inner, "message"@, j) ==> (
            inner[j].1 matches JsonView::Text(m) ==> error_message_of(doc) == Some(m)),
{
    match doc {
        JsonView::Object(ms) => {
            lemma_member_is_last(ms, "error"@);
            lemma_member_found(ms, "error"@);
            match member(ms, "error"@) {
                Some(JsonView::Object(inner)) => {
                    lemma_member_is_last(inner, "message"@);
                    lemma_member_found(inner, "message"@);
                    if error_message_of(doc) is Some {
                        let i = choose|i: int| #[trigger] last_member_at(ms, "error"@, i);
                        let j = choose|j: int| #[trigger] last_member_at(inner, "message"@, j);
                        assert(last_member_at(ms, "error"@, i) && last_member_at(inner, "message"@, j));
                    }
                },
                Some(e) => {
                    if exists|ms2: Seq<(Seq<char>, JsonView)>, i: int, inner: Seq<(Seq<char>, JsonView)>, j: int|
                        doc == JsonView::Object(ms2) && #[trigger] last_member_at(ms2, "error"@, i) && ms2[i].1
                            == JsonView::Object(inner) && #[trigger] last_member_at(inner, "message"@, j)
                            && inner[j].1 is Text {
                        let (ms2, i, inner, j) = choose|ms2: Seq<(Seq<char>, JsonView)>, i: int, inner: Seq<(Seq<char>, JsonView)>, j: int|
                            doc == JsonView::Object(ms2) && #[trigger] last_member_at(ms2, "error"@, i) && ms2[i].1
                                == JsonView::Object(inner) && #[trigger] last_member_at(inner, "message"@, j)
                                && inner[j].1 is Text;
                        assert(ms2 == ms);
                    }
                },
                None => {
                    if exists|ms2: Seq<(Seq<char>, JsonView)>, i: int, inner: Seq<(Seq<char>, JsonView)>, j: int|
                        doc == JsonView::Object(ms2) && #[trigger] last_member_at(ms2, "error"@, i) && ms2[i].1
                            == JsonView::Object(inner) && #[trigger] last_member_at(inner, "message"@, j)
                            && inner[j].1 is Text {
                        let (ms2, i, inner, j) = choose|ms2: Seq<(Seq<char>, JsonView)>, i: int, inner: Seq<(Seq<char>, JsonView)>, j: int|
                            doc == JsonView::Object(ms2) && #[trigger] last_member_at(ms2, "error"@, i) && ms2[i].1
                                == JsonView::Object(inner) && #[trigger] last_member_at(inner, "message"@, j)
                                && inner[j].1 is Text;
                        assert(ms2 == ms);
                        assert(ms[i].0 == "error"@);
                    }
                },
            }
        },
        _ => {},
    }
}

} // verus!
