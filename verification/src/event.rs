//! Reading the events of a bot, and choosing the handler of a message by its text.

use vstd::prelude::*;
use crate::json::JsonValue;

verus! {

/// The member `name` of the message that a `message_new` event carries,
/// under `object.message`.
pub open spec fn message_field(event: JsonValue, name: Seq<char>) -> Option<JsonValue> {
    match event.spec_get("object"@) {
        Some(object) => match object.spec_get("message"@) {
            Some(message) => message.spec_get(name),
            None => None,
        },
        None => None,
    }
}

/// The member `name` of the message of a `message_new` event.
fn get_message_field<'a>(event: &'a JsonValue, name: &str) -> (r: Option<&'a JsonValue>)
    ensures
        match r {
            Some(v) => message_field(*event, name@) == Some(*v),
            None => message_field(*event, name@) is None,
        },
{
    match event.get("object") {
        Some(object) => match object.get("message") {
            Some(message) => message.get(name),
            None => None,
        },
        None => None,
    }
}

/// The text of the message of a `message_new` event.
pub fn get_text_from_event(ev: &JsonValue) -> (text: &str)
    requires
        message_field(*ev, "text"@) matches Some(v) && v.spec_as_str() is Some,
    ensures
        message_field(*ev, "text"@).unwrap().spec_as_str() == Some(text@),
{
    match get_message_field(ev, "text") {
        Some(v) => match v.as_str() {
            Some(s) => s,
            None => {
                assert(false);
                ""
            },
        },
        None => {
            assert(false);
            ""
        },
    }
}

/// The conversation that the message of a `message_new` event came from.
pub fn message_peer_id(ev: &JsonValue) -> (peer_id: i64)
    requires
        message_field(*ev, "peer_id"@) matches Some(v) && v.spec_as_i64() is Some,
    ensures
        message_field(*ev, "peer_id"@).unwrap().spec_as_i64() == Some(peer_id),
{
    match get_message_field(ev, "peer_id") {
        Some(v) => match v.as_i64() {
            Some(n) => n,
            None => {
                assert(false);
                0
            },
        },
        None => {
            assert(false);
            0
        },
    }
}

/// One of `patterns` is exactly `text`.
pub open spec fn route_matches(patterns: Seq<String>, text: Seq<char>) -> bool {
    exists|k: int| 0 <= k < patterns.len() && patterns[k]@ == text
}

/// The first route whose patterns hold `text`: routes are tried in order,
/// and a message goes to the first one that names its text exactly.
pub fn instant_route(routes: &Vec<Vec<String>>, text: &str) -> (r: Option<usize>)
    ensures
        match r {
            Some(i) => i < routes@.len() && route_matches(routes@[i as int]@, text@)
                && forall|j: int| 0 <= j < i ==> !route_matches(#[trigger] routes@[j]@, text@),
            None => forall|j: int| 0 <= j < routes@.len() ==> !route_matches(#[trigger] routes@[j]@, text@),
        },
{
    let wanted = String::from_str(text);
    let mut i: usize = 0;
    while i < routes.len()
        invariant
            wanted@ == text@,
            i <= routes@.len(),
            forall|j: int| 0 <= j < i ==> !route_matches(#[trigger] routes@[j]@, text@),
        decreases routes.len() - i,
    {
        let patterns = &routes[i];
        let mut k: usize = 0;
        while k < patterns.len()
            invariant
                wanted@ == text@,
                i < routes@.len(),
                *patterns == routes@[i as int],
                forall|j: int| 0 <= j < i ==> !route_matches(#[trigger] routes@[j]@, text@),
                k <= patterns@.len(),
                forall|m: int| 0 <= m < k ==> patterns@[m]@ != text@,
            decreases patterns.len() - k,
        {
            if patterns[k] == wanted {
                assert(patterns@[k as int]@ == text@);
                return Some(i);
            }
            k = k + 1;
        }
        assert(!route_matches(routes@[i as int]@, text@));
        i = i + 1;
    }
    None
}

/// The member `name` of a message event is the member `name` of the
/// `message` member of its `object` member, and nothing where either is
/// missing.
pub proof fn law_message_field(event: JsonValue, name: Seq<char>)
    ensures
        forall|object: JsonValue, message: JsonValue|
            event.spec_get("object"@) == Some(object) && #[trigger] object.spec_get("message"@) == Some(
                message,
            ) ==> message_field(event, name) == #[trigger] message.spec_get(name),
        event.spec_get("object"@) is None ==> message_field(event, name) is None,
        (event.spec_get("object"@) matches Some(object) && object.spec_get("message"@) is None)
            ==> message_field(event, name) is None,
{
}

/// A route matches a text exactly when one of its patterns is that text.
pub proof fn law_route_matches(patterns: Seq<String>, text: Seq<char>)
    ensures
        route_matches(patterns, text) <==> exists|k: int|
            0 <= k < patterns.len() && #[trigger] patterns[k]@ == text,
{
}

} // verus!
