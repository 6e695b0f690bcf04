//! The bot long-poll protocol: the state that a bot keeps between polls, the
//! address it polls, and the decisions it takes on each reply of the
//! long-poll server.

use vstd::prelude::*;
use crate::api::VkwaveError;
use crate::json::{JsonValue, find_key, field, has_key, lemma_first_key_index};
use crate::params::Params;
use crate::text::{
    int_decimal, without_char, push_i64_decimal, remove_char, lemma_without_char_excludes,
    lemma_without_char_identity, lemma_int_decimal_without, law_without_char_keeps_others,
};

verus! {

/// The API method that hands out a long-poll server.
pub const LONGPOLL_SERVER_METHOD: &'static str = "groups.getLongPollServer";

/// The long-poll server that the API handed out: where to poll, with which
/// key, and from which event on.
#[derive(Debug, Clone)]
pub struct GroupsGetLongpollServer {
    pub key: String,
    pub server: String,
    pub ts: String,
}

/// The state of long polling.
#[derive(Debug, Clone)]
pub struct BotLongpollInfo {
    /// Key
    key: String,
    /// Server
    server: String,
    /// TS
    ts: String,
    /// Url for making requests
    url: String,
    /// Wait
    wait: i64,
    /// Did we do first request?
    first_request: bool,
}

/// The state of long polling, as values.
pub struct LongpollInfoView {
    pub key: Seq<char>,
    pub server: Seq<char>,
    pub ts: Seq<char>,
    pub url: Seq<char>,
    pub wait: i64,
    pub first_request: bool,
}

/// The address that polls `server` with `key` from event `ts` on, waiting
/// at most `wait` seconds, with every `"` taken out.
pub open spec fn poll_url(server: Seq<char>, key: Seq<char>, ts: Seq<char>, wait: i64) -> Seq<char> {
    without_char(
        server + "?act=a_check&key="@ + key + "&ts="@ + ts + "&wait="@ + int_decimal(wait as int),
        '"',
    )
}

impl LongpollInfoView {
    /// The address matches the server, key, event and wait of the state.
    pub open spec fn url_consistent(self) -> bool {
        self.url == poll_url(self.server, self.key, self.ts, self.wait)
    }

    /// The state with its address built anew from its other fields.
    pub open spec fn with_fresh_url(self) -> LongpollInfoView {
        LongpollInfoView { url: poll_url(self.server, self.key, self.ts, self.wait), ..self }
    }

    /// The state with the event to poll from set to `ts`.
    pub open spec fn with_ts(self, ts: Seq<char>) -> LongpollInfoView {
        LongpollInfoView { ts, ..self }
    }

    /// The state once a server has been fetched.
    pub open spec fn started(self) -> LongpollInfoView {
        LongpollInfoView { first_request: true, ..self }
    }

    /// The state with the server, key and event that the API handed out.
    pub open spec fn with_server(self, key: Seq<char>, server: Seq<char>, ts: Seq<char>) -> LongpollInfoView {
        LongpollInfoView { key, server, ts, ..self }
    }
}

impl View for BotLongpollInfo {
    type V = LongpollInfoView;

    closed spec fn view(&self) -> LongpollInfoView {
        LongpollInfoView {
            key: self.key@,
            server: self.server@,
            ts: self.ts@,
            url: self.url@,
            wait: self.wait,
            first_request: self.first_request,
        }
    }
}

/// The state before any poll: nothing known, a wait of 25 seconds.
pub open spec fn initial_info() -> LongpollInfoView {
    LongpollInfoView {
        key: Seq::empty(),
        server: Seq::empty(),
        ts: Seq::empty(),
        url: Seq::empty(),
        wait: 25,
        first_request: false,
    }
}

impl Default for BotLongpollInfo {
    fn default() -> (info: Self)
        ensures
            info@ == initial_info(),
    {
        let info = Self {
            first_request: false,
            key: String::new(),
            server: String::new(),
            ts: String::new(),
            url: String::new(),
            wait: 25,
        };
        assert(info@ =~= initial_info());
        info
    }
}

/// What the poller is to do next.
pub enum PollRequest {
    /// Ask the API for a long-poll server.
    FetchServer,
    /// Poll the long-poll server at this address.
    Poll(String),
}

/// What came of a reply of the long-poll server.
pub enum PollOutcome {
    /// New events.
    Updates(Vec<JsonValue>),
    /// The event number was out of date and has been renewed: poll again.
    Retry,
    /// The key has expired or the information is lost: fetch a server, then poll again.
    RefreshServer,
    /// The reply could not be used.
    Failed(VkwaveError),
}

/// The text under `ts`, if it is a string.
pub open spec fn ts_text(entries: Seq<(String, JsonValue)>) -> Option<Seq<char>> {
    match field(entries, "ts"@) {
        Some(v) => v.spec_as_str(),
        None => None,
    }
}

/// The failure code under `failed`, where there is one and it is an `i64`.
pub open spec fn failed_code(entries: Seq<(String, JsonValue)>) -> Option<i64> {
    match field(entries, "failed"@) {
        Some(v) => v.spec_as_i64(),
        None => None,
    }
}

/// The reply renews the event number: it reports no failure, or failure 1.
pub open spec fn renews_ts(entries: Seq<(String, JsonValue)>) -> bool {
    !has_key(entries, "failed"@) || failed_code(entries) == Some(1i64)
}

/// A reply on which the poller cannot go on: it renews the event number but
/// carries none as a string, or it reports no failure and has no `updates`.
pub open spec fn reply_unreadable(data: JsonValue) -> bool {
    match data {
        JsonValue::Object(entries) => {
            ||| renews_ts(entries@) && ts_text(entries@) is None
            ||| !has_key(entries@, "failed"@) && !has_key(entries@, "updates"@)
        },
        _ => false,
    }
}

/// The state after the reply `data` of the long-poll server.
pub open spec fn after_poll(info: LongpollInfoView, data: JsonValue) -> LongpollInfoView {
    match data {
        JsonValue::Object(entries) => if renews_ts(entries@) {
            info.with_ts(ts_text(entries@).unwrap()).with_fresh_url()
        } else {
            info
        },
        _ => info,
    }
}

/// The string under `ts`.
fn ts_of(entries: &Vec<(String, JsonValue)>) -> (ts: String)
    requires
        ts_text(entries@) is Some,
    ensures
        ts@ == ts_text(entries@).unwrap(),
{
    match find_key(entries, "ts") {
        Some(i) => {
            proof {
                lemma_first_key_index(entries@, "ts"@, i as int);
            }
            match &entries[i].1 {
                JsonValue::String(s) => s.clone(),
                _ => {
                    assert(false);
                    String::new()
                },
            }
        },
        None => {
            assert(false);
            String::new()
        },
    }
}

/// The parameters of the request for a long-poll server of the group `group_id`.
pub fn server_request_params(group_id: &str) -> (params: Params)
    ensures
        params@ == Map::<Seq<char>, Seq<char>>::empty().insert("group_id"@, group_id@),
{
    let mut params = Params::new();
    params.insert("group_id", String::from_str(group_id));
    params
}

impl BotLongpollInfo {
    /// Update data from response
    pub fn update_data(&mut self, data: GroupsGetLongpollServer)
        ensures
            final(self)@ == old(self)@.with_server(data.key@, data.server@, data.ts@).with_fresh_url(),
    {
        self.key = data.key;
        self.server = data.server;
        self.ts = data.ts;
        self.update_url();
    }

    /// Update url
    pub fn update_url(&mut self)
        ensures
            final(self)@ == old(self)@.with_fresh_url(),
    {
        let mut raw = self.server.clone();
        raw.append("?act=a_check&key=");
        raw.append(self.key.as_str());
        raw.append("&ts=");
        raw.append(self.ts.as_str());
        raw.append("&wait=");
        push_i64_decimal(&mut raw, self.wait);
        self.url = remove_char(raw.as_str(), '"');
        assert(self@ =~= old(self)@.with_fresh_url());
    }

    /// What to do next: fetch a server before the first poll, poll afterwards.
    pub fn next_request(&self) -> (r: PollRequest)
        ensures
            if self@.first_request {
                r matches PollRequest::Poll(url) && url@ == self@.url
            } else {
                r is FetchServer
            },
    {
        if !self.first_request {
            PollRequest::FetchServer
        } else {
            PollRequest::Poll(self.url.clone())
        }
    }

    /// Takes in the server that the API handed out; polling may begin.
    pub fn apply_server_data(&mut self, data: GroupsGetLongpollServer)
        ensures
            final(self)@ == old(self)@.with_server(data.key@, data.server@, data.ts@)
                .with_fresh_url().started(),
    {
        self.update_data(data);
        self.first_request = true;
    }

    /// Handle Longpoll's error: failure 1 renews the event number and polls
    /// again, failures 2 and 3 fetch a server anew, any other is an error.
    pub fn handle_error(&mut self, code: i64, data: &Vec<(String, JsonValue)>) -> (r: PollOutcome)
        requires
            code == 1 ==> ts_text(data@) is Some,
        ensures
            code == 1 ==> r is Retry
                && final(self)@ == old(self)@.with_ts(ts_text(data@).unwrap()).with_fresh_url(),
            (code == 2 || code == 3) ==> r is RefreshServer && final(self)@ == old(self)@,
            !(code == 1 || code == 2 || code == 3) ==> final(self)@ == old(self)@,
            !(code == 1 || code == 2 || code == 3) ==> (r matches PollOutcome::Failed(
                VkwaveError::Other(m),
            ) && m@ == "Unknown code of fail"@),
    {
        if code == 1 {
            self.ts = ts_of(data);
            self.update_url();
            return PollOutcome::Retry;
        }
        if code == 2 || code == 3 {
            return PollOutcome::RefreshServer;
        }
        PollOutcome::Failed(VkwaveError::Other(String::from_str("Unknown code of fail")))
    }

    /// Takes in a reply of the long-poll server. A reply without `failed`
    /// renews the event number and yields its `updates`; one with `failed`
    /// goes to `handle_error`.
    pub fn handle_poll_response(&mut self, data: JsonValue) -> (r: PollOutcome)
        requires
            !reply_unreadable(data),
        ensures
            final(self)@ == after_poll(old(self)@, data),
            match data {
                JsonValue::Object(entries) => if !has_key(entries@, "failed"@) {
                    match field(entries@, "updates"@) {
                        Some(JsonValue::Array(updates)) => r == PollOutcome::Updates(updates),
                        _ => r matches PollOutcome::Failed(VkwaveError::Other(m))
                            && m@ == "Longpoll returned not a list of values"@,
                    }
                } else {
                    match failed_code(entries@) {
                        None => r matches PollOutcome::Failed(VkwaveError::Other(m))
                            && m@ == "Failed code is not a i64"@,
                        Some(code) => if code == 1 {
                            r is Retry
                        } else if code == 2 || code == 3 {
                            r is RefreshServer
                        } else {
                            r matches PollOutcome::Failed(VkwaveError::Other(m))
                                && m@ == "Unknown code of fail"@
                        },
                    }
                },
                _ => r matches PollOutcome::Failed(VkwaveError::Other(m))
                    && m@ == "Longpoll returned not an object"@,
            },
    {
        match data {
            JsonValue::Object(mut entries) => {
                let ghost members = entries@;
                match find_key(&entries, "failed") {
                    None => {
                        self.ts = ts_of(&entries);
                        self.update_url();
                        match find_key(&entries, "updates") {
                            Some(i) => {
                                proof {
                                    lemma_first_key_index(members, "updates"@, i as int);
                                }
                                let (_, value) = entries.remove(i);
                                match value {
                                    JsonValue::Array(updates) => PollOutcome::Updates(updates),
                                    _ => PollOutcome::Failed(
                                        VkwaveError::Other(
                                            String::from_str("Longpoll returned not a list of values"),
                                        ),
                                    ),
                                }
                            },
                            None => PollOutcome::Failed(
                                VkwaveError::Other(
                                    String::from_str("Longpoll returned not a list of values"),
                                ),
                            ),
                        }
                    },
                    Some(i) => {
                        proof {
                            lemma_first_key_index(members, "failed"@, i as int);
                        }
                        match entries[i].1.as_i64() {
                            None => PollOutcome::Failed(
                                VkwaveError::Other(String::from_str("Failed code is not a i64")),
                            ),
                            Some(code) => self.handle_error(code, &entries),
                        }
                    },
                }
            },
            _ => PollOutcome::Failed(
                VkwaveError::Other(String::from_str("Longpoll returned not an object")),
            ),
        }
    }

    /// The key of the long-poll server.
    pub fn key(&self) -> (s: &str)
        ensures
            s@ == self@.key,
    {
        self.key.as_str()
    }

    /// The address of the long-poll server.
    pub fn server(&self) -> (s: &str)
        ensures
            s@ == self@.server,
    {
        self.server.as_str()
    }

    /// The event to poll from.
    pub fn ts(&self) -> (s: &str)
        ensures
            s@ == self@.ts,
    {
        self.ts.as_str()
    }

    /// The address of the next poll.
    pub fn url(&self) -> (s: &str)
        ensures
            s@ == self@.url,
    {
        self.url.as_str()
    }

    /// How long, in seconds, the server may hold a poll.
    pub fn wait(&self) -> (w: i64)
        ensures
            w == self@.wait,
    {
        self.wait
    }

    /// Whether a server has been fetched.
    pub fn first_request(&self) -> (b: bool)
        ensures
            b == self@.first_request,
    {
        self.first_request
    }
}

/// A freshly built address matches the state it was built from.
pub proof fn law_fresh_url_is_consistent(info: LongpollInfoView)
    ensures
        info.with_fresh_url().url_consistent(),
{
}

/// Building the address again changes nothing.
pub proof fn law_fresh_url_idempotent(info: LongpollInfoView)
    ensures
        info.with_fresh_url().with_fresh_url() == info.with_fresh_url(),
{
}

/// The address of a poll never holds a `"`.
pub proof fn law_poll_url_has_no_quote(server: Seq<char>, key: Seq<char>, ts: Seq<char>, wait: i64)
    ensures
        !poll_url(server, key, ts, wait).contains('"'),
{
    lemma_without_char_excludes(
        server + "?act=a_check&key="@ + key + "&ts="@ + ts + "&wait="@ + int_decimal(wait as int),
        '"',
    );
}

/// Where the server, key and event hold no `"`, the address is exactly
/// `{server}?act=a_check&key={key}&ts={ts}&wait={wait}`.
pub proof fn law_poll_url_of_plain_parts(server: Seq<char>, key: Seq<char>, ts: Seq<char>, wait: i64)
    requires
        !server.contains('"'),
        !key.contains('"'),
        !ts.contains('"'),
    ensures
        poll_url(server, key, ts, wait) == server + "?act=a_check&key="@ + key + "&ts="@ + ts
            + "&wait="@ + int_decimal(wait as int),
{
    reveal_strlit("?act=a_check&key=");
    reveal_strlit("&ts=");
    reveal_strlit("&wait=");
    let a = "?act=a_check&key="@;
    let b = "&ts="@;
    let w = "&wait="@;
    let d = int_decimal(wait as int);
    lemma_int_decimal_without(wait as int, '"');
    let whole = server + a + key + b + ts + w + d;
    assert forall|i: int| 0 <= i < whole.len() implies whole[i] != '"' by {
        let l1 = server.len() as int;
        let l2 = l1 + a.len();
        let l3 = l2 + key.len();
        let l4 = l3 + b.len();
        let l5 = l4 + ts.len();
        let l6 = l5 + w.len();
        if i < l1 {
            assert(whole[i] == server[i]);
        } else if i < l2 {
            assert(whole[i] == a[i - l1]);
        } else if i < l3 {
            assert(whole[i] == key[i - l2]);
        } else if i < l4 {
            assert(whole[i] == b[i - l3]);
        } else if i < l5 {
            assert(whole[i] == ts[i - l4]);
        } else if i < l6 {
            assert(whole[i] == w[i - l5]);
        } else {
            assert(whole[i] == d[i - l6]);
        }
    }
    lemma_without_char_identity(whole, '"');
}

/// Polling never touches the server, key, wait or the start of polling.
pub proof fn law_poll_keeps_server(info: LongpollInfoView, data: JsonValue)
    ensures
        after_poll(info, data).key == info.key,
        after_poll(info, data).server == info.server,
        after_poll(info, data).wait == info.wait,
        after_poll(info, data).first_request == info.first_request,
{
}

/// A reply that renews the event number leaves the state at that event,
/// with an address that matches it; any other reply leaves the state as it was.
pub proof fn law_poll_renews_url(info: LongpollInfoView, data: JsonValue)
    requires
        !reply_unreadable(data),
    ensures
        match data {
            JsonValue::Object(entries) => if renews_ts(entries@) {
                &&& after_poll(info, data).ts == ts_text(entries@).unwrap()
                &&& after_poll(info, data).url_consistent()
            } else {
                after_poll(info, data) == info
            },
            _ => after_poll(info, data) == info,
        },
{
}

/// Once a server has been taken in, the poller polls, at an address that
/// matches that server.
pub proof fn law_started_polls(info: LongpollInfoView, key: Seq<char>, server: Seq<char>, ts: Seq<char>)
    ensures
        info.with_server(key, server, ts).with_fresh_url().started().first_request,
        info.with_server(key, server, ts).with_fresh_url().started().url_consistent(),
        info.with_server(key, server, ts).with_fresh_url().started().url == poll_url(
            server,
            key,
            ts,
            info.wait,
        ),
{
}

/// The event number a reply carries is the text of its first `ts` member,
/// unchanged, where that member is a string; otherwise it carries none.
pub proof fn law_ts_text_is_ts_member(entries: Seq<(String, JsonValue)>, i: int)
    requires
        0 <= i < entries.len(),
        entries[i].0@ == "ts"@,
        forall|j: int| 0 <= j < i ==> entries[j].0@ != "ts"@,
    ensures
        entries[i].1 matches JsonValue::String(s) ==> ts_text(entries) == Some(s@),
        !(entries[i].1 is String) ==> ts_text(entries) is None,
{
    lemma_first_key_index(entries, "ts"@, i);
}

/// The failure code of a reply is its first `failed` member read as an
/// `i64`; a reply without `failed` has none.
pub proof fn law_failed_code_is_failed_member(entries: Seq<(String, JsonValue)>)
    ensures
        forall|i: int|
            0 <= i < entries.len() && entries[i].0@ == "failed"@
                && (forall|j: int| 0 <= j < i ==> entries[j].0@ != "failed"@)
                ==> failed_code(entries) == (#[trigger] entries[i].1).spec_as_i64(),
        (forall|i: int| 0 <= i < entries.len() ==> #[trigger] entries[i].0@ != "failed"@)
            ==> failed_code(entries) is None && !has_key(entries, "failed"@),
{
    assert forall|i: int|
        0 <= i < entries.len() && entries[i].0@ == "failed"@
            && (forall|j: int| 0 <= j < i ==> entries[j].0@ != "failed"@)
            implies failed_code(entries) == (#[trigger] entries[i].1).spec_as_i64() by {
        lemma_first_key_index(entries, "failed"@, i);
    }
}

/// After a reply without `failed`, or with failure 1, whose first `ts`
/// member is the string `ts`, the state's event number is exactly `ts` and
/// the next poll goes to the same server with the same key from `ts` on.
pub proof fn law_poll_takes_reply_ts(
    info: LongpollInfoView,
    entries: Vec<(String, JsonValue)>,
    i: int,
    ts: String,
)
    requires
        0 <= i < entries@.len(),
        entries@[i].0@ == "ts"@,
        forall|j: int| 0 <= j < i ==> entries@[j].0@ != "ts"@,
        entries@[i].1 == JsonValue::String(ts),
        renews_ts(entries@),
    ensures
        after_poll(info, JsonValue::Object(entries)).ts == ts@,
        after_poll(info, JsonValue::Object(entries)).url == poll_url(
            info.server,
            info.key,
            ts@,
            info.wait,
        ),
        after_poll(info, JsonValue::Object(entries)).key == info.key,
        after_poll(info, JsonValue::Object(entries)).server == info.server,
{
    law_ts_text_is_ts_member(entries@, i);
}

/// A reply renews the event number exactly when it reports no failure or
/// failure 1.
pub proof fn law_renews_ts(entries: Seq<(String, JsonValue)>)
    ensures
        (forall|i: int| 0 <= i < entries.len() ==> #[trigger] entries[i].0@ != "failed"@)
            ==> renews_ts(entries),
        failed_code(entries) == Some(1i64) ==> renews_ts(entries),
        has_key(entries, "failed"@) && failed_code(entries) != Some(1i64) ==> !renews_ts(entries),
{
}

/// The poll address is `{server}?act=a_check&key={key}&ts={ts}&wait={wait}`
/// with exactly its `"` characters left out, the rest kept in order.
pub proof fn law_poll_url_drops_only_quotes(server: Seq<char>, key: Seq<char>, ts: Seq<char>, wait: i64)
    ensures
        poll_url(server, key, ts, wait) == (server + "?act=a_check&key="@ + key + "&ts="@ + ts
            + "&wait="@ + int_decimal(wait as int)).filter(|x: char| x != '"'),
{
    law_without_char_keeps_others(
        server + "?act=a_check&key="@ + key + "&ts="@ + ts + "&wait="@ + int_decimal(wait as int),
        '"',
    );
}

} // verus!
