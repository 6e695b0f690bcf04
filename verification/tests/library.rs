use vkwave::api::{
    answer_params, method_url, parse_response, prepare_api_params, APIError, APIErrorInner,
    ParsedResponse, VkwaveError, API_VERSION, MESSAGES_SEND_METHOD,
};
use vkwave::event::{get_text_from_event, instant_route, message_peer_id};
use vkwave::json::{find_key, JsonNumber, JsonValue};
use vkwave::longpoll::{
    server_request_params, BotLongpollInfo, GroupsGetLongpollServer, PollOutcome, PollRequest,
    LONGPOLL_SERVER_METHOD,
};
use vkwave::params::Params;
use vkwave::text::{i64_to_decimal, remove_char};
use vkwave::token::DefaultToken;

fn s(x: &str) -> String {
    x.to_string()
}

fn obj(members: Vec<(&str, JsonValue)>) -> JsonValue {
    JsonValue::Object(members.into_iter().map(|(k, v)| (k.to_string(), v)).collect())
}

fn jstr(x: &str) -> JsonValue {
    JsonValue::String(x.to_string())
}

fn jint(n: i64) -> JsonValue {
    if n < 0 {
        JsonValue::Number(JsonNumber::NegInt(n))
    } else {
        JsonValue::Number(JsonNumber::PosInt(n as u64))
    }
}

fn other_message(e: &VkwaveError) -> Option<String> {
    match e {
        VkwaveError::Other(m) => Some(m.clone()),
        _ => None,
    }
}

fn started_info() -> BotLongpollInfo {
    let mut info = BotLongpollInfo::default();
    info.apply_server_data(GroupsGetLongpollServer {
        key: s("abc"),
        server: s("https://lp.vk.com/wh1"),
        ts: s("10"),
    });
    info
}

#[test]
fn decimal_of_integers() {
    assert_eq!(i64_to_decimal(0), "0");
    assert_eq!(i64_to_decimal(25), "25");
    assert_eq!(i64_to_decimal(-7), "-7");
    assert_eq!(i64_to_decimal(1000), "1000");
    assert_eq!(i64_to_decimal(i64::MAX), i64::MAX.to_string());
    assert_eq!(i64_to_decimal(i64::MIN), i64::MIN.to_string());
}

#[test]
fn remove_char_takes_out_every_occurrence() {
    assert_eq!(remove_char("a\"b\"\"c", '"'), "abc");
    assert_eq!(remove_char("plain", '"'), "plain");
    assert_eq!(remove_char("", '"'), "");
    assert_eq!(remove_char("\"\"", '"'), "");
}

#[test]
fn remove_char_twice_is_once() {
    let once = remove_char("x\"y\"", '"');
    assert_eq!(remove_char(once.as_str(), '"'), once);
}

#[test]
fn params_insert_replaces_value() {
    let mut p = Params::new();
    assert!(p.get("v").is_none());
    p.insert("v", s("1"));
    p.insert("x", s("2"));
    p.insert("v", s("3"));
    assert_eq!(p.get("v").unwrap(), "3");
    assert_eq!(p.get("x").unwrap(), "2");
    assert_eq!(p.entries().len(), 2);
}

#[test]
fn read_after_write_law() {
    let mut p = Params::new();
    p.insert("peer_id", s("1"));
    let before_other = p.get("peer_id").cloned();
    p.insert("message", s("hi"));
    assert_eq!(p.get("message").unwrap(), "hi");
    assert_eq!(p.get("peer_id").cloned(), before_other);
}

#[test]
fn api_params_carry_token_and_version() {
    let mut p = Params::new();
    p.insert("group_id", s("42"));
    p.insert("v", s("1.0"));
    p.insert("access_token", s("old"));
    let sent = prepare_api_params(p, "SECRET-REDACTED");
    assert_eq!(sent.get("group_id").unwrap(), "42");
    assert_eq!(sent.get("access_token").unwrap(), "SECRET-REDACTED");
    assert_eq!(sent.get("v").unwrap(), "5.103");
    assert_eq!(API_VERSION, "5.103");
    assert_eq!(sent.entries().len(), 3);
}

#[test]
fn answer_params_of_message() {
    let p = answer_params(2000000001, s("ПОНГ!"));
    assert_eq!(p.get("peer_id").unwrap(), "2000000001");
    assert_eq!(p.get("message").unwrap(), "ПОНГ!");
    assert_eq!(p.get("random_id").unwrap(), "0");
    assert_eq!(p.entries().len(), 3);
}

#[test]
fn method_url_of_method() {
    assert_eq!(method_url(MESSAGES_SEND_METHOD), "https://api.vk.com/method/messages.send");
    assert_eq!(method_url(""), "https://api.vk.com/method/");
    assert_eq!(
        method_url(LONGPOLL_SERVER_METHOD),
        "https://api.vk.com/method/groups.getLongPollServer"
    );
}

#[test]
fn server_params_of_group() {
    let p = server_request_params("123");
    assert_eq!(p.get("group_id").unwrap(), "123");
    assert_eq!(p.entries().len(), 1);
}

#[test]
fn parse_response_takes_response() {
    let r = parse_response(obj(vec![("response", jint(5))]));
    match r {
        Ok(ParsedResponse::Response(v)) => assert!(matches!(v, JsonValue::Number(JsonNumber::PosInt(5)))),
        _ => panic!("expected a response"),
    }
}

#[test]
fn parse_response_prefers_response_over_error() {
    let r = parse_response(obj(vec![("error", jstr("e")), ("response", jstr("r"))]));
    match r {
        Ok(ParsedResponse::Response(JsonValue::String(x))) => assert_eq!(x, "r"),
        _ => panic!("expected the response"),
    }
}

#[test]
fn parse_response_takes_error() {
    let r = parse_response(obj(vec![("error", obj(vec![("error_code", jint(5))]))]));
    match r {
        Ok(ParsedResponse::Error(JsonValue::Object(e))) => assert_eq!(e[0].0, "error_code"),
        _ => panic!("expected an error"),
    }
}

#[test]
fn parse_response_refuses_neither() {
    let r = parse_response(obj(vec![("other", JsonValue::Null)]));
    match r {
        Err(e) => assert_eq!(other_message(&e).unwrap(), "API has returned neither error nor response"),
        _ => panic!("expected a refusal"),
    }
}

#[test]
fn parse_response_refuses_non_object() {
    let r = parse_response(JsonValue::Array(vec![]));
    match r {
        Err(e) => assert_eq!(other_message(&e).unwrap(), "API has returned not an object"),
        _ => panic!("expected a refusal"),
    }
}

#[test]
fn error_messages() {
    let api = VkwaveError::API(APIError {
        error: APIErrorInner {
            error_code: 5,
            error_msg: s("User authorization failed"),
            request_params: vec![],
        },
    });
    assert_eq!(api.message(), "[5] User authorization failed");
    let neg = VkwaveError::API(APIError {
        error: APIErrorInner { error_code: -1, error_msg: s("x"), request_params: vec![] },
    });
    assert_eq!(neg.message(), "[-1] x");
    assert_eq!(VkwaveError::Other(s("boom")).message(), "boom");
}

#[test]
fn default_info_waits_25_and_fetches_first() {
    let info = BotLongpollInfo::default();
    assert_eq!(info.wait(), 25);
    assert!(!info.first_request());
    assert_eq!(info.url(), "");
    assert!(matches!(info.next_request(), PollRequest::FetchServer));
}

#[test]
fn update_data_builds_url() {
    let mut info = BotLongpollInfo::default();
    info.update_data(GroupsGetLongpollServer {
        key: s("abc"),
        server: s("https://lp.vk.com/wh1"),
        ts: s("10"),
    });
    assert_eq!(info.url(), "https://lp.vk.com/wh1?act=a_check&key=abc&ts=10&wait=25");
    assert_eq!(info.key(), "abc");
    assert_eq!(info.server(), "https://lp.vk.com/wh1");
    assert_eq!(info.ts(), "10");
    assert!(!info.first_request());
}

#[test]
fn update_url_removes_quotes() {
    let mut info = BotLongpollInfo::default();
    info.update_data(GroupsGetLongpollServer {
        key: s("\"k\""),
        server: s("\"srv\""),
        ts: s("\"7\""),
    });
    assert_eq!(info.url(), "srv?act=a_check&key=k&ts=7&wait=25");
    assert!(!info.url().contains('"'));
}

#[test]
fn update_url_idempotent_law() {
    let mut info = started_info();
    let first = info.url().to_string();
    info.update_url();
    assert_eq!(info.url(), first);
}

#[test]
fn apply_server_data_starts_polling() {
    let info = started_info();
    assert!(info.first_request());
    match info.next_request() {
        PollRequest::Poll(url) => {
            assert_eq!(url, "https://lp.vk.com/wh1?act=a_check&key=abc&ts=10&wait=25")
        }
        PollRequest::FetchServer => panic!("expected a poll"),
    }
}

#[test]
fn poll_yields_updates_and_renews_ts() {
    let mut info = started_info();
    let reply = obj(vec![("ts", jstr("11")), ("updates", JsonValue::Array(vec![jint(1), jint(2)]))]);
    match info.handle_poll_response(reply) {
        PollOutcome::Updates(u) => assert_eq!(u.len(), 2),
        _ => panic!("expected updates"),
    }
    assert_eq!(info.ts(), "11");
    assert_eq!(info.url(), "https://lp.vk.com/wh1?act=a_check&key=abc&ts=11&wait=25");
    assert_eq!(info.key(), "abc");
    assert_eq!(info.server(), "https://lp.vk.com/wh1");
    assert_eq!(info.wait(), 25);
    assert!(info.first_request());
}

#[test]
fn poll_without_updates_list_fails() {
    let mut info = started_info();
    let reply = obj(vec![("ts", jstr("12")), ("updates", jstr("none"))]);
    match info.handle_poll_response(reply) {
        PollOutcome::Failed(e) => {
            assert_eq!(other_message(&e).unwrap(), "Longpoll returned not a list of values")
        }
        _ => panic!("expected a failure"),
    }
    assert_eq!(info.ts(), "12");
}

#[test]
fn poll_non_object_fails() {
    let mut info = started_info();
    match info.handle_poll_response(JsonValue::Null) {
        PollOutcome::Failed(e) => assert_eq!(other_message(&e).unwrap(), "Longpoll returned not an object"),
        _ => panic!("expected a failure"),
    }
    assert_eq!(info.ts(), "10");
}

#[test]
fn poll_failed_1_renews_ts_and_retries() {
    let mut info = started_info();
    let reply = obj(vec![("failed", jint(1)), ("ts", jstr("30"))]);
    assert!(matches!(info.handle_poll_response(reply), PollOutcome::Retry));
    assert_eq!(info.ts(), "30");
    assert_eq!(info.url(), "https://lp.vk.com/wh1?act=a_check&key=abc&ts=30&wait=25");
}

#[test]
fn poll_failed_2_and_3_refresh_server() {
    let mut info = started_info();
    let reply = obj(vec![("failed", jint(2))]);
    assert!(matches!(info.handle_poll_response(reply), PollOutcome::RefreshServer));
    let reply = obj(vec![("failed", jint(3))]);
    assert!(matches!(info.handle_poll_response(reply), PollOutcome::RefreshServer));
    assert_eq!(info.ts(), "10");
}

#[test]
fn poll_failed_other_codes() {
    let mut info = started_info();
    let reply = obj(vec![("failed", jint(4))]);
    match info.handle_poll_response(reply) {
        PollOutcome::Failed(e) => assert_eq!(other_message(&e).unwrap(), "Unknown code of fail"),
        _ => panic!("expected a failure"),
    }
    let reply = obj(vec![("failed", jstr("1"))]);
    match info.handle_poll_response(reply) {
        PollOutcome::Failed(e) => assert_eq!(other_message(&e).unwrap(), "Failed code is not a i64"),
        _ => panic!("expected a failure"),
    }
    let reply = obj(vec![("failed", JsonValue::Number(JsonNumber::PosInt(u64::MAX)))]);
    assert!(matches!(info.handle_poll_response(reply), PollOutcome::Failed(_)));
    assert_eq!(info.ts(), "10");
}

#[test]
fn handle_error_codes() {
    let mut info = started_info();
    let data = vec![(s("ts"), jstr("55"))];
    assert!(matches!(info.handle_error(1, &data), PollOutcome::Retry));
    assert_eq!(info.ts(), "55");
    assert!(matches!(info.handle_error(2, &vec![]), PollOutcome::RefreshServer));
    assert!(matches!(info.handle_error(-3, &vec![]), PollOutcome::Failed(_)));
    assert_eq!(info.ts(), "55");
}

#[test]
fn json_lookup_takes_first_member() {
    let v = obj(vec![("a", jint(1)), ("a", jint(2)), ("b", JsonValue::Bool(true))]);
    assert!(matches!(v.get("a"), Some(JsonValue::Number(JsonNumber::PosInt(1)))));
    assert!(matches!(v.get("b"), Some(JsonValue::Bool(true))));
    assert!(v.get("c").is_none());
    assert!(jint(3).get("a").is_none());
    if let JsonValue::Object(e) = &v {
        assert_eq!(find_key(e, "b"), Some(2));
        assert_eq!(find_key(e, "z"), None);
    }
}

#[test]
fn json_number_as_i64() {
    assert_eq!(jint(-5).as_i64(), Some(-5));
    assert_eq!(jint(7).as_i64(), Some(7));
    assert_eq!(JsonValue::Number(JsonNumber::PosInt(i64::MAX as u64 + 1)).as_i64(), None);
    assert_eq!(JsonValue::Number(JsonNumber::Float(s("1.5"))).as_i64(), None);
    assert_eq!(jstr("7").as_i64(), None);
    assert_eq!(jstr("7").as_str(), Some("7"));
}

fn message_event(text: &str, peer_id: i64) -> JsonValue {
    obj(vec![
        ("type", jstr("message_new")),
        (
            "object",
            obj(vec![("message", obj(vec![("text", jstr(text)), ("peer_id", jint(peer_id))]))]),
        ),
    ])
}

#[test]
fn text_and_peer_of_event() {
    let ev = message_event("!пинг", 2000000001);
    assert_eq!(get_text_from_event(&ev), "!пинг");
    assert_eq!(message_peer_id(&ev), 2000000001);
}

#[test]
fn instant_route_picks_first_match() {
    let routes = vec![vec![s("!пинг")], vec![s("a"), s("b")], vec![s("b")]];
    assert_eq!(instant_route(&routes, "!пинг"), Some(0));
    assert_eq!(instant_route(&routes, "b"), Some(1));
    assert_eq!(instant_route(&routes, "c"), None);
    assert_eq!(instant_route(&vec![], "c"), None);
}

#[test]
fn token_stored_as_given() {
    assert_eq!(DefaultToken::from_string(s("abc")).token(), "abc");
    assert_eq!(DefaultToken::from_string(s("")).token(), "");
    assert_eq!(DefaultToken::from_string(s(" x ")).token(), " x ");
    assert_eq!(*DefaultToken::from_string(s("abc")).shared_token(), "abc");
    let t: DefaultToken = DefaultToken::from("via-from");
    assert_eq!(t.token(), "via-from");
}

#[test]
fn default_token_keeps_token() {
    let t = DefaultToken::new("token-value");
    assert_eq!(t.token(), "token-value");
    let t = DefaultToken::new(s("other"));
    assert_eq!(t.token(), "other");
}
