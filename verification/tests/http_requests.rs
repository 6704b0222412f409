//! Tests for the HTTP pipeline decisions, token normalization, and the
//! endpoint builders.

use discord_core::http::pipeline::{
    base_headers, full_headers, interpret_status, request_url, response_outcome, ApiError,
    ClientState, ContentKind, HttpError, ResponseOutcome, StatusDisposition,
};
use discord_core::request::multipart::{form_content_type, multipart_form};
use discord_core::http::token::normalize_token;
use discord_core::request::channel::{
    CreateStageInstance, DeleteAllReaction, DeleteReaction, GetChannelMessagesConfigured,
    GetInvite, GetReactions, RequestReactionType, UpdateStageInstance,
};
use discord_core::request::guild::{
    AddGuildMember, AddRoleToMember, GetEmoji, GetEmojis, GetGuildMembers, GetGuildWelcomeScreen,
    SearchGuildMembers, SearchGuildMembersError, UpdateGuild, UpdateGuildMember, UpdateGuildWidget,
};
use discord_core::request::webhook::{
    Embed, ExecuteWebhookAndWait, UpdateWebhookMessage, UpdateWebhookWithToken, embed_within_limit,
};
use discord_core::gateway::session::{DispatchKind, GatewayEvent, Session};
use discord_core::request::Method;
use discord_core::text::{parse_u64_dec, u64_to_dec};

#[test]
fn token_normalization() {
    // a bare token gains the bot prefix; prefixed tokens pass unchanged
    assert_eq!("Bot abc", normalize_token(String::from("abc")));
    assert_eq!("Bot abc", normalize_token(String::from("Bot abc")));
    assert_eq!("Bearer abc", normalize_token(String::from("Bearer abc")));
    // normalizing twice changes nothing further
    assert_eq!(
        "Bot abc",
        normalize_token(normalize_token(String::from("abc")))
    );
}

#[test]
fn unauthorized_latch_is_permanent() {
    // the 401 scenario: after one unauthorized response nothing is sent again
    let mut state = ClientState::new(String::from("abc"));
    assert!(state.check_token().is_ok());
    state.record_status(200);
    assert!(state.check_token().is_ok());
    state.record_status(401);
    assert!(state.check_token().is_err());
    // later successes do not reopen the latch
    state.record_status(200);
    assert!(state.check_token().is_err());
}

#[test]
fn request_url_formats() {
    let state = ClientState::new(String::from("abc"));
    assert_eq!(
        "https://discord.com/api/v8/guilds/1",
        request_url(&state, "guilds/1")
    );
    let mut proxied = ClientState::new(String::from("abc"));
    proxied.proxy = Some(String::from("proxy.example"));
    proxied.use_http = true;
    assert_eq!(
        "http://proxy.example/api/v8/guilds/1",
        request_url(&proxied, "guilds/1")
    );
}

#[test]
fn base_headers_include_auth_and_content() {
    let state = ClientState::new(String::from("abc"));
    let headers = base_headers(&state, true, ContentKind::Json { length: 17 });
    assert_eq!(
        ("authorization".to_string(), "Bot abc".to_string()),
        headers[0]
    );
    assert_eq!(
        ("content-type".to_string(), "application/json".to_string()),
        headers[1]
    );
    assert_eq!(
        ("content-length".to_string(), "17".to_string()),
        headers[2]
    );
    assert_eq!("user-agent", headers[3].0);

    let headers = base_headers(&state, false, ContentKind::NoBody { set_zero_length: true });
    assert_eq!(("content-length".to_string(), "0".to_string()), headers[0]);
}

#[test]
fn status_interpretation() {
    assert_eq!(StatusDisposition::Success, interpret_status(200));
    assert_eq!(StatusDisposition::Success, interpret_status(204));
    assert_eq!(StatusDisposition::Unauthorized, interpret_status(401));
    assert_eq!(StatusDisposition::ServiceUnavailable, interpret_status(503));
    assert_eq!(StatusDisposition::RateLimited, interpret_status(429));
    assert_eq!(StatusDisposition::Failure, interpret_status(404));
    assert_eq!(StatusDisposition::Failure, interpret_status(500));
}

#[test]
fn decimal_roundtrip() {
    assert_eq!("0", u64_to_dec(0));
    assert_eq!("18446744073709551615", u64_to_dec(u64::MAX));
    assert_eq!(Some(12345), parse_u64_dec("12345"));
    assert_eq!(Some(u64::MAX), parse_u64_dec("18446744073709551615"));
    assert_eq!(None, parse_u64_dec("18446744073709551616"));
    assert_eq!(None, parse_u64_dec(""));
    assert_eq!(None, parse_u64_dec("12a"));
}

#[test]
fn encoding_wrappers_transform() {
    assert_eq!(
        "https%3A%2F%2Fexample.com%2F",
        discord_core::encoding::url_encode("https://example.com/")
    );
    assert_eq!(
        "foo%20bar%3F",
        discord_core::encoding::percent_encode_non_alnum("foo bar?")
    );
    assert_eq!(
        Ok(String::from("https://example.com/")),
        discord_core::encoding::parse_url("https://example.com")
    );
    assert!(discord_core::encoding::parse_url("not a url").is_err());
}

#[test]
fn channel_messages_request_paths() {
    let req = GetChannelMessagesConfigured::new(123, None, None, Some(234), None)
        .limit(6)
        .unwrap()
        .request();
    assert_eq!(Method::Get, req.method);
    assert_eq!("channels/123/messages?before=234&limit=6", req.path);
    assert_eq!("channels/123/messages", req.bucket_path);
    assert!(req.body.is_none());
    assert!(GetChannelMessagesConfigured::new(1, None, None, None, None)
        .limit(0)
        .is_err());
    assert!(GetChannelMessagesConfigured::new(1, None, None, None, None)
        .limit(101)
        .is_err());
}

#[test]
fn reactions_request_paths() {
    let emoji = RequestReactionType::Unicode { name: String::from("🌃") };
    let req = GetReactions::new(123, 456, &emoji).limit(25).unwrap().request();
    assert_eq!(
        "channels/123/messages/456/reactions/%F0%9F%8C%83?limit=25",
        req.path
    );
    assert!(GetReactions::new(1, 2, &emoji).limit(0).is_err());

    let custom = RequestReactionType::Custom { id: 600, name: Some(String::from("party")) };
    let req = DeleteReaction::new(1, 2, &custom, String::from("@me")).request();
    assert_eq!("channels/1/messages/2/reactions/party:600/@me", req.path);
    assert_eq!(Method::Delete, req.method);

    let req = DeleteAllReaction::new(1, 2, &custom).request();
    assert_eq!("channels/1/messages/2/reactions/party:600", req.path);
}

#[test]
fn invite_request_path() {
    let req = GetInvite::new(String::from("code")).with_counts().request();
    assert_eq!("invites/code?with_counts=true&with_expiration=false", req.path);
    assert_eq!("invites/code", req.bucket_path);
}

#[test]
fn stage_instance_requests() {
    let topic_too_long: String = std::iter::repeat('a').take(121).collect();
    assert!(CreateStageInstance::new(1, topic_too_long.clone()).is_err());
    assert!(CreateStageInstance::new(1, String::new()).is_err());

    let req = CreateStageInstance::new(1, String::from("topic"))
        .unwrap()
        .privacy_level(2)
        .request();
    assert_eq!(Method::Post, req.method);
    assert_eq!("stage-instances", req.path);
    assert_eq!(
        br#"{"channel_id":"1","topic":"topic","privacy_level":2}"#.to_vec(),
        req.body.unwrap()
    );

    assert!(UpdateStageInstance::new(1, topic_too_long).is_err());
    let req = UpdateStageInstance::new(1, String::from("new topic")).unwrap().request();
    assert_eq!(Method::Patch, req.method);
    assert_eq!("stage-instances/1", req.path);
    assert_eq!(br#"{"topic":"new topic"}"#.to_vec(), req.body.unwrap());
}

#[test]
fn guild_member_requests() {
    let req = AddGuildMember::new(1, 2, String::from("token"))
        .nick(String::from("foo"))
        .unwrap()
        .roles(vec![3, 4])
        .request();
    assert_eq!(Method::Put, req.method);
    assert_eq!("guilds/1/members/2", req.path);
    assert_eq!(
        br#"{"access_token":"token","nick":"foo","roles":["3","4"]}"#.to_vec(),
        req.body.unwrap()
    );
    let long_nick: String = std::iter::repeat('a').take(33).collect();
    assert!(AddGuildMember::new(1, 2, String::from("t")).nick(long_nick).is_err());

    let req = GetGuildMembers::new(100).after(3000).limit(500).unwrap().request();
    assert_eq!("guilds/100/members?after=3000&limit=500", req.path);
    assert!(GetGuildMembers::new(1).limit(0).is_err());
    assert!(GetGuildMembers::new(1).limit(1001).is_err());

    let req = SearchGuildMembers::new(100, String::from("Wu mpus")).limit(10).unwrap().request();
    assert_eq!("guilds/100/members/search?query=Wu%20mpus&limit=10", req.path);
    assert!(matches!(
        SearchGuildMembers::new(1, String::from("q")).limit(0),
        Err(SearchGuildMembersError::LimitInvalid { limit: 0 })
    ));
}

#[test]
fn update_guild_member_test_request() {
    let builder = UpdateGuildMember::new(1, 2)
        .deaf(true)
        .mute(true)
        .nick(Some(String::from("foo")))
        .unwrap();
    let req = builder.request();
    assert_eq!(
        br#"{"deaf":true,"mute":true,"nick":"foo"}"#.to_vec(),
        req.body.unwrap()
    );
    assert_eq!("guilds/1/members/2", req.path);
}

#[test]
fn update_guild_member_validates_nick() {
    let long_nick: String = std::iter::repeat('a').take(33).collect();
    assert!(UpdateGuildMember::new(1, 2).nick(Some(long_nick)).is_err());
    // clearing the nickname needs no validation
    let req = UpdateGuildMember::new(1, 2).nick(None).unwrap().request();
    assert_eq!(br#"{"nick":null}"#.to_vec(), req.body.unwrap());
}

#[test]
fn add_role_to_member_request() {
    let req = AddRoleToMember::new(1, 3, 2)
        .reason(String::from("test"))
        .unwrap()
        .request();
    assert_eq!(Method::Put, req.method);
    assert_eq!("guilds/1/members/3/roles/2", req.path);
    assert_eq!(("x-audit-log-reason".to_string(), "test".to_string()), req.headers[0]);

    let req = AddRoleToMember::new(1, 3, 2)
        .reason(String::from("two words"))
        .unwrap()
        .request();
    assert_eq!("two%20words", req.headers[0].1);
}

#[test]
fn update_guild_request_body() {
    let req = UpdateGuild::new(5)
        .name(String::from("new name"))
        .unwrap()
        .afk_channel_id(None)
        .verification_level(Some(3))
        .request();
    assert_eq!(Method::Patch, req.method);
    assert_eq!("guilds/5", req.path);
    assert_eq!(
        br#"{"afk_channel_id":null,"name":"new name","verification_level":3}"#.to_vec(),
        req.body.unwrap()
    );
    assert!(UpdateGuild::new(5).name(String::from("x")).is_err());
}

#[test]
fn guild_read_requests() {
    assert_eq!("guilds/1/welcome-screen", GetGuildWelcomeScreen::new(1).request().path);
    assert_eq!("guilds/50/emojis/100", GetEmoji::new(50, 100).request().path);
    assert_eq!("guilds/50/emojis", GetEmojis::new(50).request().path);
    let req = UpdateGuildWidget::new(1).channel_id(Some(2)).enabled(true).request();
    assert_eq!("guilds/1/widget", req.path);
    assert_eq!(
        br#"{"channel_id":"2","enabled":true}"#.to_vec(),
        req.body.unwrap()
    );
}

#[test]
fn update_webhook_message_test_request() {
    let builder = UpdateWebhookMessage::new(1, String::from("token"), 2)
        .content(Some(String::from("test")))
        .expect("'test' content couldn't be set")
        .reason(String::from("reason"))
        .expect("'reason' is not a valid reason");
    let actual = builder.request();

    assert_eq!(br#"{"content":"test"}"#.to_vec(), actual.body.unwrap());
    assert_eq!("webhooks/1/token/messages/2", actual.path);
    assert!(!actual.use_authorization_token);
}

#[test]
fn webhook_message_validation() {
    let long_content: String = std::iter::repeat('a').take(2001).collect();
    assert!(UpdateWebhookMessage::new(1, String::from("t"), 2)
        .content(Some(long_content))
        .is_err());

    let small = Embed {
        title: Some(String::from("t")),
        description: None,
        footer_text: None,
        author_name: None,
        fields: Vec::new(),
    };
    assert!(embed_within_limit(&small));
    let big = Embed {
        title: Some(std::iter::repeat('a').take(3000).collect()),
        description: Some(std::iter::repeat('b').take(3001).collect()),
        footer_text: None,
        author_name: None,
        fields: Vec::new(),
    };
    assert!(!embed_within_limit(&big));
    let eleven: Vec<Embed> = (0..11).map(|_| small_embed()).collect();
    assert!(UpdateWebhookMessage::new(1, String::from("t"), 2).embeds(Some(eleven)).is_err());
    assert!(UpdateWebhookMessage::new(1, String::from("t"), 2)
        .embeds(Some(vec![big]))
        .is_err());
}

fn small_embed() -> Embed {
    Embed {
        title: Some(String::from("t")),
        description: None,
        footer_text: None,
        author_name: None,
        fields: Vec::new(),
    }
}

#[test]
fn webhook_message_embeds_serialized() {
    let embed = Embed {
        title: Some(String::from("Title")),
        description: Some(String::from("Desc")),
        footer_text: None,
        author_name: Some(String::from("Me")),
        fields: vec![(String::from("n"), String::from("v"))],
    };
    let req = UpdateWebhookMessage::new(1, String::from("token"), 2)
        .embeds(Some(vec![embed]))
        .unwrap()
        .request();
    let expected = br#"{"embeds":[{"title":"Title","description":"Desc","author":{"name":"Me"},"fields":[{"name":"n","value":"v"}]}]}"#;
    assert_eq!(expected.to_vec(), req.body.unwrap());
}

#[test]
fn webhook_with_token_request() {
    let req = UpdateWebhookWithToken::new(1, String::from("token"))
        .name(String::from("hook"))
        .request();
    assert_eq!("webhooks/1/token", req.path);
    assert!(!req.use_authorization_token);
    assert_eq!(br#"{"name":"hook"}"#.to_vec(), req.body.unwrap());
}

#[test]
fn execute_webhook_and_wait_request() {
    let req = ExecuteWebhookAndWait::new(1, String::from("token"), br#"{"content":"hi"}"#.to_vec())
        .request();
    assert_eq!("webhooks/1/token?wait=true", req.path);
    assert_eq!(Method::Post, req.method);
    assert_eq!(br#"{"content":"hi"}"#.to_vec(), req.body.unwrap());
}

#[test]
fn json_escaping_in_bodies() {
    let req = UpdateWebhookMessage::new(1, String::from("t"), 2)
        .content(Some(String::from("say \"hi\" \\ done")))
        .unwrap()
        .request();
    assert_eq!(
        br#"{"content":"say \"hi\" \\ done"}"#.to_vec(),
        req.body.unwrap()
    );
}

#[test]
fn method_names() {
    assert_eq!("DELETE", Method::Delete.name());
    assert_eq!("GET", Method::Get.name());
    assert_eq!("PATCH", Method::Patch.name());
    assert_eq!("POST", Method::Post.name());
    assert_eq!("PUT", Method::Put.name());
    assert!(Method::Put.requires_zero_length());
    assert!(!Method::Get.requires_zero_length());
}

#[test]
fn default_headers_win_last() {
    let mut state = ClientState::new(String::from("abc"));
    state
        .default_headers
        .push(("x-trace".to_string(), "on".to_string()));
    let extra = vec![("x-request".to_string(), "7".to_string())];
    let headers = full_headers(&state, false, ContentKind::NoBody { set_zero_length: false }, &extra);
    // base headers first, then the request's own, then the defaults last
    assert_eq!(("user-agent".to_string(), headers[0].1.clone()), headers[0]);
    assert_eq!(("x-request".to_string(), "7".to_string()), headers[1]);
    assert_eq!(("x-trace".to_string(), "on".to_string()), headers[2]);
    assert_eq!(3, headers.len());
}

#[test]
fn response_outcomes() {
    let body = b"ok".to_vec();
    assert!(matches!(
        response_outcome(200, body.clone(), None),
        ResponseOutcome::Success { body: b } if b == body
    ));
    assert!(matches!(
        response_outcome(429, body.clone(), None),
        ResponseOutcome::RetryAfterGlobal
    ));
    assert!(matches!(
        response_outcome(401, body.clone(), None),
        ResponseOutcome::Fail { error: HttpError::Unauthorized }
    ));
    assert!(matches!(
        response_outcome(503, body.clone(), None),
        ResponseOutcome::Fail { error: HttpError::ServiceUnavailable { body: b } } if b == body
    ));
    let envelope = ApiError { code: 10008, message: String::from("Unknown Message") };
    assert!(matches!(
        response_outcome(404, body.clone(), Some(envelope)),
        ResponseOutcome::Fail { error: HttpError::Response { status: 404, error: Some(e), .. } }
            if e.code == 10008 && e.message == "Unknown Message"
    ));
    assert!(matches!(
        response_outcome(500, body.clone(), None),
        ResponseOutcome::Fail { error: HttpError::Parsing { body: b } } if b == body
    ));
}

#[test]
fn multipart_form_bytes() {
    let files = vec![(String::from("a.txt"), b"hi".to_vec())];
    let payload = b"{}".to_vec();
    let form = multipart_form("B", &files, Some(&payload));
    let expected = b"--B\r\nContent-Disposition: form-data; name=\"0\"; filename=\"a.txt\"\r\n\r\nhi\r\n--B\r\nContent-Disposition: form-data; name=\"payload_json\"\r\n\r\n{}\r\n--B--\r\n";
    assert_eq!(expected.to_vec(), form);
    assert_eq!("multipart/form-data; boundary=B", form_content_type("B"));
}

#[test]
fn information_carries_session_state() {
    let mut session = Session::new(3, 4, None);
    session.process_event(
        GatewayEvent::Dispatch {
            sequence: 9,
            kind: DispatchKind::Ready { session_id: String::from("S") },
        },
        0,
    );
    session.latency = vec![4, 6];
    let info = session.info();
    assert_eq!(Some(String::from("S")), info.session_id);
    assert_eq!(Some(9), info.sequence);
    assert_eq!(vec![4, 6], info.latency_recent);
    assert_eq!(Some(5), info.latency_average);
}
