use authvaultix::client::{failure_message, AuthVaultixCore};
use authvaultix::{
    ApiResponse, AuthVaultix, BasicResponse, ChatHistoryResponse, ChatMessage, ChatResponse,
    ChatSendOutcome, CoreError, DataResponse, OnlineResponse, OnlineUser, PayloadBuilder,
    Subscription, UserInfo, VarResponse,
};

fn pairs(v: &[(&str, &str)]) -> Vec<(String, String)> {
    v.iter().map(|(k, x)| (k.to_string(), x.to_string())).collect()
}

fn sorted(mut v: Vec<(String, String)>) -> Vec<(String, String)> {
    v.sort();
    v
}

fn ready_core(session: Option<&str>) -> AuthVaultixCore {
    let mut c = AuthVaultixCore::new("App", "owner1", "s3cret", "1.0").unwrap();
    let r = c.apply_init(ApiResponse {
        success: true,
        message: None,
        sessionid: session.map(|s| s.to_string()),
        info: None,
    });
    assert_eq!(r, Ok(()));
    c
}

#[test]
fn payload_new_holds_type() {
    let f = PayloadBuilder::new("init").compile();
    assert_eq!(f, pairs(&[("type", "init")]));
}

#[test]
fn payload_later_value_wins() {
    let f = PayloadBuilder::new("log")
        .with_value("message", "a")
        .with_value("pcuser", "bob")
        .with_value("message", "b")
        .compile();
    assert_eq!(f, pairs(&[("type", "log"), ("message", "b"), ("pcuser", "bob")]));
}

#[test]
fn payload_context_with_and_without_session() {
    let sid = "sess".to_string();
    let f = PayloadBuilder::new("check").with_context("App", "own", Some(&sid)).compile();
    assert_eq!(
        f,
        pairs(&[("type", "check"), ("name", "App"), ("ownerid", "own"), ("sessionid", "sess")])
    );
    let g = PayloadBuilder::new("check").with_context("App", "own", None).compile();
    assert_eq!(g, pairs(&[("type", "check"), ("name", "App"), ("ownerid", "own")]));
}

#[test]
fn new_refuses_empty_credentials() {
    assert_eq!(AuthVaultixCore::new("", "o", "s", "1").err(), Some(CoreError::NotSetUp));
    assert_eq!(AuthVaultixCore::new("a", "o", "s", "").err(), Some(CoreError::NotSetUp));
    assert_eq!(AuthVaultix::new("a", "", "s", "1").err(), Some(CoreError::NotSetUp));
    let c = AuthVaultixCore::new("a", "o", "s", "1").unwrap();
    assert!(!c.initialized);
    assert!(c.sessionid.is_none());
    assert!(c.current_user.is_none());
}

#[test]
fn init_form_then_no_second_init() {
    let c = AuthVaultixCore::new("App", "owner1", "s3cret", "1.0").unwrap();
    let f = c.init().unwrap();
    assert_eq!(
        f,
        pairs(&[("type", "init"), ("ver", "1.0"), ("name", "App"), ("ownerid", "owner1")])
    );
    let c2 = ready_core(Some("abc"));
    assert!(c2.initialized);
    assert_eq!(c2.sessionid.as_deref(), Some("abc"));
    assert!(c2.init().is_none());
}

#[test]
fn init_failure_keeps_state_and_explains() {
    let mut c = AuthVaultixCore::new("App", "o", "s", "1").unwrap();
    let r = c.apply_init(ApiResponse { success: false, message: None, sessionid: Some("x".into()), info: None });
    assert_eq!(r, Err("Unknown error".to_string()));
    assert!(!c.initialized);
    assert!(c.sessionid.is_none());
    let r2 = c.apply_init(ApiResponse { success: false, message: Some("bad app".into()), sessionid: None, info: None });
    assert_eq!(r2, Err("bad app".to_string()));
}

#[test]
fn init_success_without_session_keeps_none() {
    let c = ready_core(None);
    assert!(c.initialized);
    assert!(c.sessionid.is_none());
}

#[test]
fn requests_refused_before_init() {
    let c = AuthVaultixCore::new("App", "o", "s", "1").unwrap();
    assert_eq!(c.authenticate_user("u", "p", "h").err(), Some(CoreError::NotInitialized));
    assert_eq!(c.validate_session().err(), Some(CoreError::NotInitialized));
    assert_eq!(c.send_log("m", None).err(), Some(CoreError::NotInitialized));
    assert_eq!(c.retrieve_chat_history("general").err(), Some(CoreError::NotInitialized));
    assert_eq!(c.terminate_session().err(), Some(CoreError::NotInitialized));
}

#[test]
fn login_form_carries_context() {
    let c = ready_core(Some("abc"));
    let f = c.authenticate_user("johndoe", "pw", "S-1-5").unwrap();
    assert_eq!(
        sorted(f),
        sorted(pairs(&[
            ("type", "login"),
            ("name", "App"),
            ("ownerid", "owner1"),
            ("sessionid", "abc"),
            ("username", "johndoe"),
            ("pass", "pw"),
            ("hwid", "S-1-5"),
        ]))
    );
}

#[test]
fn register_and_license_forms() {
    let c = ready_core(None);
    let f = c.register_account("u", "p", "KEY-1", "e@x", "H").unwrap();
    assert_eq!(
        f,
        pairs(&[
            ("type", "register"),
            ("name", "App"),
            ("ownerid", "owner1"),
            ("username", "u"),
            ("pass", "p"),
            ("key", "KEY-1"),
            ("email", "e@x"),
            ("hwid", "H"),
        ])
    );
    let g = c.license_access("KEY-2", "H").unwrap();
    assert_eq!(
        g,
        pairs(&[("type", "license"), ("name", "App"), ("ownerid", "owner1"), ("key", "KEY-2"), ("hwid", "H")])
    );
}

#[test]
fn check_needs_session() {
    let c = ready_core(None);
    assert_eq!(c.validate_session().err(), Some(CoreError::SessionMissing));
    let d = ready_core(Some("s1"));
    let f = d.validate_session().unwrap();
    assert_eq!(
        f,
        pairs(&[("type", "check"), ("name", "App"), ("ownerid", "owner1"), ("sessionid", "s1")])
    );
}

#[test]
fn log_user_defaults_to_unknown() {
    let c = ready_core(None);
    let f = c.send_log("hello", None).unwrap();
    assert!(f.contains(&("pcuser".to_string(), "Unknown".to_string())));
    assert!(f.contains(&("message".to_string(), "hello".to_string())));
    let g = c.send_log("hello", Some("alice")).unwrap();
    assert!(g.contains(&("pcuser".to_string(), "alice".to_string())));
}

#[test]
fn other_request_forms() {
    let c = ready_core(Some("z"));
    let base = |t: &str| {
        vec![
            ("type".to_string(), t.to_string()),
            ("name".to_string(), "App".to_string()),
            ("ownerid".to_string(), "owner1".to_string()),
            ("sessionid".to_string(), "z".to_string()),
        ]
    };
    let with = |t: &str, extra: &[(&str, &str)]| {
        let mut v = base(t);
        v.extend(pairs(extra));
        v
    };
    assert_eq!(c.retrieve_file("f1").unwrap(), with("file", &[("fileid", "f1")]));
    assert_eq!(c.get_online_clients().unwrap(), base("fetchonline"));
    assert_eq!(c.enforce_ban("cheat").unwrap(), with("ban", &[("reason", "cheat")]));
    assert_eq!(c.terminate_session().unwrap(), base("logout"));
    assert_eq!(c.update_username("neo").unwrap(), with("changeusername", &[("newUsername", "neo")]));
    assert_eq!(c.verify_blacklist("H").unwrap(), with("checkblacklist", &[("hwid", "H")]));
    assert_eq!(c.apply_upgrade("u", "K").unwrap(), with("upgrade", &[("username", "u"), ("key", "K")]));
    assert_eq!(c.trigger_password_reset("u", "e").unwrap(), with("forgot", &[("username", "u"), ("email", "e")]));
    assert_eq!(c.fetch_global_variable("v1").unwrap(), with("var", &[("varid", "v1")]));
    assert_eq!(c.fetch_user_variable("color").unwrap(), with("getvar", &[("var", "color")]));
    assert_eq!(c.update_user_variable("color", "red").unwrap(), with("setvar", &[("var", "color"), ("data", "red")]));
    assert_eq!(c.transmit_chat_message("hi", "general").unwrap(), with("chatsend", &[("message", "hi"), ("channel", "general")]));
    assert_eq!(c.retrieve_chat_history("general").unwrap(), with("chatfetch", &[("channel", "general")]));
}

#[test]
fn auth_failure_explains() {
    let mut c = ready_core(Some("s"));
    let r = c.handle_auth_response(ApiResponse { success: false, message: Some("Invalid password".into()), sessionid: None, info: None });
    assert_eq!(r, Err("Invalid password".to_string()));
    assert!(c.current_user.is_none());
    let r2 = c.handle_auth_response(ApiResponse { success: false, message: None, sessionid: None, info: None });
    assert_eq!(r2, Err("Unknown error".to_string()));
}

#[test]
fn auth_success_sets_user_and_reports() {
    let mut c = ready_core(Some("s"));
    let info = UserInfo {
        username: "johndoe".into(),
        ip: Some("1.2.3.4".into()),
        hwid: None,
        createdate: Some("unknown".into()),
        lastlogin: None,
        subscriptions: Some(vec![Subscription {
            subscription: "default".into(),
            key: None,
            expiry: "never".into(),
            timeleft: 20757600,
        }]),
    };
    let r = c.handle_auth_response(ApiResponse { success: true, message: None, sessionid: None, info: Some(info) });
    let lines = r.unwrap();
    assert_eq!(
        lines,
        vec![
            "\n=== User Data ===".to_string(),
            "Username: johndoe".to_string(),
            "IP: 1.2.3.4".to_string(),
            "Created: unknown".to_string(),
            "\nSubscriptions:".to_string(),
            "[1] default | Expiry: never | Timeleft: 240d 6h 0m".to_string(),
            String::new(),
        ]
    );
    assert_eq!(c.current_user.as_ref().map(|u| u.username.clone()), Some("johndoe".to_string()));
    assert_eq!(c.sessionid.as_deref(), Some("s"));
}

#[test]
fn auth_success_without_info_reports_nothing() {
    let mut c = ready_core(None);
    let r = c.handle_auth_response(ApiResponse { success: true, message: None, sessionid: None, info: None });
    assert_eq!(r, Ok(Vec::new()));
    assert!(c.current_user.is_none());
}

#[test]
fn session_end_requires_new_init() {
    let mut c = ready_core(Some("s"));
    assert!(!c.apply_session_end(&BasicResponse { success: false, message: None, sessionid: None }));
    assert!(c.initialized);
    assert_eq!(c.sessionid.as_deref(), Some("s"));
    assert!(c.apply_session_end(&BasicResponse { success: true, message: None, sessionid: None }));
    assert!(!c.initialized);
    assert!(c.sessionid.is_none());
    assert_eq!(c.authenticate_user("u", "p", "h").err(), Some(CoreError::NotInitialized));
    assert!(c.init().is_some());
}

#[test]
fn file_contents_decodes_base64() {
    let ok = DataResponse { success: true, message: None, contents: Some("aGVsbG8=".into()) };
    assert_eq!(AuthVaultixCore::file_contents(ok), Some(b"hello".to_vec()));
    let star = DataResponse { success: true, message: Some("ok".into()), contents: Some("not*base64".into()) };
    assert_eq!(AuthVaultixCore::file_contents(star), None);
    let bad = DataResponse { success: true, message: None, contents: Some("not base64!".into()) };
    assert_eq!(AuthVaultixCore::file_contents(bad), None);
    let failed = DataResponse { success: false, message: Some("no".into()), contents: Some("aGVsbG8=".into()) };
    assert_eq!(AuthVaultixCore::file_contents(failed), None);
    let empty = DataResponse { success: true, message: None, contents: Some(String::new()) };
    assert_eq!(AuthVaultixCore::file_contents(empty), Some(Vec::new()));
    let missing = DataResponse { success: true, message: None, contents: None };
    assert_eq!(AuthVaultixCore::file_contents(missing), None);
}

#[test]
fn replies_with_values() {
    let users = OnlineResponse { success: true, message: None, users: Some(vec![OnlineUser { credential: Some("bob".into()) }]) };
    assert_eq!(AuthVaultixCore::online_users(users).map(|v| v.len()), Some(1));
    let no_users = OnlineResponse { success: false, message: None, users: Some(vec![]) };
    assert!(AuthVaultixCore::online_users(no_users).is_none());
    assert_eq!(
        AuthVaultixCore::global_variable(BasicResponse { success: true, message: Some("42".into()), sessionid: None }),
        Some("42".to_string())
    );
    assert_eq!(
        AuthVaultixCore::global_variable(BasicResponse { success: false, message: Some("err".into()), sessionid: None }),
        None
    );
    assert_eq!(
        AuthVaultixCore::user_variable(VarResponse { success: true, message: None, response: Some("red".into()) }),
        Some("red".to_string())
    );
    assert_eq!(
        AuthVaultixCore::user_variable(VarResponse { success: false, message: None, response: Some("red".into()) }),
        None
    );
    let hist = ChatHistoryResponse {
        success: true,
        message: None,
        messages: Some(vec![ChatMessage { author: "a".into(), role: "user".into(), message: "hi".into(), timestamp: 1 }]),
    };
    assert_eq!(AuthVaultixCore::chat_history(hist).map(|v| v[0].message.clone()), Some("hi".to_string()));
    let no_hist = ChatHistoryResponse { success: false, message: None, messages: None };
    assert!(AuthVaultixCore::chat_history(no_hist).is_none());
}

fn chat(success: bool, code: Option<i32>, secs: Option<i32>) -> ChatResponse {
    ChatResponse {
        success,
        message: Some("refused".into()),
        code,
        remaining_seconds: secs,
        muted_until: Some("2026-01-01".into()),
        remaining_human: None,
    }
}

#[test]
fn chat_outcomes() {
    assert!(matches!(AuthVaultixCore::chat_send_outcome(chat(true, Some(403), Some(5))), ChatSendOutcome::Sent));
    match AuthVaultixCore::chat_send_outcome(chat(false, Some(403), Some(5))) {
        ChatSendOutcome::Muted { until, wait } => {
            assert_eq!(until, "2026-01-01");
            assert_eq!(wait, "");
        },
        _ => panic!("expected muted"),
    }
    match AuthVaultixCore::chat_send_outcome(chat(false, Some(403), Some(0))) {
        ChatSendOutcome::Failed(m) => assert_eq!(m.as_deref(), Some("refused")),
        _ => panic!("expected failed"),
    }
    match AuthVaultixCore::chat_send_outcome(chat(false, Some(500), Some(5))) {
        ChatSendOutcome::Failed(m) => assert_eq!(m.as_deref(), Some("refused")),
        _ => panic!("expected failed"),
    }
    match AuthVaultixCore::chat_send_outcome(chat(false, Some(403), None)) {
        ChatSendOutcome::Failed(_) => {},
        _ => panic!("expected failed"),
    }
}

#[test]
fn facade_delegates() {
    let mut a = AuthVaultix::new("App", "owner1", "s3cret", "1.0").unwrap();
    assert_eq!(a.login("u", "p", "h").err(), Some(CoreError::NotInitialized));
    assert!(!a.ready());
    assert!(a.init().is_some());
    assert_eq!(a.apply_init(ApiResponse { success: true, message: None, sessionid: Some("q".into()), info: None }), Ok(()));
    assert!(a.init().is_none());
    assert!(a.ready());
    assert_eq!(a.session_id(), Some("q".to_string()));
    let f = a.login("u", "p", "h").unwrap();
    assert!(f.contains(&("sessionid".to_string(), "q".to_string())));
    assert!(a.check().is_ok());
    assert!(a.register("u", "p", "l", "", "h").is_ok());
    assert!(a.license_login("l", "h").is_ok());
    assert!(a.log("m", None).is_ok());
    assert!(a.download("f").is_ok());
    assert!(a.fetch_online().is_ok());
    assert!(a.ban("r").is_ok());
    assert!(a.change_username("n").is_ok());
    assert!(a.check_blacklist("h").is_ok());
    assert!(a.upgrade("u", "l").is_ok());
    assert!(a.forgot_password("u", "e").is_ok());
    assert!(a.get_global_var("v").is_ok());
    assert!(a.get_var("v").is_ok());
    assert!(a.set_var("v", "x").is_ok());
    assert!(a.chat_send("m", "c").is_ok());
    assert!(a.chat_fetch("c").is_ok());
    assert_eq!(a.apply_auth(ApiResponse { success: false, message: None, sessionid: None, info: None }), Err("Unknown error".to_string()));
    let f = a.logout().unwrap();
    assert!(f.contains(&("type".to_string(), "logout".to_string())));
    assert!(a.apply_session_end(&BasicResponse { success: true, message: None, sessionid: None }));
    assert_eq!(a.logout().err(), Some(CoreError::NotInitialized));
    assert_eq!(a.session_id(), None);
}

#[test]
fn failure_message_defaults() {
    assert_eq!(failure_message(None), "Unknown error");
    assert_eq!(failure_message(Some("nope".to_string())), "nope");
}
