use vstd::prelude::*;
use vstd::string::*;

use base64::{engine::general_purpose, Engine as _};

use crate::display::{lines_view, report_dates_fit, user_info_lines, user_report};
use crate::model::{
    ApiResponse, BasicResponse, ChatHistoryResponse, ChatMessage, ChatResponse, ChatSendOutcome,
    CoreError, DataResponse, OnlineResponse, OnlineUser, UserInfo, VarResponse,
};
use crate::payload::{form_is, in_context, opt_ref_view, typed, PayloadBuilder};
use crate::text::opt_view;

verus! {

/// A request form: the fields posted to the server, each once.
pub type Form = Vec<(String, String)>;

/// `res` answers a request whose fields would be `m`: the form when the client
/// is initialized, `NotInitialized` when it is not.
pub open spec fn request_answer(res: Result<Form, CoreError>, ready: bool, m: Map<Seq<char>, Seq<char>>) -> bool {
    match res {
        Ok(f) => ready && form_is(f@, m),
        Err(e) => !ready && e == CoreError::NotInitialized,
    }
}

/// The explanation shown for a refusal: the server's message, or
/// `Unknown error` when it gave none.
pub open spec fn failure_text(message: Option<String>) -> Seq<char> {
    match message {
        Some(m) => m@,
        None => "Unknown error"@,
    }
}

/// What Base64 (standard alphabet, with padding) decodes the text to, if it
/// is valid Base64.
pub uninterp spec fn base64_standard_decode(text: Seq<char>) -> Option<Seq<u8>>;

/// The view of optional bytes.
pub open spec fn opt_bytes_view(o: Option<Vec<u8>>) -> Option<Seq<u8>> {
    match o {
        Some(v) => Some(v@),
        None => None,
    }
}

/// Whether `c` can stand in standard Base64 text: a letter, a digit, `+`,
/// `/` or the padding `=`.
pub open spec fn is_base64_char(c: char) -> bool {
    let u = c as u32;
    ||| 65 <= u <= 90
    ||| 97 <= u <= 122
    ||| 48 <= u <= 57
    ||| u == 43
    ||| u == 47
    ||| u == 61
}

/// There is a text, and every character of it can stand in Base64.
pub open spec fn base64_text(o: Option<String>) -> bool {
    match o {
        Some(c) => forall|i: int| 0 <= i < c@.len() ==> is_base64_char(#[trigger] c@[i]),
        None => false,
    }
}

/// The standard Base64 alphabet: `A`-`Z`, `a`-`z`, `0`-`9`, `+`, `/`.
pub open spec fn base64_alphabet() -> Seq<char> {
    seq!['A', 'B', 'C', 'D', 'E', 'F', 'G', 'H', 'I', 'J', 'K', 'L', 'M', 'N', 'O', 'P', 'Q', 'R', 'S', 'T', 'U', 'V', 'W', 'X', 'Y', 'Z', 'a', 'b', 'c', 'd', 'e', 'f', 'g', 'h', 'i', 'j', 'k', 'l', 'm', 'n', 'o', 'p', 'q', 'r', 's', 't', 'u', 'v', 'w', 'x', 'y', 'z', '0', '1', '2', '3', '4', '5', '6', '7', '8', '9', '+', '/']
}

/// The standard Base64 encoding of `b`: each group of three bytes becomes
/// four characters of six bits each, and a last group of one or two bytes
/// is padded with `=` to four characters.
pub open spec fn base64_encode(b: Seq<u8>) -> Seq<char>
    decreases b.len(),
{
    let a = base64_alphabet();
    let x = b[0] as int;
    let y = b[1] as int;
    let z = b[2] as int;
    if b.len() == 0 {
        seq![]
    } else if b.len() == 1 {
        seq![a[x / 4], a[(x % 4) * 16], '=', '=']
    } else if b.len() == 2 {
        seq![a[x / 4], a[(x % 4) * 16 + y / 16], a[(y % 16) * 4], '=']
    } else {
        seq![a[x / 4], a[(x % 4) * 16 + y / 16], a[(y % 16) * 4 + z / 64], a[z % 64]]
            + base64_encode(b.subrange(3, b.len() as int))
    }
}

/// Calls `base64::engine::general_purpose::STANDARD.decode` on the bytes of
/// `text`. The contract claims that the result is a function of the text
/// alone (the name `base64_standard_decode`), with `None` for a decoding
/// error; that a text holding a character outside the Base64 alphabet does
/// not decode; and that the standard encoding of any bytes decodes back to
/// those bytes (the empty text to no bytes). What other texts decode to is
/// left to the name.
#[verifier::external_body]
fn decode_base64(text: &str) -> (r: Option<Vec<u8>>)
    ensures
        opt_bytes_view(r) == base64_standard_decode(text@),
        r is Some ==> forall|i: int| 0 <= i < text@.len() ==> is_base64_char(#[trigger] text@[i]),
        text@.len() == 0 ==> opt_bytes_view(r) == Some(Seq::<u8>::empty()),
        forall|b: Seq<u8>| #[trigger] base64_encode(b) == text@ ==> opt_bytes_view(r) == Some(b),
{
    match general_purpose::STANDARD.decode(text) {
        Ok(bytes) => Some(bytes),
        Err(_) => None,
    }
}

/// The refusal of a chat message says that the sender is muted: code 403
/// with some seconds of muting left.
pub open spec fn chat_muted(resp: ChatResponse) -> bool {
    &&& !resp.success
    &&& resp.code == Some(403i32)
    &&& match resp.remaining_seconds {
        Some(s) => s > 0,
        None => false,
    }
}

/// The text, or the empty text when there is none.
pub open spec fn text_or_empty(o: Option<String>) -> Seq<char> {
    match o {
        Some(x) => x@,
        None => Seq::<char>::empty(),
    }
}

/// `r` is what became of the chat message that `resp` answers.
pub open spec fn chat_outcome_is(resp: ChatResponse, r: ChatSendOutcome) -> bool {
    if resp.success {
        r is Sent
    } else if chat_muted(resp) {
        match r {
            ChatSendOutcome::Muted { until, wait } => until@ == text_or_empty(resp.muted_until)
                && wait@ == text_or_empty(resp.remaining_human),
            _ => false,
        }
    } else {
        r == ChatSendOutcome::Failed(resp.message)
    }
}

/// `failure_text` as a string.
pub fn failure_message(message: Option<String>) -> (r: String)
    ensures
        r@ == failure_text(message),
{
    match message {
        Some(m) => m,
        None => String::from_str("Unknown error"),
    }
}

/// `b` is the client `a` after taking the reply `resp` to `init`: initialized,
/// with the session id sent if any, when the reply is a success; unchanged
/// otherwise.
pub open spec fn init_next(a: AuthVaultixCore, resp: ApiResponse<UserInfo>, b: AuthVaultixCore) -> bool {
    &&& b.same_app(&a)
    &&& b.user() == a.user()
    &&& if resp.success {
        &&& b.is_initialized()
        &&& b.session() == match resp.sessionid {
            Some(s) => Some(s),
            None => a.session(),
        }
    } else {
        b.is_initialized() == a.is_initialized() && b.session() == a.session()
    }
}

/// `b` is the client `a` after taking the reply `resp` to a sign-in: the
/// user the server describes becomes the current user when the reply is a
/// success; nothing else changes.
pub open spec fn auth_next(a: AuthVaultixCore, resp: ApiResponse<UserInfo>, b: AuthVaultixCore) -> bool {
    &&& b.same_app(&a)
    &&& b.session() == a.session()
    &&& b.is_initialized() == a.is_initialized()
    &&& b.user() == if resp.success {
        match resp.info {
            Some(i) => Some(i),
            None => a.user(),
        }
    } else {
        a.user()
    }
}

/// `lines` describe the user `info` sent with a successful sign-in (no
/// lines when no user was described).
pub open spec fn auth_report_is(info: Option<UserInfo>, lines: Seq<String>) -> bool {
    match info {
        Some(i) => exists|c: Seq<char>, l: Seq<char>, e: Seq<Seq<char>>|
            #![trigger user_report(i, c, l, e)]
            report_dates_fit(i, c, l, e) && lines_view(lines) == user_report(i, c, l, e),
        None => lines.len() == 0,
    }
}

/// `b` is the client `a` after taking the reply `resp` to `logout` or
/// `changeusername`: without session and not initialized when the reply is a
/// success; unchanged otherwise.
pub open spec fn session_end_next(a: AuthVaultixCore, resp: BasicResponse, b: AuthVaultixCore) -> bool {
    &&& b.same_app(&a)
    &&& b.user() == a.user()
    &&& if resp.success {
        b.session() is None && !b.is_initialized()
    } else {
        b.session() == a.session() && b.is_initialized() == a.is_initialized()
    }
}

/// The application's credentials: its name, owner id, secret and version,
/// none of them empty. Only `AuthVaultixCore::new` makes them.
pub struct AppCredentials {
    name: String,
    ownerid: String,
    secret: String,
    version: String,
}

impl AppCredentials {
    #[verifier::type_invariant]
    closed spec fn inv(self) -> bool {
        &&& self.name@.len() > 0
        &&& self.ownerid@.len() > 0
        &&& self.secret@.len() > 0
        &&& self.version@.len() > 0
    }

    /// The application's name.
    pub closed spec fn name_view(&self) -> Seq<char> {
        self.name@
    }

    /// The application's owner id.
    pub closed spec fn ownerid_view(&self) -> Seq<char> {
        self.ownerid@
    }

    /// The application's secret.
    pub closed spec fn secret_view(&self) -> Seq<char> {
        self.secret@
    }

    /// The application's version.
    pub closed spec fn version_view(&self) -> Seq<char> {
        self.version@
    }
}

/// The state of a client of the service: the application's credentials, the
/// session, the signed-in user and whether `init` has succeeded.
pub struct AuthVaultixCore {
    pub app: AppCredentials,
    pub sessionid: Option<String>,
    pub current_user: Option<UserInfo>,
    pub initialized: bool,
}

impl AuthVaultixCore {
    /// The application's name.
    pub open spec fn app_name(&self) -> Seq<char> {
        self.app.name_view()
    }

    /// The application's owner id.
    pub open spec fn app_ownerid(&self) -> Seq<char> {
        self.app.ownerid_view()
    }

    /// The application's secret.
    pub open spec fn app_secret(&self) -> Seq<char> {
        self.app.secret_view()
    }

    /// The application's version.
    pub open spec fn app_version(&self) -> Seq<char> {
        self.app.version_view()
    }

    /// The session id, if there is a session.
    pub open spec fn session(&self) -> Option<String> {
        self.sessionid
    }

    /// The signed-in user, if any.
    pub open spec fn user(&self) -> Option<UserInfo> {
        self.current_user
    }

    /// Whether `init` has succeeded (and no session end since).
    pub open spec fn is_initialized(&self) -> bool {
        self.initialized
    }

    /// `self` and `other` belong to the same application.
    pub open spec fn same_app(&self, other: &Self) -> bool {
        &&& self.app_name() == other.app_name()
        &&& self.app_ownerid() == other.app_ownerid()
        &&& self.app_secret() == other.app_secret()
        &&& self.app_version() == other.app_version()
    }

    /// The fields of a request of the given kind made in this client's
    /// context: the kind, the application's name and owner id, and the
    /// session id when there is one.
    pub open spec fn context_form(&self, kind: Seq<char>) -> Map<Seq<char>, Seq<char>> {
        in_context(typed(kind), self.app_name(), self.app_ownerid(), opt_view(self.sessionid))
    }

    /// The fields of the `init` request.
    pub open spec fn init_form(&self) -> Map<Seq<char>, Seq<char>> {
        typed("init"@).insert("ver"@, self.app_version()).insert("name"@, self.app_name()).insert(
            "ownerid"@,
            self.app_ownerid(),
        )
    }

    /// A client for the application with these credentials, not initialized
    /// and without a session; refused when any of them is empty.
    pub fn new(name: &str, ownerid: &str, secret: &str, version: &str) -> (r: Result<Self, CoreError>)
        ensures
            match r {
                Ok(c) => {
                    &&& name@.len() > 0 && ownerid@.len() > 0 && secret@.len() > 0 && version@.len() > 0
                    &&& c.app_name() == name@ && c.app_ownerid() == ownerid@
                    &&& c.app_secret() == secret@ && c.app_version() == version@
                    &&& c.session() is None && c.user() is None && !c.is_initialized()
                },
                Err(e) => e == CoreError::NotSetUp && (name@.len() == 0 || ownerid@.len() == 0
                    || secret@.len() == 0 || version@.len() == 0),
            },
    {
        if name.is_empty() || ownerid.is_empty() || secret.is_empty() || version.is_empty() {
            return Err(CoreError::NotSetUp);
        }
        let app = AppCredentials {
            name: String::from_str(name),
            ownerid: String::from_str(ownerid),
            secret: String::from_str(secret),
            version: String::from_str(version),
        };
        Ok(AuthVaultixCore {
            app,
            sessionid: None,
            current_user: None,
            initialized: false,
        })
    }

    /// Refuses with `NotInitialized` until `init` has succeeded.
    fn ensure_ready(&self) -> (r: Result<(), CoreError>)
        ensures
            r is Ok <==> self.is_initialized(),
            r matches Err(e) ==> e == CoreError::NotInitialized,
    {
        if !self.initialized {
            return Err(CoreError::NotInitialized);
        }
        Ok(())
    }

    /// A form of the given kind in this client's context.
    fn context(&self, kind: &str) -> (r: PayloadBuilder)
        ensures
            r@ == self.context_form(kind@),
    {
        let sid = self.sessionid.as_ref();
        assert(opt_ref_view(sid) == opt_view(self.sessionid));
        PayloadBuilder::new(kind).with_context(&self.app.name, &self.app.ownerid, sid)
    }

    /// The `init` request, or nothing when the client is already initialized.
    pub fn init(&self) -> (r: Option<Form>)
        ensures
            r is None <==> self.is_initialized(),
            r matches Some(f) ==> form_is(f@, self.init_form()),
    {
        if self.initialized {
            return None;
        }
        Some(
            PayloadBuilder::new("init").with_value("ver", &self.app.version).with_value(
                "name",
                &self.app.name,
            ).with_value("ownerid", &self.app.ownerid).compile(),
        )
    }

    /// Takes the reply to `init`: on success the client is initialized and
    /// keeps the session id sent, if any; on failure nothing changes and the
    /// explanation comes back.
    pub fn apply_init(&mut self, resp: ApiResponse<UserInfo>) -> (r: Result<(), String>)
        ensures
            init_next(*old(self), resp, *final(self)),
            r is Ok <==> resp.success,
            r matches Err(m) ==> m@ == failure_text(resp.message),
    {
        if resp.success {
            match resp.sessionid {
                Some(sid) => {
                    self.sessionid = Some(sid);
                },
                None => {},
            }
            self.initialized = true;
            Ok(())
        } else {
            Err(failure_message(resp.message))
        }
    }

    /// The `login` request for the user with this password on this machine.
    pub fn authenticate_user(&self, username: &str, pass: &str, hwid: &str) -> (r: Result<
        Form,
        CoreError,
    >)
        ensures
            request_answer(
                r,
                self.is_initialized(),
                self.context_form("login"@).insert("username"@, username@).insert(
                    "pass"@,
                    pass@,
                ).insert("hwid"@, hwid@),
            ),
    {
        self.ensure_ready()?;
        Ok(
            self.context("login").with_value("username", username).with_value(
                "pass",
                pass,
            ).with_value("hwid", hwid).compile(),
        )
    }

    /// The `check` request, which asks whether the session is still valid;
    /// refused with `SessionMissing` when there is no session.
    pub fn validate_session(&self) -> (r: Result<Form, CoreError>)
        ensures
            match r {
                Ok(f) => self.is_initialized() && self.session() is Some && form_is(
                    f@,
                    self.context_form("check"@),
                ),
                Err(e) => (!self.is_initialized() && e == CoreError::NotInitialized) || (
                self.is_initialized() && self.session() is None && e == CoreError::SessionMissing),
            },
    {
        self.ensure_ready()?;
        if self.sessionid.is_none() {
            return Err(CoreError::SessionMissing);
        }
        Ok(self.context("check").compile())
    }

    /// The `register` request for a new account made with a license key.
    pub fn register_account(
        &self,
        username: &str,
        pass: &str,
        license: &str,
        email: &str,
        hwid: &str,
    ) -> (r: Result<Form, CoreError>)
        ensures
            request_answer(
                r,
                self.is_initialized(),
                self.context_form("register"@).insert("username"@, username@).insert(
                    "pass"@,
                    pass@,
                ).insert("key"@, license@).insert("email"@, email@).insert("hwid"@, hwid@),
            ),
    {
        self.ensure_ready()?;
        Ok(
            self.context("register").with_value("username", username).with_value(
                "pass",
                pass,
            ).with_value("key", license).with_value("email", email).with_value(
                "hwid",
                hwid,
            ).compile(),
        )
    }

    /// The `license` request, which signs in with a license key alone.
    pub fn license_access(&self, license: &str, hwid: &str) -> (r: Result<Form, CoreError>)
        ensures
            request_answer(
                r,
                self.is_initialized(),
                self.context_form("license"@).insert("key"@, license@).insert("hwid"@, hwid@),
            ),
    {
        self.ensure_ready()?;
        Ok(self.context("license").with_value("key", license).with_value("hwid", hwid).compile())
    }

    /// Takes the reply to a sign-in (`login`, `register` or `license`): on
    /// success the user the server describes becomes the current user and
    /// the lines that describe them come back (none when the server described
    /// nobody); on failure nothing changes and the explanation comes back.
    pub fn handle_auth_response(&mut self, resp: ApiResponse<UserInfo>) -> (r: Result<
        Vec<String>,
        String,
    >)
        ensures
            auth_next(*old(self), resp, *final(self)),
            r is Ok <==> resp.success,
            r matches Err(m) ==> m@ == failure_text(resp.message),
            r matches Ok(lines) ==> auth_report_is(resp.info, lines@),
    {
        if resp.success {
            match resp.info {
                Some(info) => {
                    let lines = user_info_lines(&info);
                    self.current_user = Some(info);
                    Ok(lines)
                },
                None => Ok(Vec::new()),
            }
        } else {
            Err(failure_message(resp.message))
        }
    }

    /// The `log` request, which records a message on the dashboard together
    /// with the name of the user of this computer (`Unknown` when it is not
    /// known).
    pub fn send_log(&self, message: &str, pcuser: Option<&str>) -> (r: Result<Form, CoreError>)
        ensures
            request_answer(
                r,
                self.is_initialized(),
                self.context_form("log"@).insert("message"@, message@).insert(
                    "pcuser"@,
                    match pcuser {
                        Some(u) => u@,
                        None => "Unknown"@,
                    },
                ),
            ),
    {
        self.ensure_ready()?;
        let user = match pcuser {
            Some(u) => u,
            None => "Unknown",
        };
        Ok(self.context("log").with_value("message", message).with_value("pcuser", user).compile())
    }

    /// The `file` request, which downloads a file.
    pub fn retrieve_file(&self, fileid: &str) -> (r: Result<Form, CoreError>)
        ensures
            request_answer(
                r,
                self.is_initialized(),
                self.context_form("file"@).insert("fileid"@, fileid@),
            ),
    {
        self.ensure_ready()?;
        Ok(self.context("file").with_value("fileid", fileid).compile())
    }

    /// The contents of a downloaded file: the decoded Base64 of a successful
    /// reply, or nothing when the download failed or the contents are not
    /// valid Base64.
    pub fn file_contents(resp: DataResponse) -> (r: Option<Vec<u8>>)
        ensures
            r is Some ==> resp.success && base64_text(resp.contents),
            forall|b: Seq<u8>|
                resp.success && resp.contents is Some && #[trigger] base64_encode(b)
                    == resp.contents->0@ ==> opt_bytes_view(r) == Some(b),
            opt_bytes_view(r) == if resp.success {
                match resp.contents {
                    Some(c) => base64_standard_decode(c@),
                    None => None,
                }
            } else {
                None
            },
    {
        if resp.success {
            match resp.contents {
                Some(contents) => decode_base64(contents.as_str()),
                None => None,
            }
        } else {
            None
        }
    }

    /// The `fetchonline` request, which lists the clients online.
    pub fn get_online_clients(&self) -> (r: Result<Form, CoreError>)
        ensures
            request_answer(r, self.is_initialized(), self.context_form("fetchonline"@)),
    {
        self.ensure_ready()?;
        Ok(self.context("fetchonline").compile())
    }

    /// The clients online, from a successful reply.
    pub fn online_users(resp: OnlineResponse) -> (r: Option<Vec<OnlineUser>>)
        ensures
            r == if resp.success {
                resp.users
            } else {
                None
            },
    {
        if resp.success {
            resp.users
        } else {
            None
        }
    }

    /// The `ban` request, which bans the signed-in user for a reason.
    pub fn enforce_ban(&self, reason: &str) -> (r: Result<Form, CoreError>)
        ensures
            request_answer(
                r,
                self.is_initialized(),
                self.context_form("ban"@).insert("reason"@, reason@),
            ),
    {
        self.ensure_ready()?;
        Ok(self.context("ban").with_value("reason", reason).compile())
    }

    /// The `logout` request.
    pub fn terminate_session(&self) -> (r: Result<Form, CoreError>)
        ensures
            request_answer(r, self.is_initialized(), self.context_form("logout"@)),
    {
        self.ensure_ready()?;
        Ok(self.context("logout").compile())
    }

    /// The `changeusername` request; the session ends when it succeeds.
    pub fn update_username(&self, new_username: &str) -> (r: Result<Form, CoreError>)
        ensures
            request_answer(
                r,
                self.is_initialized(),
                self.context_form("changeusername"@).insert("newUsername"@, new_username@),
            ),
    {
        self.ensure_ready()?;
        Ok(self.context("changeusername").with_value("newUsername", new_username).compile())
    }

    /// Takes the reply to `logout` or `changeusername`: on success the
    /// session ends and the client must be initialized again; on failure
    /// nothing changes. Tells whether it succeeded.
    pub fn apply_session_end(&mut self, resp: &BasicResponse) -> (r: bool)
        ensures
            r == resp.success,
            session_end_next(*old(self), *resp, *final(self)),
    {
        if resp.success {
            self.sessionid = None;
            self.initialized = false;
            true
        } else {
            false
        }
    }

    /// The `checkblacklist` request for this machine.
    pub fn verify_blacklist(&self, hwid: &str) -> (r: Result<Form, CoreError>)
        ensures
            request_answer(
                r,
                self.is_initialized(),
                self.context_form("checkblacklist"@).insert("hwid"@, hwid@),
            ),
    {
        self.ensure_ready()?;
        Ok(self.context("checkblacklist").with_value("hwid", hwid).compile())
    }

    /// The `upgrade` request, which adds a license to a user's account.
    pub fn apply_upgrade(&self, username: &str, license: &str) -> (r: Result<Form, CoreError>)
        ensures
            request_answer(
                r,
                self.is_initialized(),
                self.context_form("upgrade"@).insert("username"@, username@).insert(
                    "key"@,
                    license@,
                ),
            ),
    {
        self.ensure_ready()?;
        Ok(self.context("upgrade").with_value("username", username).with_value("key", license).compile())
    }

    /// The `forgot` request, which sends a password reset email.
    pub fn trigger_password_reset(&self, username: &str, email: &str) -> (r: Result<Form, CoreError>)
        ensures
            request_answer(
                r,
                self.is_initialized(),
                self.context_form("forgot"@).insert("username"@, username@).insert(
                    "email"@,
                    email@,
                ),
            ),
    {
        self.ensure_ready()?;
        Ok(self.context("forgot").with_value("username", username).with_value("email", email).compile())
    }

    /// The `var` request for a global variable.
    pub fn fetch_global_variable(&self, varid: &str) -> (r: Result<Form, CoreError>)
        ensures
            request_answer(
                r,
                self.is_initialized(),
                self.context_form("var"@).insert("varid"@, varid@),
            ),
    {
        self.ensure_ready()?;
        Ok(self.context("var").with_value("varid", varid).compile())
    }

    /// The value of a global variable: the message of a successful reply.
    pub fn global_variable(resp: BasicResponse) -> (r: Option<String>)
        ensures
            r == if resp.success {
                resp.message
            } else {
                None
            },
    {
        if resp.success {
            resp.message
        } else {
            None
        }
    }

    /// The `getvar` request for a variable of the signed-in user.
    pub fn fetch_user_variable(&self, var_name: &str) -> (r: Result<Form, CoreError>)
        ensures
            request_answer(
                r,
                self.is_initialized(),
                self.context_form("getvar"@).insert("var"@, var_name@),
            ),
    {
        self.ensure_ready()?;
        Ok(self.context("getvar").with_value("var", var_name).compile())
    }

    /// The value of a user variable: the response of a successful reply.
    pub fn user_variable(resp: VarResponse) -> (r: Option<String>)
        ensures
            r == if resp.success {
                resp.response
            } else {
                None
            },
    {
        if resp.success {
            resp.response
        } else {
            None
        }
    }

    /// The `setvar` request, which sets a variable of the signed-in user.
    pub fn update_user_variable(&self, var_name: &str, value: &str) -> (r: Result<Form, CoreError>)
        ensures
            request_answer(
                r,
                self.is_initialized(),
                self.context_form("setvar"@).insert("var"@, var_name@).insert("data"@, value@),
            ),
    {
        self.ensure_ready()?;
        Ok(self.context("setvar").with_value("var", var_name).with_value("data", value).compile())
    }

    /// The `chatsend` request, which posts a message to a channel.
    pub fn transmit_chat_message(&self, message: &str, channel: &str) -> (r: Result<Form, CoreError>)
        ensures
            request_answer(
                r,
                self.is_initialized(),
                self.context_form("chatsend"@).insert("message"@, message@).insert(
                    "channel"@,
                    channel@,
                ),
            ),
    {
        self.ensure_ready()?;
        Ok(
            self.context("chatsend").with_value("message", message).with_value(
                "channel",
                channel,
            ).compile(),
        )
    }

    /// What became of a chat message: sent on success; muted when the server
    /// refused with code 403 and some seconds of muting left (until when and
    /// for how long, empty when not given); otherwise refused, with the
    /// server's message.
    pub fn chat_send_outcome(resp: ChatResponse) -> (r: ChatSendOutcome)
        ensures
            chat_outcome_is(resp, r),
    {
        if resp.success {
            return ChatSendOutcome::Sent;
        }
        let remaining = match resp.remaining_seconds {
            Some(s) => s,
            None => 0,
        };
        let muted = match resp.code {
            Some(c) => c == 403,
            None => false,
        };
        if muted && remaining > 0 {
            let until = match resp.muted_until {
                Some(u) => u,
                None => String::new(),
            };
            let wait = match resp.remaining_human {
                Some(h) => h,
                None => String::new(),
            };
            ChatSendOutcome::Muted { until, wait }
        } else {
            ChatSendOutcome::Failed(resp.message)
        }
    }

    /// The `chatfetch` request for the history of a channel.
    pub fn retrieve_chat_history(&self, channel: &str) -> (r: Result<Form, CoreError>)
        ensures
            request_answer(
                r,
                self.is_initialized(),
                self.context_form("chatfetch"@).insert("channel"@, channel@),
            ),
    {
        self.ensure_ready()?;
        Ok(self.context("chatfetch").with_value("channel", channel).compile())
    }

    /// The messages of a channel, from a successful reply.
    pub fn chat_history(resp: ChatHistoryResponse) -> (r: Option<Vec<ChatMessage>>)
        ensures
            r == if resp.success {
                resp.messages
            } else {
                None
            },
    {
        if resp.success {
            resp.messages
        } else {
            None
        }
    }
}

/// The client as applications use it: each operation gives the form to
/// post, and the `apply_` operations take the replies that change its state.
pub struct AuthVaultix {
    core: AuthVaultixCore,
}

impl AuthVaultix {
    /// The state of the client.
    pub closed spec fn inner(&self) -> AuthVaultixCore {
        self.core
    }

    /// A client for the application with these credentials; refused when any
    /// of them is empty.
    pub fn new(name: &str, ownerid: &str, secret: &str, version: &str) -> (r: Result<Self, CoreError>)
        ensures
            match r {
                Ok(a) => {
                    &&& name@.len() > 0 && ownerid@.len() > 0 && secret@.len() > 0 && version@.len() > 0
                    &&& a.inner().app_name() == name@ && a.inner().app_ownerid() == ownerid@
                    &&& a.inner().app_secret() == secret@ && a.inner().app_version() == version@
                    &&& a.inner().session() is None && a.inner().user() is None
                    &&& !a.inner().is_initialized()
                },
                Err(e) => e == CoreError::NotSetUp && (name@.len() == 0 || ownerid@.len() == 0
                    || secret@.len() == 0 || version@.len() == 0),
            },
    {
        let core = AuthVaultixCore::new(name, ownerid, secret, version)?;
        Ok(AuthVaultix { core })
    }

    /// Starts a session (the `init` request), or nothing when one is started.
    pub fn init(&self) -> (r: Option<Form>)
        ensures
            r is None <==> self.inner().is_initialized(),
            r matches Some(f) ==> form_is(f@, self.inner().init_form()),
    {
        self.core.init()
    }

    /// Whether `init` has succeeded (and no session has ended since), so that
    /// requests are made.
    pub fn ready(&self) -> (r: bool)
        ensures
            r == self.inner().is_initialized(),
    {
        self.core.initialized
    }

    /// The session id, if there is a session.
    pub fn session_id(&self) -> (r: Option<String>)
        ensures
            r == self.inner().session(),
    {
        match &self.core.sessionid {
            Some(s) => Some(s.clone()),
            None => None,
        }
    }

    /// Takes the reply to `init`.
    pub fn apply_init(&mut self, resp: ApiResponse<UserInfo>) -> (r: Result<(), String>)
        ensures
            init_next(old(self).inner(), resp, final(self).inner()),
            r is Ok <==> resp.success,
            r matches Err(m) ==> m@ == failure_text(resp.message),
    {
        self.core.apply_init(resp)
    }

    /// Takes the reply to `login`, `register` or `license`.
    pub fn apply_auth(&mut self, resp: ApiResponse<UserInfo>) -> (r: Result<Vec<String>, String>)
        ensures
            auth_next(old(self).inner(), resp, final(self).inner()),
            r is Ok <==> resp.success,
            r matches Err(m) ==> m@ == failure_text(resp.message),
            r matches Ok(lines) ==> auth_report_is(resp.info, lines@),
    {
        self.core.handle_auth_response(resp)
    }

    /// Takes the reply to `logout` or `changeusername`.
    pub fn apply_session_end(&mut self, resp: &BasicResponse) -> (r: bool)
        ensures
            r == resp.success,
            session_end_next(old(self).inner(), *resp, final(self).inner()),
    {
        self.core.apply_session_end(resp)
    }

    /// Asks whether the session is still valid (the `check` request).
    pub fn check(&self) -> (r: Result<Form, CoreError>)
        ensures
            match r {
                Ok(f) => self.inner().is_initialized() && self.inner().session() is Some && form_is(
                    f@,
                    self.inner().context_form("check"@),
                ),
                Err(e) => (!self.inner().is_initialized() && e == CoreError::NotInitialized) || (
                self.inner().is_initialized() && self.inner().session() is None && e
                    == CoreError::SessionMissing),
            },
    {
        self.core.validate_session()
    }

    /// Signs in with a user name and password (the `login` request).
    pub fn login(&self, username: &str, pass: &str, hwid: &str) -> (r: Result<Form, CoreError>)
        ensures
            request_answer(r, self.inner().is_initialized(), self.inner().context_form("login"@).insert("username"@, username@).insert("pass"@, pass@).insert("hwid"@, hwid@)),
    {
        self.core.authenticate_user(username, pass, hwid)
    }

    /// Creates an account with a license key (the `register` request).
    pub fn register(&self, username: &str, pass: &str, license: &str, email: &str, hwid: &str) -> (r: Result<Form, CoreError>)
        ensures
            request_answer(r, self.inner().is_initialized(), self.inner().context_form("register"@).insert("username"@, username@).insert("pass"@, pass@).insert("key"@, license@).insert("email"@, email@).insert("hwid"@, hwid@)),
    {
        self.core.register_account(username, pass, license, email, hwid)
    }

    /// Signs in with a license key alone (the `license` request).
    pub fn license_login(&self, license: &str, hwid: &str) -> (r: Result<Form, CoreError>)
        ensures
            request_answer(r, self.inner().is_initialized(), self.inner().context_form("license"@).insert("key"@, license@).insert("hwid"@, hwid@)),
    {
        self.core.license_access(license, hwid)
    }

    /// Records a message on the dashboard (the `log` request).
    pub fn log(&self, message: &str, pcuser: Option<&str>) -> (r: Result<Form, CoreError>)
        ensures
            request_answer(r, self.inner().is_initialized(), self.inner().context_form("log"@).insert("message"@, message@).insert("pcuser"@, match pcuser { Some(u) => u@, None => "Unknown"@ })),
    {
        self.core.send_log(message, pcuser)
    }

    /// Downloads a file (the `file` request).
    pub fn download(&self, fileid: &str) -> (r: Result<Form, CoreError>)
        ensures
            request_answer(r, self.inner().is_initialized(), self.inner().context_form("file"@).insert("fileid"@, fileid@)),
    {
        self.core.retrieve_file(fileid)
    }

    /// Lists the clients online (the `fetchonline` request).
    pub fn fetch_online(&self) -> (r: Result<Form, CoreError>)
        ensures
            request_answer(r, self.inner().is_initialized(), self.inner().context_form("fetchonline"@)),
    {
        self.core.get_online_clients()
    }

    /// Bans the signed-in user (the `ban` request).
    pub fn ban(&self, reason: &str) -> (r: Result<Form, CoreError>)
        ensures
            request_answer(r, self.inner().is_initialized(), self.inner().context_form("ban"@).insert("reason"@, reason@)),
    {
        self.core.enforce_ban(reason)
    }

    /// Ends the session (the `logout` request).
    pub fn logout(&self) -> (r: Result<Form, CoreError>)
        ensures
            request_answer(r, self.inner().is_initialized(), self.inner().context_form("logout"@)),
    {
        self.core.terminate_session()
    }

    /// Renames the signed-in user (the `changeusername` request).
    pub fn change_username(&self, new_username: &str) -> (r: Result<Form, CoreError>)
        ensures
            request_answer(r, self.inner().is_initialized(), self.inner().context_form("changeusername"@).insert("newUsername"@, new_username@)),
    {
        self.core.update_username(new_username)
    }

    /// Asks whether this machine is blacklisted (the `checkblacklist` request).
    pub fn check_blacklist(&self, hwid: &str) -> (r: Result<Form, CoreError>)
        ensures
            request_answer(r, self.inner().is_initialized(), self.inner().context_form("checkblacklist"@).insert("hwid"@, hwid@)),
    {
        self.core.verify_blacklist(hwid)
    }

    /// Adds a license to an account (the `upgrade` request).
    pub fn upgrade(&self, username: &str, license: &str) -> (r: Result<Form, CoreError>)
        ensures
            request_answer(r, self.inner().is_initialized(), self.inner().context_form("upgrade"@).insert("username"@, username@).insert("key"@, license@)),
    {
        self.core.apply_upgrade(username, license)
    }

    /// Asks for a password reset email (the `forgot` request).
    pub fn forgot_password(&self, username: &str, email: &str) -> (r: Result<Form, CoreError>)
        ensures
            request_answer(r, self.inner().is_initialized(), self.inner().context_form("forgot"@).insert("username"@, username@).insert("email"@, email@)),
    {
        self.core.trigger_password_reset(username, email)
    }

    /// Reads a global variable (the `var` request).
    pub fn get_global_var(&self, varid: &str) -> (r: Result<Form, CoreError>)
        ensures
            request_answer(r, self.inner().is_initialized(), self.inner().context_form("var"@).insert("varid"@, varid@)),
    {
        self.core.fetch_global_variable(varid)
    }

    /// Reads a variable of the signed-in user (the `getvar` request).
    pub fn get_var(&self, var_name: &str) -> (r: Result<Form, CoreError>)
        ensures
            request_answer(r, self.inner().is_initialized(), self.inner().context_form("getvar"@).insert("var"@, var_name@)),
    {
        self.core.fetch_user_variable(var_name)
    }

    /// Sets a variable of the signed-in user (the `setvar` request).
    pub fn set_var(&self, var_name: &str, value: &str) -> (r: Result<Form, CoreError>)
        ensures
            request_answer(r, self.inner().is_initialized(), self.inner().context_form("setvar"@).insert("var"@, var_name@).insert("data"@, value@)),
    {
        self.core.update_user_variable(var_name, value)
    }

    /// Posts a chat message (the `chatsend` request).
    pub fn chat_send(&self, message: &str, channel: &str) -> (r: Result<Form, CoreError>)
        ensures
            request_answer(r, self.inner().is_initialized(), self.inner().context_form("chatsend"@).insert("message"@, message@).insert("channel"@, channel@)),
    {
        self.core.transmit_chat_message(message, channel)
    }

    /// Reads the history of a chat channel (the `chatfetch` request).
    pub fn chat_fetch(&self, channel: &str) -> (r: Result<Form, CoreError>)
        ensures
            request_answer(r, self.inner().is_initialized(), self.inner().context_form("chatfetch"@).insert("channel"@, channel@)),
    {
        self.core.retrieve_chat_history(channel)
    }
}

/// Every request made in a client's context names its kind under `type` and
/// the application under `name` and `ownerid`, and carries `sessionid`
/// exactly when the client has a session, with that session's id; it holds
/// no other field.
pub proof fn law_context_identifies(c: AuthVaultixCore, kind: Seq<char>)
    ensures
        c.context_form(kind).dom().contains("type"@),
        c.context_form(kind)["type"@] == kind,
        c.context_form(kind).dom().contains("name"@),
        c.context_form(kind)["name"@] == c.app_name(),
        c.context_form(kind).dom().contains("ownerid"@),
        c.context_form(kind)["ownerid"@] == c.app_ownerid(),
        c.context_form(kind).dom().contains("sessionid"@) <==> c.session() is Some,
        c.session() matches Some(s) ==> c.context_form(kind)["sessionid"@] == s@,
        c.context_form(kind).dom() =~= (if c.session() is Some {
            set!["type"@, "name"@, "ownerid"@, "sessionid"@]
        } else {
            set!["type"@, "name"@, "ownerid"@]
        }),
{
    reveal_strlit("type");
    reveal_strlit("name");
    reveal_strlit("ownerid");
    reveal_strlit("sessionid");
    assert("type"@ != "name"@) by {
        assert("type"@[0] != "name"@[0]);
    }
    assert("type"@.len() != "ownerid"@.len() && "type"@.len() != "sessionid"@.len());
    assert("name"@.len() != "ownerid"@.len() && "name"@.len() != "sessionid"@.len());
    assert("ownerid"@.len() != "sessionid"@.len());
}

/// The `init` request names its kind and the application's version, name
/// and owner id, and nothing else: neither the secret nor a session id.
pub proof fn law_init_form_fields(c: AuthVaultixCore)
    ensures
        c.init_form().dom() =~= set!["type"@, "ver"@, "name"@, "ownerid"@],
        c.init_form()["type"@] == "init"@,
        c.init_form()["ver"@] == c.app_version(),
        c.init_form()["name"@] == c.app_name(),
        c.init_form()["ownerid"@] == c.app_ownerid(),
        !c.init_form().dom().contains("secret"@),
        !c.init_form().dom().contains("sessionid"@),
{
    reveal_strlit("type");
    reveal_strlit("ver");
    reveal_strlit("name");
    reveal_strlit("ownerid");
    reveal_strlit("secret");
    reveal_strlit("sessionid");
    assert("type"@ != "name"@) by {
        assert("type"@[0] != "name"@[0]);
    }
    assert("secret"@ != "ownerid"@) by {
        assert("secret"@[0] != "ownerid"@[0]);
    }
    assert("type"@.len() != "ver"@.len() && "type"@.len() != "ownerid"@.len());
    assert("ver"@.len() != "name"@.len() && "ver"@.len() != "ownerid"@.len());
    assert("name"@.len() != "ownerid"@.len());
    assert("secret"@.len() != "type"@.len() && "secret"@.len() != "ver"@.len()
        && "secret"@.len() != "name"@.len());
    assert("sessionid"@.len() != "type"@.len() && "sessionid"@.len() != "ver"@.len()
        && "sessionid"@.len() != "name"@.len() && "sessionid"@.len() != "ownerid"@.len());
}

/// A client that has not been initialized refuses every request with
/// `NotInitialized`.
pub proof fn law_uninitialized_refuses(
    c: AuthVaultixCore,
    r: Result<Form, CoreError>,
    m: Map<Seq<char>, Seq<char>>,
)
    requires
        !c.is_initialized(),
        request_answer(r, c.is_initialized(), m),
    ensures
        r == Err::<Form, CoreError>(CoreError::NotInitialized),
{
}

/// After a successful `init` the client is initialized, and the requests it
/// makes carry the session id that the server sent (or the one it had, when
/// the server sent none).
pub proof fn law_init_starts_session(
    a: AuthVaultixCore,
    resp: ApiResponse<UserInfo>,
    b: AuthVaultixCore,
    kind: Seq<char>,
)
    requires
        init_next(a, resp, b),
        resp.success,
    ensures
        b.is_initialized(),
        resp.sessionid matches Some(s) ==> b.context_form(kind).dom().contains("sessionid"@)
            && b.context_form(kind)["sessionid"@] == s@,
        resp.sessionid is None ==> b.context_form(kind) == a.context_form(kind),
{
    law_context_identifies(b, kind);
}

/// After `logout` or `changeusername` succeeds the client has no session,
/// its requests carry no session id, and it refuses every request until it
/// is initialized again.
pub proof fn law_session_end_refuses(
    a: AuthVaultixCore,
    resp: BasicResponse,
    b: AuthVaultixCore,
    kind: Seq<char>,
    r: Result<Form, CoreError>,
    m: Map<Seq<char>, Seq<char>>,
)
    requires
        session_end_next(a, resp, b),
        resp.success,
        request_answer(r, b.is_initialized(), m),
    ensures
        !b.is_initialized(),
        b.session() is None,
        !b.context_form(kind).dom().contains("sessionid"@),
        r == Err::<Form, CoreError>(CoreError::NotInitialized),
{
    law_context_identifies(b, kind);
}

/// A reply that reports failure changes nothing in the client: neither the
/// reply to `init`, nor to a sign-in, nor to `logout` or `changeusername`.
pub proof fn law_failures_change_nothing(
    a: AuthVaultixCore,
    init_resp: ApiResponse<UserInfo>,
    b1: AuthVaultixCore,
    auth_resp: ApiResponse<UserInfo>,
    b2: AuthVaultixCore,
    end_resp: BasicResponse,
    b3: AuthVaultixCore,
)
    requires
        init_next(a, init_resp, b1),
        !init_resp.success,
        auth_next(a, auth_resp, b2),
        !auth_resp.success,
        session_end_next(a, end_resp, b3),
        !end_resp.success,
    ensures
        b1.same_app(&a) && b1.session() == a.session() && b1.user() == a.user()
            && b1.is_initialized() == a.is_initialized(),
        b2.same_app(&a) && b2.session() == a.session() && b2.user() == a.user()
            && b2.is_initialized() == a.is_initialized(),
        b3.same_app(&a) && b3.session() == a.session() && b3.user() == a.user()
            && b3.is_initialized() == a.is_initialized(),
{
}

/// A successful sign-in reply that describes a user makes that user the
/// current user, whoever was signed in before; the session and the
/// initialization are untouched.
pub proof fn law_sign_in_replaces_user(
    a: AuthVaultixCore,
    resp: ApiResponse<UserInfo>,
    b: AuthVaultixCore,
    i: UserInfo,
)
    requires
        auth_next(a, resp, b),
        resp.success,
        resp.info == Some(i),
    ensures
        b.current_user == Some(i),
        b.sessionid == a.sessionid,
        b.initialized == a.initialized,
{
}

/// A successful sign-in reply that describes nobody leaves the current user
/// as it was.
pub proof fn law_sign_in_without_user_keeps_user(
    a: AuthVaultixCore,
    resp: ApiResponse<UserInfo>,
    b: AuthVaultixCore,
)
    requires
        auth_next(a, resp, b),
        resp.info is None,
    ensures
        b.current_user == a.current_user,
{
}

/// When the server refuses a chat message with code 403 and some seconds of
/// muting left, the outcome is `Muted`, carrying the muting's end and the
/// time to wait exactly as the reply gave them (empty when not given).
pub proof fn law_muted_carries_reply(resp: ChatResponse, r: ChatSendOutcome, seconds: i32)
    requires
        chat_outcome_is(resp, r),
        !resp.success,
        resp.code == Some(403i32),
        resp.remaining_seconds == Some(seconds),
        seconds > 0,
    ensures
        match r {
            ChatSendOutcome::Muted { until, wait } => {
                &&& (match resp.remaining_human {
                    Some(h) => wait@ == h@,
                    None => wait@.len() == 0,
                })
                &&& (match resp.muted_until {
                    Some(u) => until@ == u@,
                    None => until@.len() == 0,
                })
            },
            _ => false,
        },
{
}

/// A chat reply that reports success means the message was sent; a refusal
/// other than muting passes on the server's message.
pub proof fn law_chat_sent_or_refused(resp: ChatResponse, r: ChatSendOutcome)
    requires
        chat_outcome_is(resp, r),
    ensures
        resp.success ==> r is Sent,
        !resp.success && resp.code != Some(403i32) ==> r == ChatSendOutcome::Failed(resp.message),
        !resp.success && resp.remaining_seconds is None ==> r == ChatSendOutcome::Failed(
            resp.message,
        ),
{
}

/// Every character of the standard alphabet can stand in Base64 text.
proof fn lemma_alphabet_chars()
    ensures
        base64_alphabet().len() == 64,
        forall|i: int| 0 <= i < 64 ==> is_base64_char(#[trigger] base64_alphabet()[i]),
{
    let a = base64_alphabet();
    assert forall|i: int| 0 <= i < 64 implies is_base64_char(#[trigger] a[i]) by {
        if i < 26 {
            assert(a[i] as u32 == 65 + i);
        } else if i < 52 {
            assert(a[i] as u32 == 97 + (i - 26));
        } else if i < 62 {
            assert(a[i] as u32 == 48 + (i - 52));
        }
    }
}

/// The standard Base64 encoding of `n` bytes is `4 * ceil(n / 3)` characters,
/// all from the alphabet or the padding `=`: the texts that a successful
/// download decodes are Base64 text.
pub proof fn law_base64_encoding_shape(b: Seq<u8>)
    ensures
        base64_encode(b).len() == 4 * ((b.len() + 2) / 3),
        forall|i: int|
            0 <= i < base64_encode(b).len() ==> is_base64_char(#[trigger] base64_encode(b)[i]),
    decreases b.len(),
{
    lemma_alphabet_chars();
    let e = base64_encode(b);
    if b.len() >= 3 {
        let rest = b.subrange(3, b.len() as int);
        law_base64_encoding_shape(rest);
        let x = b[0] as int;
        let y = b[1] as int;
        let z = b[2] as int;
        let head = seq![
            base64_alphabet()[x / 4],
            base64_alphabet()[(x % 4) * 16 + y / 16],
            base64_alphabet()[(y % 16) * 4 + z / 64],
            base64_alphabet()[z % 64],
        ];
        assert(e =~= head + base64_encode(rest));
        assert forall|i: int| 0 <= i < e.len() implies is_base64_char(#[trigger] e[i]) by {
            if i >= 4 {
                assert(e[i] == base64_encode(rest)[i - 4]);
            }
        }
    }
}

} // verus!
