use vstd::prelude::*;

verus! {

/// One subscription of a user: its tier, its key, when it ends (a Unix
/// timestamp as text) and the seconds left until then.
#[derive(Clone, Debug)]
pub struct Subscription {
    pub subscription: String,
    pub key: Option<String>,
    pub expiry: String,
    pub timeleft: u64,
}

/// What the server tells about a user who has signed in.
#[derive(Clone, Debug)]
pub struct UserInfo {
    pub username: String,
    pub ip: Option<String>,
    pub hwid: Option<String>,
    pub createdate: Option<String>,
    pub lastlogin: Option<String>,
    pub subscriptions: Option<Vec<Subscription>>,
}

/// A client that is online.
#[derive(Clone, Debug)]
pub struct OnlineUser {
    pub credential: Option<String>,
}

/// One message of a chat channel.
#[derive(Clone, Debug)]
pub struct ChatMessage {
    pub author: String,
    pub role: String,
    pub message: String,
    pub timestamp: i64,
}

/// The reply to `init`, `login`, `register` and `license`.
#[derive(Clone, Debug)]
pub struct ApiResponse<T> {
    pub success: bool,
    pub message: Option<String>,
    pub sessionid: Option<String>,
    pub info: Option<T>,
}

/// The reply to requests that only succeed or fail.
#[derive(Clone, Debug)]
pub struct BasicResponse {
    pub success: bool,
    pub message: Option<String>,
    pub sessionid: Option<String>,
}

/// The reply to a file download: the contents in Base64.
#[derive(Clone, Debug)]
pub struct DataResponse {
    pub success: bool,
    pub message: Option<String>,
    pub contents: Option<String>,
}

/// The reply to a request for a user variable.
#[derive(Clone, Debug)]
pub struct VarResponse {
    pub success: bool,
    pub message: Option<String>,
    pub response: Option<String>,
}

/// The reply to a request for the clients online.
#[derive(Clone, Debug)]
pub struct OnlineResponse {
    pub success: bool,
    pub message: Option<String>,
    pub users: Option<Vec<OnlineUser>>,
}

/// The reply to a chat message sent.
#[derive(Clone, Debug)]
pub struct ChatResponse {
    pub success: bool,
    pub message: Option<String>,
    pub code: Option<i32>,
    pub remaining_seconds: Option<i32>,
    pub muted_until: Option<String>,
    pub remaining_human: Option<String>,
}

/// The reply to a request for the history of a chat channel.
#[derive(Clone, Debug)]
pub struct ChatHistoryResponse {
    pub success: bool,
    pub message: Option<String>,
    pub messages: Option<Vec<ChatMessage>>,
}

/// Why the client refuses to do something.
#[derive(Clone, Copy, Debug, PartialEq, Eq, Structural)]
pub enum CoreError {
    /// One of the application's name, owner id, secret or version is empty.
    NotSetUp,
    /// `init` has not succeeded yet, or the session has ended since.
    NotInitialized,
    /// There is no session to check.
    SessionMissing,
}

/// What became of a chat message.
#[derive(Clone, Debug)]
pub enum ChatSendOutcome {
    /// The message was sent.
    Sent,
    /// The sender is muted until `until`, which is `wait` away.
    Muted { until: String, wait: String },
    /// The message was refused, with the server's explanation if it gave one.
    Failed(Option<String>),
}

} // verus!
