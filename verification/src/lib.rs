//! Client-side logic for the AuthVaultix authentication service: the request
//! forms, the session state, the decisions taken on each reply of the server,
//! and the text shown to the user.

pub mod client;
pub mod display;
pub mod hwid;
pub mod model;
pub mod payload;
pub mod text;

pub use client::{AuthVaultix, AuthVaultixCore, Form};
pub use model::{
    ApiResponse, BasicResponse, ChatHistoryResponse, ChatMessage, ChatResponse, ChatSendOutcome,
    CoreError, DataResponse, OnlineResponse, OnlineUser, Subscription, UserInfo, VarResponse,
};
pub use payload::PayloadBuilder;
