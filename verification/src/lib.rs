//! Request signing for the Tencent Cloud SMS API (TC3-HMAC-SHA256).

pub mod client;
pub mod client_profile;
pub mod context;
pub mod credentials;
pub mod digest;
pub mod dispatch;
pub mod http_profile;
pub mod signing;
pub mod text;
