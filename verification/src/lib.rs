//! The resilient call layer of a client for a distributed key-value
//! coordination service: failure classification, the bounded retry policy,
//! session-token handling, endpoint validation and the handshakes of the two
//! streaming sessions (change watches and lease keep-alives).
//!
//! Everything here is a decision over plain values. The embedding client
//! performs the network calls and feeds their outcomes back in.

pub mod auth;
pub mod cluster;
pub mod endpoint;
pub mod error;
pub mod header;
pub mod kv;
pub mod lease;
pub mod retry;
pub mod session;
pub mod status;
pub mod watch;

pub use error::Error;
pub use status::{classify, code_of, Code, FailureClass};
pub use retry::{RetryAction, RetryEvent, RetryPhase, RetryState, MAX_RETRY};
pub use session::{CallKind, CallRoute, Credentials, MetadataEntry, Session};
pub use endpoint::{check_endpoints, check_pool, ClientConfig, Endpoint, TimeSpan, TlsMaterial};
pub use lease::{check_first_ack, initial_request, KeepAliveAck, KeepAliveRequest, LeaseId, LeaseKeeper};
pub use watch::{check_created, WatchDelivery, WatchMessage, WatchPhase, WatchSession};
pub use auth::{
    AuthDisableRequest, AuthDisableResponse, AuthEnableRequest, AuthEnableResponse,
    AuthRoleAddRequest, AuthRoleAddResponse, AuthRoleDeleteRequest, AuthRoleDeleteResponse,
    AuthRoleListRequest, AuthRoleListResponse, AuthStatusRequest, AuthStatusResponse,
};
pub use cluster::Member;
pub use header::ResponseHeader;
pub use kv::KeyRange;
