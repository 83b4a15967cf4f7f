//! Authentication gateway for a supervised game server.
//!
//! The library holds the decisions of the gateway: which network address a
//! request is attributed to, whether a request's secret admits its caller,
//! which output lines of the game server report a login and who logged in
//! from where, and whether that login must be answered with a kick command.
//! The program around it owns the sockets, the subprocess and the console.
mod address;
mod endpoint;
mod login;
mod registry;
mod supervisor;
mod text;

pub use address::{caller_address, loopback, ForwardedHeader, IpAddress, SocketAddress};
pub use login::{
    console_command, decide_login, is_login_line, kick_command, login_event, split_login_line,
    LoginError, LoginEvent, LoginFields, KICK_PREFIX, LOGIN_MARKER,
};
pub use endpoint::{authorize, same_text, STATUS_OK, STATUS_UNAUTHORIZED};
pub use registry::{
    lemma_authorized_iff_registered, lemma_registered_union, lemma_registration_order_irrelevant,
    AuthorizedSet,
};
pub use supervisor::{gateway_ends, next_state, SupervisorEvent, SupervisorState};
