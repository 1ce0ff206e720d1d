//! Front door of a game server's login service: the binary packet codec, the
//! login request, session key resolution, and the decisions of the
//! connection handler and of the accept loops.
pub mod control;
pub mod handler;
pub mod login_request;
pub mod session_key;
pub mod supervisor;
pub mod wire;
