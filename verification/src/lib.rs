//! A photo booth: the session state machine, the request rules of its web
//! interface, the session log and the camera and printer protocols.
pub mod text;
pub mod clock;
pub mod session_logger;
pub mod session;
pub mod camera;
pub mod printer;
pub mod cups_printer;
pub mod handlers;
pub mod server;
pub mod picture;
