//! Session history and the Navigation API, with the DOM pieces around them: navigables and
//! their traversal, the method trackers of the Navigation API, and smaller DOM objects
//! (drag data, gamepads, responses, cookies, abort signals, trusted types).
pub mod abort;
pub mod cookie_store;
pub mod datatransfer;
pub mod dom_misc;
pub mod navigable;
pub mod navigate_event;
pub mod navigation;
pub mod navigator;
pub mod reports;
pub mod response;
pub mod session_history;
pub mod trusted_types;
