//! Verified core of a desktop-automation bridge: resolving logical window labels
//! to concrete surfaces, picking the window to capture among enumerated OS
//! windows, the request/response protocol with script content, and the handlers'
//! envelopes.
pub mod bridge;
pub mod capture;
pub mod desktop;
pub mod handlers;
pub mod json;
pub mod pixels;
pub mod resolver;
pub mod rpc;
pub mod select;
pub mod text;
