//! A typed client core for a vendor's home-automation / weather-station web
//! API: OAuth2-style token acquisition, a generic request/response pipeline
//! (parameter encoding, status-code based error classification, JSON
//! decoding), and a single error taxonomy.
//!
//! Transport (the HTTP round trip itself) is an external capability: callers
//! perform the POST and hand the outcome back to the pipeline as a
//! [`SendOutcome`]. Everything the library decides from that outcome is
//! specified and verified.

pub mod client;
pub mod errors;
pub mod laws;
pub mod pipeline;

pub use client::AuthenticatedClient;
pub use client::ClientCredentials;
pub use client::NetatmoClient;
pub use client::Token;
pub use client::UnauthenticatedClient;
pub use errors::Error;
pub use pipeline::ApiResponse;
pub use pipeline::SendOutcome;
