//! Ephemeral photo storage: the rules that keep a metadata table and a blob
//! store in step while images are uploaded and, later, expired.
//!
//! The library decides; its caller performs. Every store call is described
//! by a [`store::Command`], carried out by the caller, and answered with a
//! [`store::Reply`]. Nothing here touches a database, a file or a socket.

pub mod clock;
pub mod http;
pub mod locator;
pub mod media;
pub mod reaper;
pub mod reaper_proofs;
pub mod record;
pub mod retry;
pub mod store;
pub mod upload;
pub mod upload_proofs;
