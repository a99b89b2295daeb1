//! Redirect gateway for a mod-hosting directory.
//!
//! Given a short numeric identifier for a mod project or a mod file, the
//! service resolves the identifier against the remote mod directory and
//! answers with an HTTP redirect to the matching human-facing page. This
//! crate holds the verified core: host resolution for analytics
//! attribution, redirect-target construction, response classification,
//! and the decision logic around the remote directory lookups. The
//! network edges (inbound HTTP, outbound lookups, event delivery) live in
//! the surrounding binary, which hands this crate plain values.

pub mod analytics;
pub mod curseforge;
pub mod text;
pub mod util;
pub mod web;
