//! Request filters that give a language model the tools of a skill.
//!
//! Four filters work on a request, one after the other, and hand on what they find out in the
//! request's metadata:
//!
//! 1. [`context_extractor`] takes values out of request headers, such as the environment that a
//!    request belongs to;
//! 2. [`skill_resolver`] finds out which skill the request is for;
//! 3. [`vmcp_manager`] creates a virtual MCP server for the environment and the skill, and
//!    fetches the tools that the server offers;
//! 4. [`mcp_tools_enricher`] injects these tools into the request's body.
//!
//! What holds of the four together is in [`chain`].

pub mod body;
pub mod chain;
pub mod context_extractor;
pub mod filter;
pub mod headers;
pub mod json;
pub mod mcp_tools_enricher;
pub mod metadata;
pub mod pattern;
pub mod skill_resolver;
pub mod status;
pub mod store;
pub mod text;
pub mod vmcp_manager;
