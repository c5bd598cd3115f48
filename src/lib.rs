//! Probing of personal "homo" pages: identities, response validation,
//! avatar resolution and the check pipeline's decisions.
pub mod text;
pub mod provider;
pub mod matching;
pub mod validation;
pub mod url;
pub mod data;
pub mod avatar;
pub mod api;
