//! The core of a client that gets the inline comments of a pull request
//! from the REST API of GitHub or of a GitHub Enterprise host: reading the
//! target from a pull-request URL, validating a repository and a hostname,
//! finding the token, building the requests, reading the replies page by
//! page, and laying out what was fetched.
//!
//! The library does no input or output. Where outside work is due (an
//! environment variable, the credential helper, an HTTP request) it says
//! what to do and takes what came of it.

pub mod credentials;
pub mod display;
pub mod error;
pub mod github_api;
pub mod github_url;
pub mod host;
pub mod repo;
pub mod text;
