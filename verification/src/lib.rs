//! Unified search over posts, comments, communities and users, with
//! resolution of federated object identifiers.
//!
//! A search first tries to read its query as the identifier of an object on
//! another host ([`resolver`]). Where that fails it queries the local rows
//! of the requested kinds ([`query`]), each kind filtered, ranked and paged
//! on its own, and assembles the answer ([`response`]). The order of these
//! steps, and what each outcome leads to, is decided by the dispatcher
//! ([`dispatch`]); fetching, storing and loading are left to its caller.
//! [`search`] runs a whole search on given answers of the outside, and
//! [`laws`] states what holds of every search.

pub mod dispatch;
pub mod entity;
pub mod kinds;
pub mod laws;
pub mod query;
pub mod ranking;
pub mod resolver;
pub mod response;
pub mod search;
pub mod site;
pub mod text;
pub mod uri;
