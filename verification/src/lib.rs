//! Links the memberships of an organisation to Lichess accounts, and takes
//! lapsed members out of the organisation's team.
//!
//! The library decides; it does not talk to the network, the database or
//! the disk. Whoever uses it carries out what it asks for and tells it what
//! came of that:
//!
//! - `db` is the membership store: what linking, looking up and deleting
//!   mean, with the proof that no identity is ever linked twice. `sql` holds
//!   the statements that do the same on a database.
//! - `org` is the calendar: when a membership year ends and until when a
//!   lapsed membership can be renewed, in the zone of the organisation.
//!   `ecf` is the same for the English Chess Federation.
//! - `azolve` confirms a claimed membership with the authority, and
//!   `linking` links a confirmed one.
//! - `expwatch` is the watch that takes lapsed members out, round after
//!   round.
//! - `lichess` and `http` describe the requests to Lichess, `oauth`,
//!   `session` and `randstr` the login, `routes` and `tempctx` the pages.

pub mod azolve;
pub mod config;
pub mod db;
pub mod ecf;
pub mod expwatch;
pub mod http;
pub mod lichess;
pub mod linking;
pub mod oauth;
pub mod org;
pub mod randstr;
pub mod routes;
pub mod session;
pub mod sql;
pub mod tempctx;
pub mod textlog;
pub mod types;
