//! Image Lab asks image services for pictures and remembers what became of every request.
//!
//! This crate holds the rules of the application: what its settings mean, what it sends to a
//! service, what it reads from the answers, and how the history of requests changes. It reads no
//! file and opens no connection. Where a request needs the outside world, a function says what is
//! to be done there, and another one goes on with the result.
//!
//! - [`model`] holds the records, [`store`] the state of the application.
//! - [`settings`] brings the settings into normal form and picks the service in use.
//! - [`generate`], [`download`] and [`reference`](mod@reference) take the user's requests.
//! - [`submit`], [`query`] and [`poll`] deal with a service: they hand a request over, ask after
//!   it, and decide whether to ask again. [`http`] and [`json`] read what it answers.
//! - [`history`] changes the items of the history.
//! - [`paths`], [`ids`], [`time`], [`encoding`] and [`text`] are what the rest is made of.
//! - [`laws`] states and proves what holds of all of this together.

pub mod download;
pub mod encoding;
pub mod generate;
pub mod history;
pub mod http;
pub mod ids;
pub mod json;
pub mod laws;
pub mod model;
pub mod paths;
pub mod poll;
pub mod query;
pub mod reference;
pub mod settings;
pub mod store;
pub mod submit;
pub mod text;
pub mod time;
