//! Decision logic of a small file gateway: one request interface in front of
//! a local directory, an object-store bucket and a database table.
//!
//! The crate performs no I/O. A caller performs each step it is handed and
//! reports the outcome; the functions here decide what follows.
//!
//! - [`kinds`]: backends, operations, kinds of failure and their statuses.
//! - [`text`]: strict and lenient decoding of UTF-8.
//! - [`payload`]: the request body as a byte buffer.
//! - [`name`]: file names as relative paths that stay below a root.
//! - [`reply`]: the answers to a request and their wording.
//! - [`provision`]: bringing a bucket or a table into existence.
//! - [`transfer`]: the steps of a write and of a read.
//! - [`model`]: what those steps achieve against backends that behave.

pub mod kinds;
pub mod model;
pub mod name;
pub mod payload;
pub mod provision;
pub mod reply;
pub mod text;
pub mod transfer;
