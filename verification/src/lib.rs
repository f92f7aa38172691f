//! Reading the device's last known GPS fix and telling the user how it went.
//!
//! The library holds the decisions and leaves the doing to its caller:
//!
//! - [`fetch`] is the policy of the fetch: which platform call comes next,
//!   and what each reply means. A driver performs the calls.
//! - [`platform`] names those calls, says how each is invoked, and defines
//!   the replies.
//! - [`outcome`] is the result of a fetch: a coordinate pair or a reason.
//! - [`display`] turns a result into the line of text shown to the user,
//!   with [`decimal`] writing the coordinates.
//! - [`shell`] is the window that shows the line, while it is there.

pub mod decimal;
pub mod display;
pub mod fetch;
pub mod outcome;
pub mod platform;
pub mod shell;
