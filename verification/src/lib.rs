//! Serving one Markdown document as a web page: the calendar arithmetic behind
//! the log timestamps, the resolution of the host's time zone, and the page
//! and response that each request receives.

pub mod calendar;
pub mod clock;
pub mod console;
pub mod decimal;
pub mod page;
pub mod response;
pub mod text;
pub mod timestamp;
pub mod timezone;
