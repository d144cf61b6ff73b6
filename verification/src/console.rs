//! The lines that the server writes to its console.

use crate::decimal::{decimal, push_padded};
use crate::text::{str_view, text_view};
use crate::timestamp::{clock_text, date};
use crate::timezone::{TimeZoneInfo, ZoneView};
use vstd::prelude::*;

verus! {

/// What stands before the timestamp of a line: the switch to grey.
pub const LINE_OPENING: &'static str = "\x1b[90m";

/// What stands between the timestamp and the message: the bar, and the
/// switch back from grey.
pub const LINE_BAR: &'static str = " |\x1b[0m ";

/// What the server says first, up to the document's path.
pub const SERVING: &'static str = "Serving ";

/// What stands between the document's path and the address.
pub const SERVING_AT: &'static str = " at http://";

/// What ends the server's first message.
pub const SERVING_CLOSING: &'static str = " ...";

/// What the server says of a request, up to the peer's address, which is
/// written in cyan.
pub const REQUEST_FROM: &'static str = "Request received from \x1b[36m";

/// What ends the message on a request: the switch back from cyan.
pub const REQUEST_CLOSING: &'static str = "\x1b[0m";

/// What stands for the address of a peer that has none.
pub const UNKNOWN_PEER: &'static str =
    "somewhere \x1b[90m(idk, maybe a unix socket, maybe somewhere in Lithuania)";

/// What the server says of a document that it could not read, up to the
/// document's path.
pub const UNREADABLE: &'static str = "\x1b[31mCould not read ";

/// What ends the message on an unreadable document.
pub const UNREADABLE_CLOSING: &'static str = ", serving a stand-in\x1b[0m";

/// What the server says of Markdown that it could not render, up to the
/// failure's message.
pub const RENDER_FAILED: &'static str = "\x1b[31mCould not render the document: ";

/// What ends the message on a failed rendering.
pub const RENDER_FAILED_CLOSING: &'static str = "\x1b[0m";

/// The address to listen on: `address`, a colon, and `port` in decimal.
pub open spec fn bind_address_text(address: Seq<char>, port: u16) -> Seq<char> {
    address + seq![':'] + decimal(port as nat)
}

/// One line of the console: the timestamp in grey, a bar, the message.
pub open spec fn log_line_text(stamp: Seq<char>, message: Seq<char>) -> Seq<char> {
    LINE_OPENING@ + stamp + LINE_BAR@ + message
}

/// The server's first message: which document it serves, and where.
pub open spec fn startup_text(file: Seq<char>, bind_address: Seq<char>) -> Seq<char> {
    SERVING@ + file + SERVING_AT@ + bind_address + SERVING_CLOSING@
}

/// The message on a request from `peer`, or from a peer without an address.
pub open spec fn request_text(peer: Option<Seq<char>>) -> Seq<char> {
    REQUEST_FROM@ + match peer {
        Some(address) => address,
        None => UNKNOWN_PEER@,
    } + REQUEST_CLOSING@
}

/// The message on a document that could not be read.
pub open spec fn unreadable_text(file: Seq<char>) -> Seq<char> {
    UNREADABLE@ + file + UNREADABLE_CLOSING@
}

/// The message on Markdown that could not be rendered.
pub open spec fn render_failed_text(error: Seq<char>) -> Seq<char> {
    RENDER_FAILED@ + error + RENDER_FAILED_CLOSING@
}

/// The address to listen on: `address`, a colon, and `port` in decimal.
pub fn bind_address(address: &str, port: u16) -> (text: String)
    ensures
        text@ == bind_address_text(address@, port),
{
    proof {
        reveal_strlit(":");
    }
    let mut text = String::new();
    text.append(address);
    text.append(":");
    push_padded(&mut text, port as u64, 0);
    assert(text@ =~= bind_address_text(address@, port));
    text
}

/// One line of the console: the timestamp in grey, a bar, the message.
pub fn log_line(stamp: &str, message: &str) -> (line: String)
    ensures
        line@ == log_line_text(stamp@, message@),
{
    let mut line = String::new();
    line.append(LINE_OPENING);
    line.append(stamp);
    line.append(LINE_BAR);
    line.append(message);
    assert(line@ =~= log_line_text(stamp@, message@));
    line
}

/// The server's first message: which document it serves, and where.
pub fn startup_message(file: &str, bind_address: &str) -> (message: String)
    ensures
        message@ == startup_text(file@, bind_address@),
{
    let mut message = String::new();
    message.append(SERVING);
    message.append(file);
    message.append(SERVING_AT);
    message.append(bind_address);
    message.append(SERVING_CLOSING);
    assert(message@ =~= startup_text(file@, bind_address@));
    message
}

/// The message on a request from `peer`, or from a peer without an address.
pub fn request_message(peer: Option<&str>) -> (message: String)
    ensures
        message@ == request_text(str_view(peer)),
{
    let mut message = String::new();
    message.append(REQUEST_FROM);
    match peer {
        Some(address) => message.append(address),
        None => message.append(UNKNOWN_PEER),
    }
    message.append(REQUEST_CLOSING);
    assert(message@ =~= request_text(str_view(peer)));
    message
}

/// The message on a document that could not be read.
pub fn unreadable_message(file: &str) -> (message: String)
    ensures
        message@ == unreadable_text(file@),
{
    let mut message = String::new();
    message.append(UNREADABLE);
    message.append(file);
    message.append(UNREADABLE_CLOSING);
    assert(message@ =~= unreadable_text(file@));
    message
}

/// The message on Markdown that could not be rendered.
pub fn render_failed_message(error: &str) -> (message: String)
    ensures
        message@ == render_failed_text(error@),
{
    let mut message = String::new();
    message.append(RENDER_FAILED);
    message.append(error);
    message.append(RENDER_FAILED_CLOSING);
    assert(message@ =~= render_failed_text(error@));
    message
}

/// The line that says `message` at a reading of the clock, in zone `zone`;
/// none where that reading has no timestamp.
pub open spec fn entry_text(clock: Option<u64>, zone: ZoneView, message: Seq<char>) -> Option<
    Seq<char>,
> {
    match clock_text(clock, zone) {
        Some(stamp) => Some(log_line_text(stamp, message)),
        None => None,
    }
}

/// The line that says `message` now: stamped with what the system clock
/// reads, whatever that is, in zone `tz`. `None` where no timestamp can be
/// given.
pub fn log_entry(tz: &TimeZoneInfo, message: &str) -> (line: Option<String>)
    ensures
        exists|clock: Option<u64>| text_view(line) == #[trigger] entry_text(clock, tz@, message@),
{
    let stamp = date(tz);
    let ghost clock = choose|clock: Option<u64>| text_view(stamp) == clock_text(clock, tz@);
    let line = match stamp {
        Some(stamp) => Some(log_line(stamp.as_str(), message)),
        None => None,
    };
    assert(text_view(line) == entry_text(clock, tz@, message@));
    line
}

} // verus!
