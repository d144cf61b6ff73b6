use serve_md::console::{
    bind_address, log_entry, log_line, render_failed_message, request_message, startup_message,
    unreadable_message,
};
use serve_md::timezone::TimeZoneInfo;

#[test]
fn address_and_port_are_joined_by_a_colon() {
    assert_eq!(bind_address("0.0.0.0", 3000), "0.0.0.0:3000");
    assert_eq!(bind_address("127.0.0.1", 80), "127.0.0.1:80");
    assert_eq!(bind_address("::1", 0), "::1:0");
    assert_eq!(bind_address("localhost", 65535), "localhost:65535");
}

#[test]
fn line_has_timestamp_bar_and_message() {
    assert_eq!(
        log_line("2024-03-07 14:05:09 CET", "hello"),
        "\x1b[90m2024-03-07 14:05:09 CET |\x1b[0m hello"
    );
    assert_eq!(log_line("", ""), "\x1b[90m |\x1b[0m ");
}

#[test]
fn startup_message_names_document_and_address() {
    assert_eq!(
        startup_message("./index.md", "0.0.0.0:3000"),
        "Serving ./index.md at http://0.0.0.0:3000 ..."
    );
}

#[test]
fn request_message_shows_the_peer() {
    assert_eq!(
        request_message(Some("127.0.0.1:54321")),
        "Request received from \x1b[36m127.0.0.1:54321\x1b[0m"
    );
}

#[test]
fn request_message_without_a_peer() {
    assert_eq!(
        request_message(None),
        "Request received from \x1b[36msomewhere \x1b[90m(idk, maybe a unix socket, maybe somewhere in Lithuania)\x1b[0m"
    );
}

#[test]
fn message_on_an_unreadable_document() {
    assert_eq!(
        unreadable_message("./index.md"),
        "\x1b[31mCould not read ./index.md, serving a stand-in\x1b[0m"
    );
}

#[test]
fn message_on_a_failed_rendering() {
    assert_eq!(
        render_failed_message("1:2: Unexpected end"),
        "\x1b[31mCould not render the document: 1:2: Unexpected end\x1b[0m"
    );
}

#[test]
fn entry_is_stamped_by_the_clock() {
    let tz = TimeZoneInfo { offset_sec: 3600, abbr: "CET".to_string() };
    let line = log_entry(&tz, "hello").expect("the clock stands after 1970");
    assert!(line.starts_with("\x1b[90m"));
    assert!(line.ends_with(" CET |\x1b[0m hello"));
}
