use repo_host::git::server::{redirect, MOVED_PERMANENTLY};
use repo_host::util::discord::{DiscordWebhookMessage, SendEvent, SendStep, WebhookPost};
use repo_host::util::markdown::{break_lines, markdown_to_html_with_line_breaks};
use repo_host::util::text::{characters, has_line, join, join3, same_text};

#[test]
fn has_line_finds_a_whole_line() {
    assert!(has_line("alpha\nbeta\ngamma\n", "alpha"));
    assert!(has_line("alpha\nbeta\ngamma\n", "beta"));
    assert!(has_line("alpha\nbeta\ngamma\n", "gamma"));
    assert!(has_line("alpha\nbeta\ngamma", "gamma"));
    assert!(has_line("alpha", "alpha"));
    assert!(has_line("héllo\nwörld\n", "wörld"));
    assert!(has_line("a\n\nb\n", ""));
    assert!(has_line("\n", ""));
}

#[test]
fn has_line_rejects_a_part_of_a_line() {
    assert!(!has_line("alphabet\n", "alpha"));
    assert!(!has_line("an alpha\n", "alpha"));
    assert!(!has_line("alpha beta\n", "beta"));
    assert!(!has_line("x-alpha-x", "alpha"));
    assert!(!has_line("alpha\n", "Alpha"));
    assert!(!has_line("alpha\n", "alpha\n"));
    assert!(!has_line("alpha\nbeta\n", "alpha\nbeta"));
    assert!(!has_line("alpha\r\n", "alpha"));
}

#[test]
fn has_line_counts_no_line_after_the_last_line_feed() {
    assert!(!has_line("", ""));
    assert!(!has_line("alpha\n", ""));
    assert!(!has_line("alpha", ""));
    assert!(!has_line("", "alpha"));
    assert!(!has_line("al", "alpha"));
}

#[test]
fn characters_are_the_text_in_order() {
    assert_eq!(characters("aé🦀"), vec!['a', 'é', '🦀']);
    assert_eq!(characters(""), Vec::<char>::new());
}

#[test]
fn same_text_compares_characters() {
    assert!(same_text("make", "make"));
    assert!(!same_text("make", "Make"));
    assert!(!same_text("make", "makefile"));
    assert!(same_text("", ""));
}

#[test]
fn join_keeps_the_order() {
    assert_eq!(join("ab", "cd"), "abcd");
    assert_eq!(join("", "cd"), "cd");
    assert_eq!(join3("a", "", "c"), "ac");
    assert_eq!(join3("x(", "y", ")"), "x(y)");
}

#[test]
fn break_lines_replaces_each_line_feed() {
    assert_eq!(break_lines("a\nb"), "a<br>b");
    assert_eq!(break_lines("\n\n"), "<br><br>");
    assert_eq!(break_lines("no feed"), "no feed");
    assert_eq!(break_lines(""), "");
    assert_eq!(break_lines("crlf\r\n"), "crlf\r<br>");
}

#[test]
fn markdown_is_rendered_and_then_broken_into_lines() {
    assert_eq!(markdown_to_html_with_line_breaks("# Title"), "<h1>Title</h1><br>");
    assert_eq!(
        markdown_to_html_with_line_breaks("hello\n=====\n\n* alpha\n* beta\n"),
        "<h1>hello</h1><br><ul><br><li>alpha</li><br><li>beta</li><br></ul><br>"
    );
    assert_eq!(markdown_to_html_with_line_breaks(""), "");
    assert_eq!(
        markdown_to_html_with_line_breaks("~~gone~~"),
        "<p><del>gone</del></p><br>"
    );
}

#[test]
fn redirect_sends_every_name_to_one_address() {
    for name in ["demo", "", "a/b"] {
        let answer = redirect(name);
        assert_eq!(answer.status, MOVED_PERMANENTLY);
        assert_eq!(answer.status, 301);
        assert_eq!(answer.location, "/test123/again");
    }
}

#[test]
fn a_notice_is_posted_as_one_green_embed() {
    let hook = DiscordWebhookMessage::new("https://discord.example/api/webhooks/1".to_string());
    assert_eq!(
        hook.send("Hello", "This is a test message", "Hello from Rust!", SendEvent::Begin),
        SendStep::Post(WebhookPost {
            url: "https://discord.example/api/webhooks/1".to_string(),
            content_type: "application/json".to_string(),
            content: "Hello from Rust!".to_string(),
            title: "Hello".to_string(),
            description: "This is a test message".to_string(),
            color: 65280,
        })
    );
}

#[test]
fn the_answer_to_a_notice_is_reported_in_one_line() {
    let hook = DiscordWebhookMessage::new("https://discord.example/hook".to_string());
    assert_eq!(
        hook.send("t", "d", "c", SendEvent::Answered { code: 200, status: "200 OK".to_string() }),
        SendStep::Done("Message sent successfully!".to_string())
    );
    assert_eq!(
        hook.send(
            "t",
            "d",
            "c",
            SendEvent::Answered { code: 204, status: "204 No Content".to_string() }
        ),
        SendStep::Done("Failed to send message: 204 No Content".to_string())
    );
    assert_eq!(
        hook.send(
            "t",
            "d",
            "c",
            SendEvent::Answered { code: 404, status: "404 Not Found".to_string() }
        ),
        SendStep::Done("Failed to send message: 404 Not Found".to_string())
    );
}
