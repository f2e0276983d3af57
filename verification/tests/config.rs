use email_notif::notification::Notification;
use email_notif::{Config, ConfigError, Email};

fn account(sender: &str, recipient: &str) -> Config {
    Config {
        smtp_server: "smtp.example.com".to_string(),
        sender_email: sender.to_string(),
        password: "correct horse".to_string(),
        recipient_email: recipient.to_string(),
        port: 587,
    }
}

#[test]
fn config_path_lies_in_the_home_directory() {
    assert_eq!(Config::config_path("/home/ann"), "/home/ann/.email_notifier.json");
    assert_eq!(Config::config_path("/root"), "/root/.email_notifier.json");
}

#[test]
fn config_path_of_an_empty_home() {
    assert_eq!(Config::config_path(""), "/.email_notifier.json");
}

#[test]
fn config_path_keeps_a_trailing_slash_of_the_home() {
    assert_eq!(Config::config_path("/home/ann/"), "/home/ann//.email_notifier.json");
}

#[test]
fn the_verdict_on_each_pair_of_answers() {
    assert_eq!(ConfigError::check(true, true), Ok(()));
    assert_eq!(ConfigError::check(false, true), Err(ConfigError::InvalidSender));
    assert_eq!(ConfigError::check(true, false), Err(ConfigError::InvalidRecipient));
    assert_eq!(ConfigError::check(false, false), Err(ConfigError::InvalidSender));
}

#[test]
fn well_formed_addresses_pass() {
    assert_eq!(account("monitor@example.com", "operator@example.com").check_addresses(), Ok(()));
    assert_eq!(
        account("Build Monitor <monitor@example.com>", "\"Operator, Ann\" <ann@example.org>")
            .check_addresses(),
        Ok(())
    );
}

#[test]
fn malformed_addresses_are_told_apart() {
    assert_eq!(
        account("monitor.example.com", "operator@example.com").check_addresses(),
        Err(ConfigError::InvalidSender)
    );
    assert_eq!(
        account("monitor@example.com", "operator@@example.com").check_addresses(),
        Err(ConfigError::InvalidRecipient)
    );
    assert_eq!(account("", "operator@example.com").check_addresses(), Err(ConfigError::InvalidSender));
    assert_eq!(account("monitor@example.com", "").check_addresses(), Err(ConfigError::InvalidRecipient));
    assert_eq!(account("@", "<>").check_addresses(), Err(ConfigError::InvalidSender));
}

#[test]
fn the_check_agrees_with_lettre() {
    let candidates = [
        "monitor@example.com",
        "Build Monitor <monitor@example.com>",
        "  padded@example.com  ",
        "user@[127.0.0.1]",
        "user@localhost",
        "two words@example.com",
        "monitor@example.com, operator@example.com",
        "<monitor@example.com",
        "monitor@",
        "@example.com",
        "monitor",
        "",
    ];
    for sender in candidates {
        let expected = sender.parse::<lettre::message::Mailbox>().is_ok();
        let verdict = account(sender, "operator@example.com").check_addresses();
        assert_eq!(verdict.is_ok(), expected, "sender {sender:?}");
        let verdict = account("monitor@example.com", sender).check_addresses();
        assert_eq!(verdict.is_ok(), expected, "recipient {sender:?}");
    }
}

#[test]
fn notifications_are_worded_from_the_tag() {
    let update = Notification::update("backup", "42 files copied".to_string());
    assert_eq!(update.subject, "backup Update");
    assert_eq!(update.body, "42 files copied");

    let success = Notification::success("backup");
    assert_eq!(success.subject, "backup Complete");
    assert_eq!(success.body, "backup has completed successfully.");

    let error = Notification::error("backup");
    assert_eq!(error.subject, "backup Error!");
    assert_eq!(error.body, "backup has encountered a error and has panicked.");
}

#[test]
fn an_email_takes_its_addresses_from_the_settings() {
    let email = Email::addressed(
        &account("monitor@example.com", "operator@example.com"),
        Notification { subject: "S".to_string(), body: "B".to_string() },
    );
    assert_eq!(
        email,
        Email {
            sender: "monitor@example.com".to_string(),
            recipient: "operator@example.com".to_string(),
            subject: "S".to_string(),
            body: "B".to_string(),
        }
    );
}
