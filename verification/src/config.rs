//! Settings of the mail account that notifications are sent from.

use crate::mailbox::{is_mailbox, parses_as_mailbox};
use vstd::prelude::*;

verus! {

/// The account a notifier sends from and the address it sends to.
///
/// A value is filled in once, before a notifier is built from it, and is not
/// changed afterwards.
pub struct Config {
    /// Host name of the SMTP server.
    pub smtp_server: String,
    /// Address the mail is sent from; also the login name at the server.
    pub sender_email: String,
    /// Secret that logs `sender_email` in at the server.
    pub password: String,
    /// Address the mail is sent to.
    pub recipient_email: String,
    /// Port of the SMTP server.
    pub port: u16,
}

/// A [`Config`] as plain mathematical values.
pub struct ConfigView {
    pub smtp_server: Seq<char>,
    pub sender_email: Seq<char>,
    pub password: Seq<char>,
    pub recipient_email: Seq<char>,
    pub port: u16,
}

impl View for Config {
    type V = ConfigView;

    open spec fn view(&self) -> ConfigView {
        ConfigView {
            smtp_server: self.smtp_server@,
            sender_email: self.sender_email@,
            password: self.password@,
            recipient_email: self.recipient_email@,
            port: self.port,
        }
    }
}

/// What is wrong with the addresses of a [`Config`].
#[derive(Debug, Clone, Copy, PartialEq, Eq)]
pub enum ConfigError {
    /// `sender_email` does not name a mailbox.
    InvalidSender,
    /// `sender_email` names a mailbox, `recipient_email` does not.
    InvalidRecipient,
}

/// The verdict on a pair of addresses, given whether each names a mailbox.
/// The sender is judged first: where both are malformed, the sender is
/// reported.
pub open spec fn address_check(sender_ok: bool, recipient_ok: bool) -> Result<(), ConfigError> {
    if !sender_ok {
        Err(ConfigError::InvalidSender)
    } else if !recipient_ok {
        Err(ConfigError::InvalidRecipient)
    } else {
        Ok(())
    }
}

impl ConfigError {
    /// The verdict on a pair of addresses, given whether each names a
    /// mailbox.
    pub fn check(sender_ok: bool, recipient_ok: bool) -> (r: Result<(), ConfigError>)
        ensures
            r == address_check(sender_ok, recipient_ok),
    {
        if !sender_ok {
            Err(ConfigError::InvalidSender)
        } else if !recipient_ok {
            Err(ConfigError::InvalidRecipient)
        } else {
            Ok(())
        }
    }
}

impl ConfigView {
    /// The verdict on the two addresses of these settings.
    pub open spec fn checked(self) -> Result<(), ConfigError> {
        address_check(is_mailbox(self.sender_email), is_mailbox(self.recipient_email))
    }
}

/// Where the settings file lies below the home directory `home`: the file
/// `.email_notifier.json` directly inside it.
pub open spec fn config_path_of(home: Seq<char>) -> Seq<char> {
    home + "/.email_notifier.json"@
}

impl Config {
    /// The path of the settings file of the user whose home directory is
    /// `home`.
    pub fn config_path(home: &str) -> (path: String)
        ensures
            path@ == config_path_of(home@),
    {
        String::from_str(home).concat("/.email_notifier.json")
    }

    /// Checks that the sender and the recipient each name a mailbox.
    pub fn check_addresses(&self) -> (r: Result<(), ConfigError>)
        ensures
            r == self@.checked(),
    {
        let sender_ok = parses_as_mailbox(self.sender_email.as_str());
        let recipient_ok = parses_as_mailbox(self.recipient_email.as_str());
        ConfigError::check(sender_ok, recipient_ok)
    }
}

} // verus!
