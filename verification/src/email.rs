//! An email ready to be handed to a mail transport.

use crate::config::{Config, ConfigView};
use crate::notification::{Notification, NotificationView};
use vstd::prelude::*;

verus! {

/// One email: who sends it, who receives it, its subject line and its body
/// text. This is all a transport needs besides the account settings.
#[derive(Debug, PartialEq, Eq)]
pub struct Email {
    pub sender: String,
    pub recipient: String,
    pub subject: String,
    pub body: String,
}

/// An [`Email`] as plain mathematical values.
pub struct EmailView {
    pub sender: Seq<char>,
    pub recipient: Seq<char>,
    pub subject: Seq<char>,
    pub body: Seq<char>,
}

impl View for Email {
    type V = EmailView;

    open spec fn view(&self) -> EmailView {
        EmailView {
            sender: self.sender@,
            recipient: self.recipient@,
            subject: self.subject@,
            body: self.body@,
        }
    }
}

impl EmailView {
    /// The notification `notification`, sent from and to the addresses of
    /// `config`.
    pub open spec fn addressed(config: ConfigView, notification: NotificationView) -> EmailView {
        EmailView {
            sender: config.sender_email,
            recipient: config.recipient_email,
            subject: notification.subject,
            body: notification.body,
        }
    }
}

impl Email {
    /// Addresses `notification` from the sender of `config` to its
    /// recipient. Subject and body are taken over unchanged.
    pub fn addressed(config: &Config, notification: Notification) -> (email: Email)
        ensures
            email@ == EmailView::addressed(config@, notification@),
    {
        Email {
            sender: config.sender_email.clone(),
            recipient: config.recipient_email.clone(),
            subject: notification.subject,
            body: notification.body,
        }
    }
}

} // verus!
