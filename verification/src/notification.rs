//! The wording of the three kinds of notification.

use vstd::prelude::*;

verus! {

/// Subject of a progress update of the process `tag`.
pub open spec fn update_subject(tag: Seq<char>) -> Seq<char> {
    tag + " Update"@
}

/// Subject of the message that reports the success of the process `tag`.
pub open spec fn success_subject(tag: Seq<char>) -> Seq<char> {
    tag + " Complete"@
}

/// Body of the message that reports the success of the process `tag`.
pub open spec fn success_body(tag: Seq<char>) -> Seq<char> {
    tag + " has completed successfully."@
}

/// Subject of the message that reports the failure of the process `tag`.
pub open spec fn error_subject(tag: Seq<char>) -> Seq<char> {
    tag + " Error!"@
}

/// Body of the message that reports the failure of the process `tag`.
pub open spec fn error_body(tag: Seq<char>) -> Seq<char> {
    tag + " has encountered a error and has panicked."@
}

/// A subject line and a body text, not yet addressed to anyone.
#[derive(Debug, PartialEq, Eq)]
pub struct Notification {
    pub subject: String,
    pub body: String,
}

/// A [`Notification`] as plain mathematical values.
pub struct NotificationView {
    pub subject: Seq<char>,
    pub body: Seq<char>,
}

impl View for Notification {
    type V = NotificationView;

    open spec fn view(&self) -> NotificationView {
        NotificationView { subject: self.subject@, body: self.body@ }
    }
}

impl NotificationView {
    /// The progress update of the process `tag` that carries `body`.
    pub open spec fn update(tag: Seq<char>, body: Seq<char>) -> NotificationView {
        NotificationView { subject: update_subject(tag), body }
    }

    /// The message that reports the success of the process `tag`.
    pub open spec fn success(tag: Seq<char>) -> NotificationView {
        NotificationView { subject: success_subject(tag), body: success_body(tag) }
    }

    /// The message that reports the failure of the process `tag`.
    pub open spec fn error(tag: Seq<char>) -> NotificationView {
        NotificationView { subject: error_subject(tag), body: error_body(tag) }
    }
}

impl Notification {
    /// Words a progress update of the process `tag`. The body is `body`,
    /// unchanged.
    pub fn update(tag: &str, body: String) -> (n: Notification)
        ensures
            n@ == NotificationView::update(tag@, body@),
    {
        Notification { subject: String::from_str(tag).concat(" Update"), body }
    }

    /// Words the message that reports the success of the process `tag`.
    pub fn success(tag: &str) -> (n: Notification)
        ensures
            n@ == NotificationView::success(tag@),
    {
        Notification {
            subject: String::from_str(tag).concat(" Complete"),
            body: String::from_str(tag).concat(" has completed successfully."),
        }
    }

    /// Words the message that reports the failure of the process `tag`.
    pub fn error(tag: &str) -> (n: Notification)
        ensures
            n@ == NotificationView::error(tag@),
    {
        Notification {
            subject: String::from_str(tag).concat(" Error!"),
            body: String::from_str(tag).concat(" has encountered a error and has panicked."),
        }
    }
}

} // verus!
