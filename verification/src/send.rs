//! The notifier: sends tagged emails, and wraps a unit of work in a closing
//! notification.
//!
//! The notifier does not talk to a mail server itself. Every sending
//! function takes the transport as its last argument: a function that is
//! handed the account settings and one finished [`Email`], attempts one
//! delivery, and answers how it went. A transport is used for one email and
//! then gone, so a send can reach it at most once.

use crate::config::{Config, ConfigError, ConfigView};
use crate::email::{Email, EmailView};
use crate::notification::{Notification, NotificationView};
use vstd::prelude::*;

verus! {

/// Why an email was not sent.
#[derive(Debug, PartialEq, Eq)]
pub enum SendError<X> {
    /// A configured address is malformed.
    Config(ConfigError),
    /// The transport was handed the email and reported this failure.
    Transport(X),
}

/// `deliver` may be handed settings that read `config` together with an
/// email that reads `email`.
pub open spec fn accepts<X, D: FnOnce(&Config, Email) -> Result<(), X>>(
    deliver: D,
    config: ConfigView,
    email: EmailView,
) -> bool {
    forall|c: &Config, e: Email|
        c@ == config && e@ == email ==> #[trigger] call_requires(deliver, (c, e))
}

/// `deliver` was handed settings that read `config` together with an email
/// that reads `email`, and answered `answer`.
pub open spec fn handed<X, D: FnOnce(&Config, Email) -> Result<(), X>>(
    deliver: D,
    config: ConfigView,
    email: EmailView,
    answer: Result<(), X>,
) -> bool {
    exists|c: &Config, e: Email|
        c@ == config && e@ == email && #[trigger] call_ensures(deliver, (c, e), answer)
}

/// How a captured run ended: what the work gave, and how the sending of the
/// closing notification went.
#[derive(Debug, PartialEq, Eq)]
pub struct Captured<T, E, X> {
    /// What the work returned, exactly as it returned it.
    pub outcome: Result<T, E>,
    /// Whether the closing notification was sent.
    pub notified: Result<(), SendError<X>>,
}

/// Why a captured run does not count as a success.
#[derive(Debug, PartialEq, Eq)]
pub enum CaptureError<T, E, X> {
    /// The work faulted with this fault, and the error notification was
    /// sent.
    Fault(E),
    /// The closing notification could not be sent. `outcome` is what the
    /// work had returned.
    Unsent { outcome: Result<T, E>, cause: SendError<X> },
}

impl<T, E, X> Captured<T, E, X> {
    /// The run as a single result, with a failed notification counted as
    /// fatal.
    ///
    /// A failure to send comes first, whatever the work did; the work's
    /// outcome travels inside it. Otherwise the work's value or fault is
    /// handed on unchanged.
    pub open spec fn settled(self) -> Result<T, CaptureError<T, E, X>> {
        match self.notified {
            Err(cause) => Err(CaptureError::Unsent { outcome: self.outcome, cause }),
            Ok(_) => match self.outcome {
                Ok(value) => Ok(value),
                Err(fault) => Err(CaptureError::Fault(fault)),
            },
        }
    }

    /// Turns the run into a single result, with a failed notification
    /// counted as fatal.
    pub fn settle(self) -> (r: Result<T, CaptureError<T, E, X>>)
        ensures
            r == self.settled(),
    {
        match self.notified {
            Err(cause) => Err(CaptureError::Unsent { outcome: self.outcome, cause }),
            Ok(_) => match self.outcome {
                Ok(value) => Ok(value),
                Err(fault) => Err(CaptureError::Fault(fault)),
            },
        }
    }
}

/// Holds the account settings and the tag of the monitored process. The tag
/// opens the subject line and the body of every notification.
///
/// A notifier keeps no record of what it has sent: each send stands alone.
pub struct EmailNotifier {
    config: Config,
    tag: String,
}

/// An [`EmailNotifier`] as plain mathematical values.
pub struct EmailNotifierView {
    pub config: ConfigView,
    pub tag: Seq<char>,
}

impl View for EmailNotifier {
    type V = EmailNotifierView;

    closed spec fn view(&self) -> EmailNotifierView {
        EmailNotifierView { config: self.config@, tag: self.tag@ }
    }
}

impl EmailNotifierView {
    /// The email that carries `notification` for this notifier: from the
    /// configured sender to the configured recipient.
    pub open spec fn email(self, notification: NotificationView) -> EmailView {
        EmailView::addressed(self.config, notification)
    }

    /// `deliver` may be asked to send `notification` for this notifier.
    pub open spec fn may_send<X, D: FnOnce(&Config, Email) -> Result<(), X>>(
        self,
        notification: NotificationView,
        deliver: D,
    ) -> bool {
        accepts(deliver, self.config, self.email(notification))
    }

    /// `deliver` was handed this notifier's settings and the email that
    /// carries `notification`, and answered `answer`.
    pub open spec fn delivered<X, D: FnOnce(&Config, Email) -> Result<(), X>>(
        self,
        notification: NotificationView,
        deliver: D,
        answer: Result<(), X>,
    ) -> bool {
        handed(deliver, self.config, self.email(notification), answer)
    }

    /// What sending `notification` through `deliver` comes to.
    ///
    /// If a configured address is malformed, the result is that fault.
    /// Otherwise `deliver` was handed the email that carries `notification`,
    /// and the result is what it answered: `Ok`, or its failure unchanged.
    pub open spec fn sent<X, D: FnOnce(&Config, Email) -> Result<(), X>>(
        self,
        notification: NotificationView,
        deliver: D,
        r: Result<(), SendError<X>>,
    ) -> bool {
        match self.config.checked() {
            Err(fault) => r == Err::<(), SendError<X>>(SendError::Config(fault)),
            Ok(_) => match r {
                Ok(_) => self.delivered(notification, deliver, Ok(())),
                Err(SendError::Transport(failure)) => self.delivered(
                    notification,
                    deliver,
                    Err(failure),
                ),
                Err(SendError::Config(_)) => false,
            },
        }
    }
}

impl EmailNotifier {
    /// Makes a notifier for the process named `tag` that sends with the
    /// account settings `config`.
    pub fn new(config: Config, tag: &str) -> (notifier: EmailNotifier)
        ensures
            notifier@.config == config@,
            notifier@.tag == tag@,
    {
        EmailNotifier { config, tag: String::from_str(tag) }
    }

    /// The account settings this notifier sends with.
    pub fn config(&self) -> (config: &Config)
        ensures
            config@ == self@.config,
    {
        &self.config
    }

    /// The tag of the monitored process.
    pub fn tag(&self) -> (tag: &str)
        ensures
            tag@ == self@.tag,
    {
        self.tag.as_str()
    }

    /// Sends one email with the given subject and body through `deliver`.
    ///
    /// The configured addresses are checked first; a malformed one is the
    /// error. Otherwise `deliver` is handed the email, and a failure that it
    /// reports is passed on unchanged.
    pub fn send_email<X, D: FnOnce(&Config, Email) -> Result<(), X>>(
        &self,
        subject: String,
        body: String,
        deliver: D,
    ) -> (r: Result<(), SendError<X>>)
        requires
            self@.may_send((NotificationView { subject: subject@, body: body@ }), deliver),
        ensures
            self@.sent((NotificationView { subject: subject@, body: body@ }), deliver, r),
    {
        match self.config.check_addresses() {
            Err(fault) => Err(SendError::Config(fault)),
            Ok(_) => {
                let email = Email::addressed(&self.config, Notification { subject, body });
                let ghost handed_over = email;
                let answer = deliver(&self.config, email);
                assert(call_ensures(deliver, (&self.config, handed_over), answer));
                match answer {
                    Ok(done) => {
                        assert(done == ());
                        Ok(())
                    },
                    Err(failure) => Err(SendError::Transport(failure)),
                }
            },
        }
    }

    /// Sends a progress update: the subject is the tag followed by
    /// ` Update`, the body is `body`.
    pub fn send_update<X, D: FnOnce(&Config, Email) -> Result<(), X>>(
        &self,
        body: String,
        deliver: D,
    ) -> (r: Result<(), SendError<X>>)
        requires
            self@.may_send(NotificationView::update(self@.tag, body@), deliver),
        ensures
            self@.sent(NotificationView::update(self@.tag, body@), deliver, r),
    {
        let update = Notification::update(self.tag.as_str(), body);
        self.send_email(update.subject, update.body, deliver)
    }

    /// Sends the message that the process has completed: the subject is the
    /// tag followed by ` Complete`, the body the tag followed by
    /// ` has completed successfully.`
    pub fn send_success<X, D: FnOnce(&Config, Email) -> Result<(), X>>(&self, deliver: D) -> (r: Result<
        (),
        SendError<X>,
    >)
        requires
            self@.may_send(NotificationView::success(self@.tag), deliver),
        ensures
            self@.sent(NotificationView::success(self@.tag), deliver, r),
    {
        let success = Notification::success(self.tag.as_str());
        self.send_email(success.subject, success.body, deliver)
    }

    /// Sends the message that the process has failed: the subject is the tag
    /// followed by ` Error!`, the body the tag followed by
    /// ` has encountered a error and has panicked.`
    pub fn send_error<X, D: FnOnce(&Config, Email) -> Result<(), X>>(&self, deliver: D) -> (r: Result<
        (),
        SendError<X>,
    >)
        requires
            self@.may_send(NotificationView::error(self@.tag), deliver),
        ensures
            self@.sent(NotificationView::error(self@.tag), deliver, r),
    {
        let error = Notification::error(self.tag.as_str());
        self.send_email(error.subject, error.body, deliver)
    }

    /// Runs `work`, then sends exactly one closing notification through
    /// `deliver`: the success message if `work` returned `Ok`, the error
    /// message if it returned `Err`.
    ///
    /// The work is handed this notifier, so that it can send updates of its
    /// own while it runs. Its outcome comes back as it was, next to the
    /// result of the closing send. The send is attempted in either case, and
    /// before anything is returned.
    pub fn capture<T, E, X, W, D>(self, work: W, deliver: D) -> (run: Captured<T, E, X>) where
        W: FnOnce(&EmailNotifier) -> Result<T, E>,
        D: FnOnce(&Config, Email) -> Result<(), X>,

        requires
            call_requires(work, (&self,)),
            self@.may_send(NotificationView::success(self@.tag), deliver),
            self@.may_send(NotificationView::error(self@.tag), deliver),
        ensures
            call_ensures(work, (&self,), run.outcome),
            run.outcome is Ok ==> self@.sent(
                NotificationView::success(self@.tag),
                deliver,
                run.notified,
            ),
            run.outcome is Err ==> self@.sent(
                NotificationView::error(self@.tag),
                deliver,
                run.notified,
            ),
    {
        let outcome = work(&self);
        let notified = match &outcome {
            Ok(_) => self.send_success(deliver),
            Err(_) => self.send_error(deliver),
        };
        Captured { outcome, notified }
    }
}

/// Sending the same update twice is two deliveries, not one.
///
/// Take two sends of the update `body` by one notifier with well-formed
/// addresses, through the transports `first` and `second`, with results
/// `r1` and `r2`. Then each transport was handed the update email, and each
/// result is the answer of its own transport: the second send is not
/// skipped, and it does not inherit the fate of the first.
pub proof fn lemma_repeated_update_is_sent_again<X, D1, D2>(
    notifier: EmailNotifierView,
    body: Seq<char>,
    first: D1,
    r1: Result<(), SendError<X>>,
    second: D2,
    r2: Result<(), SendError<X>>,
) where D1: FnOnce(&Config, Email) -> Result<(), X>, D2: FnOnce(&Config, Email) -> Result<(), X>
    requires
        notifier.config.checked() is Ok,
        notifier.sent(NotificationView::update(notifier.tag, body), first, r1),
        notifier.sent(NotificationView::update(notifier.tag, body), second, r2),
    ensures
        notifier.delivered(NotificationView::update(notifier.tag, body), first, transport_answer(r1)),
        notifier.delivered(NotificationView::update(notifier.tag, body), second, transport_answer(r2)),
{
}

/// The transport's answer behind the result of a send that reached the
/// transport.
pub open spec fn transport_answer<X>(r: Result<(), SendError<X>>) -> Result<(), X> {
    match r {
        Err(SendError::Transport(failure)) => Err(failure),
        _ => Ok(()),
    }
}

/// A captured run never passes for a success unless it was one, and a fault
/// of the work is never lost.
///
/// The settled result is `Ok` exactly when the work returned `Ok` and the
/// closing notification was sent, and it then holds the work's value. A
/// fault of the work comes back unchanged: as the error itself when the
/// notification was sent, inside `Unsent` when it was not.
pub proof fn lemma_settled_hides_no_failure<T, E, X>(run: Captured<T, E, X>)
    ensures
        run.settled() is Ok <==> run.outcome is Ok && run.notified is Ok,
        run.settled() matches Ok(value) ==> run.outcome == Ok::<T, E>(value),
        run.outcome matches Err(fault) ==> {
            ||| run.notified is Ok && run.settled() == Err::<T, CaptureError<T, E, X>>(
                CaptureError::Fault(fault),
            )
            ||| run.notified is Err && (run.settled() matches Err(
                CaptureError::Unsent { outcome, .. },
            ) && outcome == run.outcome)
        },
{
}

} // verus!
