//! The notifier itself: its configuration, its result type, and the
//! classification of what one HTTP attempt observed.

use vstd::prelude::*;
use crate::digits::decimal_digits;
use crate::digits::u16_to_decimal;
use crate::payload::embed_ready_body;
use crate::payload::embed_ready_body_spec;
use crate::status::is_success_code;
use crate::status::status_is_success;
use crate::url::build_webhook_url;
use crate::url::webhook_url_spec;

verus! {

/// The process-wide configuration the notifier reads: the host of the web
/// application that receives the webhook.
pub struct Config {
    pub webapp_host: String,
}

impl Config {
    /// A configuration for the given web-application host.
    pub fn new(webapp_host: String) -> (c: Config)
        ensures
            c.webapp_host@ == webapp_host@,
    {
        Config { webapp_host }
    }

    /// The URL this configuration posts embedding notifications to.
    pub fn webhook_url(&self) -> (r: String)
        ensures
            r@ == webhook_url_spec(self.webapp_host@),
    {
        build_webhook_url(self.webapp_host.as_str())
    }

    /// Everything the notification request consists of: the webhook URL for
    /// this configuration and the JSON body naming the datasource.
    pub fn embed_ready_request(&self, datasource_id: &str) -> (r: (String, String))
        ensures
            r.0@ == webhook_url_spec(self.webapp_host@),
            r.1@ == embed_ready_body_spec(datasource_id@),
    {
        (self.webhook_url(), embed_ready_body(datasource_id))
    }
}

/// Why a notification failed.
pub enum NotifyError {
    /// The request could not be sent or no response arrived; carries the
    /// transport error's description.
    Transport { detail: String },
    /// A response arrived, but its status lies outside the 2xx range.
    UnsuccessfulResponse { status: u16 },
}

/// The failure message for a response with the given status.
pub open spec fn failure_message_spec(status: u16) -> Seq<char> {
    "Failed to notify webapp. Status: "@ + decimal_digits(status as nat)
}

/// The text of an error: a transport failure shows its description, an
/// unsuccessful response the message that embeds its status.
pub open spec fn message_spec(e: NotifyError) -> Seq<char> {
    match e {
        NotifyError::Transport { detail } => detail@,
        NotifyError::UnsuccessfulResponse { status } => failure_message_spec(status),
    }
}

impl NotifyError {
    /// Renders the error as text.
    pub fn message(&self) -> (r: String)
        ensures
            r@ == message_spec(*self),
    {
        match self {
            NotifyError::Transport { detail } => detail.clone(),
            NotifyError::UnsuccessfulResponse { status } => {
                let mut s = String::from_str("Failed to notify webapp. Status: ");
                let d = u16_to_decimal(*status);
                s.append(d.as_str());
                s
            },
        }
    }
}

/// What one HTTP attempt observed: either a response with its status, or a
/// transport failure (the request could not be sent, or no response arrived)
/// described by text.
pub enum SendOutcome {
    Response { status: u16 },
    TransportFailure { detail: String },
}

/// Maps a received response status to the notifier's result: a 2xx status is
/// success, any other status the failure that embeds it.
pub fn classify_response(status: u16) -> (r: Result<(), NotifyError>)
    ensures
        r is Ok <==> is_success_code(status),
        !is_success_code(status) ==> r == Result::<(), NotifyError>::Err(
            NotifyError::UnsuccessfulResponse { status },
        ),
{
    if status_is_success(status) {
        Ok(())
    } else {
        Err(NotifyError::UnsuccessfulResponse { status })
    }
}

/// The notifier's decision on what one attempt observed: a 2xx response is
/// success; any other response is the failure embedding its status; a
/// transport failure is surfaced unchanged. One attempt, no retry: the
/// result is a function of this one outcome alone.
pub fn notify_outcome(outcome: SendOutcome) -> (r: Result<(), NotifyError>)
    ensures
        r is Ok <==> (outcome matches SendOutcome::Response { status } && is_success_code(
            status,
        )),
        outcome matches SendOutcome::Response { status } ==> (!is_success_code(status)
            ==> r == Result::<(), NotifyError>::Err(
            NotifyError::UnsuccessfulResponse { status },
        )),
        outcome matches SendOutcome::TransportFailure { detail } ==> r == Result::<
            (),
            NotifyError,
        >::Err(NotifyError::Transport { detail }),
{
    match outcome {
        SendOutcome::Response { status } => classify_response(status),
        SendOutcome::TransportFailure { detail } => Err(NotifyError::Transport { detail }),
    }
}

/// A failure over a response status carries that status in its message: the
/// message ends with the decimal digits of the status.
pub proof fn lemma_failure_message_contains_status(status: u16)
    ensures
        failure_message_spec(status).len() >= decimal_digits(status as nat).len(),
        failure_message_spec(status).subrange(
            failure_message_spec(status).len() - decimal_digits(status as nat).len(),
            failure_message_spec(status).len() as int,
        ) == decimal_digits(status as nat),
{
    let msg = failure_message_spec(status);
    let digits = decimal_digits(status as nat);
    assert(msg.subrange(msg.len() - digits.len(), msg.len() as int) =~= digits);
}

} // verus!
