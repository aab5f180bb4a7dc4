//! E-mail sending requests.

use vstd::prelude::*;

pub mod batch;

pub use self::batch::{BatchSendRequest, BATCH_MAX_SIZE};

verus! {

/// A single e-mail to be sent through the API.
///
/// All fields are public; `new` fills in the required ones and leaves every
/// optional field empty.
#[derive(Debug, Clone, PartialEq)]
pub struct SendEmailRequest {
    pub from: String,
    pub to: Vec<String>,
    pub subject: String,
    pub html: Option<String>,
    pub text: Option<String>,
    pub cc: Option<Vec<String>>,
    pub bcc: Option<Vec<String>>,
    pub reply_to: Option<Vec<String>>,
    pub route: Option<String>,
    pub tag: Option<String>,
    /// Sent as the `Idempotency-Key` header, never in the body.
    pub idempotency_key: Option<String>,
}

impl SendEmailRequest {
    /// An e-mail with sender, recipients and subject, and no optional field set.
    pub fn new(from: String, to: Vec<String>, subject: String) -> (res: Self)
        ensures
            res.from@ == from@,
            res.to@ == to@,
            res.subject@ == subject@,
            res.html is None,
            res.text is None,
            res.cc is None,
            res.bcc is None,
            res.reply_to is None,
            res.route is None,
            res.tag is None,
            res.idempotency_key is None,
    {
        SendEmailRequest {
            from,
            to,
            subject,
            html: None,
            text: None,
            cc: None,
            bcc: None,
            reply_to: None,
            route: None,
            tag: None,
            idempotency_key: None,
        }
    }
}

} // verus!
