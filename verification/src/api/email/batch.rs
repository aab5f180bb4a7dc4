//! Sending up to `BATCH_MAX_SIZE` e-mails in one request.

use vstd::prelude::*;
use vstd::string::*;

use super::SendEmailRequest;

verus! {

/// Maximum number of emails per batch request.
pub const BATCH_MAX_SIZE: usize = 500;

/// Name of the header that carries a batch's idempotency key.
pub const IDEMPOTENCY_KEY_HEADER: &'static str = "Idempotency-Key";

/// Send between one and `BATCH_MAX_SIZE` emails in a single batch request.
///
/// Every value of this type holds at least one and at most `BATCH_MAX_SIZE`
/// e-mails: `new` refuses any other count, and nothing else changes them.
#[derive(Debug, PartialEq)]
pub struct BatchSendRequest {
    emails: Vec<SendEmailRequest>,
    idempotency_key: Option<String>,
}

/// The abstract content of a batch: its e-mails in order, and its key.
pub ghost struct BatchSendRequestView {
    pub emails: Seq<SendEmailRequest>,
    pub idempotency_key: Option<Seq<char>>,
}

/// Whether a number of e-mails is one a batch may hold.
pub open spec fn valid_batch_size(n: nat) -> bool {
    1 <= n <= BATCH_MAX_SIZE
}

/// The headers a batch adds to its request, as (name, value) pairs.
pub open spec fn spec_extra_headers(key: Option<Seq<char>>) -> Seq<(Seq<char>, Seq<char>)> {
    match key {
        Some(k) => seq![(IDEMPOTENCY_KEY_HEADER@, k)],
        None => Seq::empty(),
    }
}

/// A batch may hold one e-mail, and `BATCH_MAX_SIZE` = 500 of them, and any
/// number between; it may hold none, and no more than 500.
pub proof fn lemma_valid_batch_size(n: nat)
    ensures
        valid_batch_size(n) <==> (1 <= n && n <= 500),
        BATCH_MAX_SIZE == 500,
{
}

/// A batch without a key adds no header; one with key `k` adds exactly one,
/// named `Idempotency-Key`, whose value is `k` in full.
pub proof fn lemma_extra_headers_carry_key(key: Option<Seq<char>>)
    ensures
        key is None ==> spec_extra_headers(key).len() == 0,
        key matches Some(k) ==> spec_extra_headers(key).len() == 1 && spec_extra_headers(key)[0].0
            == "Idempotency-Key"@ && spec_extra_headers(key)[0].1 == k,
{
    reveal_strlit("Idempotency-Key");
}

impl View for BatchSendRequest {
    type V = BatchSendRequestView;

    closed spec fn view(&self) -> BatchSendRequestView {
        BatchSendRequestView {
            emails: self.emails@,
            idempotency_key: match self.idempotency_key {
                Some(k) => Some(k@),
                None => None,
            },
        }
    }
}

impl Clone for BatchSendRequest {
    /// A batch with the same number of e-mails, each a clone of the one at
    /// its place, and the same idempotency key.
    fn clone(&self) -> (res: Self)
        ensures
            res@.emails.len() == self@.emails.len(),
            forall|i: int|
                0 <= i < self@.emails.len() ==> cloned::<SendEmailRequest>(
                    self@.emails[i],
                    #[trigger] res@.emails[i],
                ),
            res@.idempotency_key == self@.idempotency_key,
    {
        proof {
            use_type_invariant(self);
        }
        let key = match &self.idempotency_key {
            Some(k) => Some(k.clone()),
            None => None,
        };
        BatchSendRequest { emails: self.emails.clone(), idempotency_key: key }
    }
}

impl BatchSendRequest {
    #[verifier::type_invariant]
    spec fn well_formed(self) -> bool {
        valid_batch_size(self.emails@.len())
    }

    /// Create a new batch request.
    ///
    /// Returns `None` if `emails` is empty or exceeds `BATCH_MAX_SIZE` entries.
    pub fn new(emails: Vec<SendEmailRequest>) -> (res: Option<Self>)
        ensures
            res is Some <==> valid_batch_size(emails@.len()),
            res is Some <==> (1 <= emails@.len() && emails@.len() <= 500),
            res matches Some(batch) ==> batch@.emails == emails@ && batch@.idempotency_key
                is None,
    {
        if emails.len() == 0 || emails.len() > BATCH_MAX_SIZE {
            return None;
        }
        Some(BatchSendRequest { emails, idempotency_key: None })
    }

    /// Set an idempotency key to prevent duplicate batch sends.
    pub fn with_idempotency_key(self, key: String) -> (res: Self)
        ensures
            res@.emails == self@.emails,
            res@.idempotency_key == Some(key@),
    {
        proof {
            use_type_invariant(&self);
        }
        BatchSendRequest { emails: self.emails, idempotency_key: Some(key) }
    }

    /// The number of emails in this batch.
    pub fn len(&self) -> (n: usize)
        ensures
            n == self@.emails.len(),
            valid_batch_size(n as nat),
    {
        proof {
            use_type_invariant(self);
        }
        self.emails.len()
    }

    /// Whether the batch is empty (always `false`).
    pub fn is_empty(&self) -> (b: bool)
        ensures
            b == (self@.emails.len() == 0),
            !b,
    {
        proof {
            use_type_invariant(self);
        }
        self.emails.len() == 0
    }

    /// The e-mails of the batch, in order.
    pub fn emails(&self) -> (res: &Vec<SendEmailRequest>)
        ensures
            res@ == self@.emails,
    {
        &self.emails
    }

    /// The API path of the batch endpoint.
    pub fn endpoint(&self) -> (path: &'static str)
        ensures
            path@ == "send/batch"@,
    {
        "send/batch"
    }

    /// The request body: the batch itself, sent as a JSON array of e-mails.
    pub fn body(&self) -> (res: &Self)
        ensures
            res == self,
    {
        self
    }

    /// Extra headers sent with the request: the idempotency key, if set.
    pub fn extra_headers(&self) -> (headers: Vec<(String, String)>)
        ensures
            headers@.len() == spec_extra_headers(self@.idempotency_key).len(),
            forall|i: int|
                0 <= i < headers@.len() ==> (#[trigger] headers@[i]).0@ == spec_extra_headers(
                    self@.idempotency_key,
                )[i].0 && headers@[i].1@ == spec_extra_headers(self@.idempotency_key)[i].1,
            self@.idempotency_key is None ==> headers@.len() == 0,
            self@.idempotency_key matches Some(k) ==> headers@.len() == 1 && headers@[0].0@
                == "Idempotency-Key"@ && headers@[0].1@ == k,
    {
        proof {
            reveal_strlit("Idempotency-Key");
        }
        let mut headers: Vec<(String, String)> = Vec::new();
        if let Some(key) = &self.idempotency_key {
            headers.push((String::from_str(IDEMPOTENCY_KEY_HEADER), key.clone()));
        }
        headers
    }
}

} // verus!
