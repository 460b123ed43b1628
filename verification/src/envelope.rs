//! The uniform answer that every operation gives its caller.

use vstd::prelude::*;

verus! {

/// The status text of a relayed command.
pub open spec fn ok_status() -> Seq<char> {
    "ok"@
}

/// What every failure status begins with.
pub open spec fn error_prefix() -> Seq<char> {
    "error: "@
}

/// The status text of a command whose backend call failed in transport, with
/// the failure's description.
pub open spec fn error_status(description: Seq<char>) -> Seq<char> {
    error_prefix() + description
}

/// Whether a status text reports a failure: it begins with the error prefix.
pub open spec fn reports_failure(status: Seq<char>) -> bool {
    error_prefix().is_prefix_of(status)
}

/// The two forms a status text can take.
pub open spec fn is_canonical(status: Seq<char>) -> bool {
    status == ok_status() || reports_failure(status)
}

/// The response envelope. Its status is `ok`, or `error: ` followed by the
/// transport failure's description; no other status is ever produced.
#[derive(Debug)]
pub struct ResponseEnvelope {
    status: String,
}

impl View for ResponseEnvelope {
    type V = Seq<char>;

    /// The envelope's status text.
    closed spec fn view(&self) -> Seq<char> {
        self.status@
    }
}

impl ResponseEnvelope {
    #[verifier::type_invariant]
    spec fn well_formed(&self) -> bool {
        is_canonical(self.status@)
    }

    /// The envelope of a command that reached the backend.
    pub fn ok() -> (envelope: ResponseEnvelope)
        ensures
            envelope@ == ok_status(),
    {
        ResponseEnvelope { status: "ok".to_owned() }
    }

    /// The envelope of a command whose backend call failed in transport. The
    /// description is embedded as it is, without redaction.
    pub fn error(description: &str) -> (envelope: ResponseEnvelope)
        ensures
            envelope@ == error_status(description@),
    {
        let status = "error: ".to_owned().concat(description);
        ResponseEnvelope { status }
    }

    /// The status text. It is always in one of the two canonical forms.
    pub fn status(&self) -> (status: &str)
        ensures
            status@ == self@,
            is_canonical(self@),
    {
        proof {
            use_type_invariant(self);
        }
        self.status.as_str()
    }

    /// The HTTP status under which the envelope travels: 200, whatever the
    /// envelope says. A failure shows in the status text alone.
    pub fn http_status(&self) -> (code: u16)
        ensures
            code == 200,
    {
        200
    }
}

} // verus!
