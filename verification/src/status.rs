//! The errors that requests are answered with.

use vstd::prelude::*;

use crate::text::join;

verus! {

/// The gRPC codes that this server answers with.
#[derive(Debug, Clone, Copy, PartialEq, Eq, Structural)]
pub enum Code {
    InvalidArgument,
    Unimplemented,
    Internal,
    Unauthenticated,
}

/// An error answer: a code and a text for the client.
#[derive(Debug)]
pub struct Status {
    pub code: Code,
    pub message: String,
}

/// What a [`Status`] says.
pub struct StatusView {
    pub code: Code,
    pub message: Seq<char>,
}

impl View for Status {
    type V = StatusView;

    open spec fn view(&self) -> StatusView {
        StatusView { code: self.code, message: self.message@ }
    }
}

/// The answer `INVALID_ARGUMENT` with a text.
pub open spec fn invalid_argument(message: Seq<char>) -> StatusView {
    StatusView { code: Code::InvalidArgument, message }
}

/// The answer `UNIMPLEMENTED` with a text.
pub open spec fn unimplemented(message: Seq<char>) -> StatusView {
    StatusView { code: Code::Unimplemented, message }
}

/// The answer `INTERNAL` with a text.
pub open spec fn internal(message: Seq<char>) -> StatusView {
    StatusView { code: Code::Internal, message }
}

/// The answer `UNAUTHENTICATED` with a text.
pub open spec fn unauthenticated(message: Seq<char>) -> StatusView {
    StatusView { code: Code::Unauthenticated, message }
}

/// The answer `INTERNAL` for something that went wrong at a known place in the program: what
/// was being done, what went wrong, and where.
pub open spec fn located(desc: Seq<char>, err: Seq<char>, site: Seq<char>) -> StatusView {
    internal(desc + ": "@ + err + " at "@ + site)
}

/// A result with its error seen as what it says.
pub open spec fn outcome<T>(r: Result<T, Status>) -> Result<T, StatusView> {
    match r {
        Ok(t) => Ok(t),
        Err(s) => Err(s@),
    }
}

impl Status {
    pub fn invalid_argument(message: String) -> (r: Status)
        ensures
            r@ == invalid_argument(message@),
    {
        Status { code: Code::InvalidArgument, message }
    }

    pub fn unimplemented(message: String) -> (r: Status)
        ensures
            r@ == unimplemented(message@),
    {
        Status { code: Code::Unimplemented, message }
    }

    pub fn internal(message: String) -> (r: Status)
        ensures
            r@ == internal(message@),
    {
        Status { code: Code::Internal, message }
    }

    pub fn unauthenticated(message: String) -> (r: Status)
        ensures
            r@ == unauthenticated(message@),
    {
        Status { code: Code::Unauthenticated, message }
    }

    /// An internal error that names the place where it came up, as `file:line`.
    pub fn located(desc: &str, err: &str, site: &str) -> (r: Status)
        ensures
            r@ == located(desc@, err@, site@),
    {
        let head = join(join(desc.to_owned(), ": "), err);
        Status::internal(join(join(head, " at "), site))
    }
}

/// An answer says its code and all of its text, and an error of a request is that answer.
pub proof fn law_status_says_all<T>(status: Status, value: T)
    ensures
        status@.code == status.code,
        status@.message == status.message@,
        outcome(Err::<T, _>(status)) == Err::<T, _>(status@),
        outcome(Ok::<_, Status>(value)) == Ok::<_, StatusView>(value),
{
}

/// Every kind of answer has its own code, and the text that it is given.
pub proof fn law_answers_have_their_codes(message: Seq<char>)
    ensures
        invalid_argument(message) == (StatusView { code: Code::InvalidArgument, message }),
        unimplemented(message) == (StatusView { code: Code::Unimplemented, message }),
        internal(message) == (StatusView { code: Code::Internal, message }),
        unauthenticated(message) == (StatusView { code: Code::Unauthenticated, message }),
{
}

/// An error at a known place says what was being done, what went wrong and where, in this order
/// and all of it.
pub proof fn law_located_error_says_what_why_where(
    desc: Seq<char>,
    err: Seq<char>,
    site: Seq<char>,
)
    ensures
        located(desc, err, site).code == Code::Internal,
        located(desc, err, site).message == desc + seq![':', ' '] + err + seq![
            ' ',
            'a',
            't',
            ' ',
        ] + site,
{
    reveal_strlit(": ");
    reveal_strlit(" at ");
    assert(": "@ =~= seq![':', ' ']);
    assert(" at "@ =~= seq![' ', 'a', 't', ' ']);
}

} // verus!
