//! The status codes of HTTP replies.
use vstd::prelude::*;

verus! {

/// How a status code is shown: the number and the reason that goes with it, as
/// `reqwest::StatusCode` displays them.
pub uninterp spec fn status_display(code: u16) -> Seq<char>;

/// The status code of a reply, from 100 to 999.
#[derive(Debug, Clone, Copy, PartialEq, Eq)]
pub struct Status {
    code: u16,
}

impl View for Status {
    type V = u16;

    closed spec fn view(&self) -> u16 {
        self.code
    }
}

impl Status {
    #[verifier::type_invariant]
    spec fn in_range(self) -> bool {
        100 <= self.code <= 999
    }

    /// The status with a given code, where the code is one of three digits.
    pub fn new(code: u16) -> (res: Option<Status>)
        ensures
            res is Some <==> 100 <= code <= 999,
            res is Some ==> res->0@ == code,
    {
        if 100 <= code && code <= 999 {
            Some(Status { code })
        } else {
            None
        }
    }

    /// The code as a number.
    pub fn code(&self) -> (res: u16)
        ensures
            res == self@,
            100 <= res <= 999,
    {
        proof {
            use_type_invariant(self);
        }
        self.code
    }

    /// The status as it is shown to a reader.
    pub fn display(&self) -> (res: String)
        ensures
            res@ == status_display(self@),
    {
        status_text(self.code())
    }
}

/// `reqwest::StatusCode::from_u16` and what the status code displays: a function of the number
/// alone. `from_u16` takes each number from 100 to 999.
#[verifier::external_body]
fn status_text(code: u16) -> (res: String)
    requires
        100 <= code <= 999,
    ensures
        res@ == status_display(code),
{
    reqwest::StatusCode::from_u16(code).unwrap().to_string()
}

} // verus!
