//! HTTP status codes and the text they are shown as.

use crate::text::{decimal_nat, format_u64, lemma_decimal_nat_nonempty};
use vstd::prelude::*;
use vstd::string::*;

verus! {

/// The standard reason phrase of a status code ("Not Found" for 404), as
/// `StatusCode::canonical_reason` of the `http` crate gives it; `None` for a
/// code that has no registered phrase.
pub uninterp spec fn reason_phrase(code: u16) -> Option<Seq<char>>;

/// How a status code is shown: its numeral, a space, and its reason phrase, or
/// a placeholder where it has none.
pub open spec fn status_text(code: u16) -> Seq<char> {
    decimal_nat(code as nat) + " "@ + match reason_phrase(code) {
        Some(phrase) => phrase,
        None => "<unknown status code>"@,
    }
}

/// An HTTP status code: a number from 100 to 999.
#[derive(Clone, Copy, Debug)]
pub struct StatusCode {
    code: u16,
}

impl View for StatusCode {
    type V = u16;

    closed spec fn view(&self) -> u16 {
        self.code
    }
}

/// Looks up the reason phrase with `reqwest::StatusCode::canonical_reason`
/// (the `http` crate's table). The contract claims only that the answer is the
/// table's entry for this code, which `reason_phrase` names; the codes below
/// 100 and above 999, for which no `StatusCode` exists, are left out.
#[verifier::external_body]
fn canonical_reason(code: u16) -> (r: Option<&'static str>)
    requires
        100 <= code < 1000,
    ensures
        r matches Some(phrase) ==> reason_phrase(code) == Some(phrase@),
        r is None ==> reason_phrase(code) is None,
{
    match reqwest::StatusCode::from_u16(code) {
        Ok(status) => status.canonical_reason(),
        Err(_) => None,
    }
}

impl StatusCode {
    #[verifier::type_invariant]
    spec fn in_range(&self) -> bool {
        100 <= self.code < 1000
    }

    /// Whether the code says that the request succeeded: 200 to 299.
    pub open spec fn success(&self) -> bool {
        200 <= self@ < 300
    }

    /// The status with this code, where the code is one: from 100 to 999.
    pub fn from_u16(code: u16) -> (r: Option<StatusCode>)
        ensures
            100 <= code < 1000 ==> (r matches Some(status) && status@ == code),
            !(100 <= code < 1000) ==> r is None,
    {
        if 100 <= code && code < 1000 {
            Some(StatusCode { code })
        } else {
            None
        }
    }

    /// The code as a number.
    pub fn as_u16(&self) -> (r: u16)
        ensures
            r == self@,
            100 <= r < 1000,
    {
        proof {
            use_type_invariant(self);
        }
        self.code
    }

    /// Whether the code says that the request succeeded.
    pub fn is_success(&self) -> (r: bool)
        ensures
            r == self.success(),
    {
        200 <= self.code && self.code < 300
    }

    /// The status as text: "404 Not Found".
    pub fn to_text(&self) -> (r: String)
        ensures
            r@ == status_text(self@),
    {
        proof {
            use_type_invariant(self);
        }
        let numeral: String = format_u64(self.code as u64);
        let spaced: String = numeral.concat(" ");
        match canonical_reason(self.code) {
            Some(phrase) => spaced.concat(phrase),
            None => spaced.concat("<unknown status code>"),
        }
    }
}

/// The text of a status starts with the numeral of its code.
pub proof fn lemma_status_text_starts_with_code(code: u16)
    ensures
        decimal_nat(code as nat).len() >= 1,
        status_text(code).len() > decimal_nat(code as nat).len(),
        status_text(code).subrange(0, decimal_nat(code as nat).len() as int) == decimal_nat(
            code as nat,
        ),
{
    lemma_decimal_nat_nonempty(code as nat);
    reveal_strlit(" ");
    let numeral = decimal_nat(code as nat);
    let rest = " "@ + match reason_phrase(code) {
        Some(phrase) => phrase,
        None => "<unknown status code>"@,
    };
    assert(status_text(code) == numeral + rest);
    assert((numeral + rest).subrange(0, numeral.len() as int) == numeral);
}

} // verus!
