//! What an assertion is rejected for, and the message that says so.

use vstd::prelude::*;
use vstd::string::StringExecFns;

verus! {

/// Why an assertion on an `Option` or a `Result` does not hold.
///
/// `found` is the text of the payload that the rejected value carries, as its `Debug`
/// implementation prints it.
#[derive(Debug, PartialEq, Eq)]
pub enum Violation {
    /// `Some` was asserted of `None`.
    ExpectedSome,
    /// `None` was asserted of `Some`.
    ExpectedNone { found: String },
    /// `Ok` was asserted of `Err`.
    ExpectedOk { found: String },
    /// `Err` was asserted of `Ok`.
    ExpectedErr { found: String },
    /// The value is `Some`, and the condition asserted of its payload is false.
    UnsatisfiedSome { found: String },
    /// The value is `Ok`, and the condition asserted of its payload is false.
    UnsatisfiedOk { found: String },
    /// The value is `Err`, and the condition asserted of its payload is false.
    UnsatisfiedErr { found: String },
}

impl Violation {
    /// The text of the payload that the rejected value carries, if it carries one.
    pub open spec fn payload(self) -> Option<Seq<char>> {
        match self {
            Violation::ExpectedSome => None,
            Violation::ExpectedNone { found } => Some(found@),
            Violation::ExpectedOk { found } => Some(found@),
            Violation::ExpectedErr { found } => Some(found@),
            Violation::UnsatisfiedSome { found } => Some(found@),
            Violation::UnsatisfiedOk { found } => Some(found@),
            Violation::UnsatisfiedErr { found } => Some(found@),
        }
    }

    /// What the message says before the payload.
    pub open spec fn opening(self) -> Seq<char> {
        match self {
            Violation::ExpectedSome => "Expected Some(_), got None"@,
            Violation::ExpectedNone { .. } => "Expected None, got Some("@,
            Violation::ExpectedOk { .. } => "Expected Ok(_), got Err("@,
            Violation::ExpectedErr { .. } => "Expected Err(_), got Ok("@,
            Violation::UnsatisfiedSome { .. } => "Condition not satisfied for "@,
            Violation::UnsatisfiedOk { .. } => "Condition not satisfied for Ok("@,
            Violation::UnsatisfiedErr { .. } => "Condition not satisfied for Err("@,
        }
    }

    /// What the message says after the payload.
    pub open spec fn closing(self) -> Seq<char> {
        match self {
            Violation::ExpectedSome => Seq::empty(),
            Violation::UnsatisfiedSome { .. } => Seq::empty(),
            _ => ")"@,
        }
    }

    /// The message of the violation: its opening, the payload, its closing.
    pub open spec fn text(self) -> Seq<char> {
        match self.payload() {
            None => self.opening(),
            Some(found) => self.opening() + found + self.closing(),
        }
    }

    /// The message with which an assertion that met this violation aborts.
    pub fn message(&self) -> (m: String)
        ensures
            m@ == self.text(),
    {
        match self {
            Violation::ExpectedSome => String::from_str("Expected Some(_), got None"),
            Violation::ExpectedNone { found } => enclose("Expected None, got Some(", found, ")"),
            Violation::ExpectedOk { found } => enclose("Expected Ok(_), got Err(", found, ")"),
            Violation::ExpectedErr { found } => enclose("Expected Err(_), got Ok(", found, ")"),
            Violation::UnsatisfiedSome { found } => {
                let m = enclose("Condition not satisfied for ", found, "");
                proof {
                    reveal_strlit("");
                }
                assert(m@ =~= self.text());
                m
            },
            Violation::UnsatisfiedOk { found } => {
                enclose("Condition not satisfied for Ok(", found, ")")
            },
            Violation::UnsatisfiedErr { found } => {
                enclose("Condition not satisfied for Err(", found, ")")
            },
        }
    }

    /// The message shows the payload: the payload's text stands in it, whole and in one piece,
    /// right after the opening.
    pub proof fn lemma_message_shows_payload(self)
        requires
            self.payload() is Some,
        ensures
            occurs_at(self.payload()->0, self.text(), self.opening().len() as int),
            occurs_in(self.payload()->0, self.text()),
    {
        let at = self.opening().len() as int;
        let found = self.payload()->0;
        assert(self.text().subrange(at, at + found.len()) =~= found);
    }
}

/// `part` stands in `whole` from index `at` on.
pub open spec fn occurs_at(part: Seq<char>, whole: Seq<char>, at: int) -> bool {
    &&& 0 <= at
    &&& at + part.len() <= whole.len()
    &&& whole.subrange(at, at + part.len()) == part
}

/// `part` stands somewhere in `whole`, in one piece.
pub open spec fn occurs_in(part: Seq<char>, whole: Seq<char>) -> bool {
    exists|at: int| occurs_at(part, whole, at)
}

/// The text that the payload's `Debug` implementation prints for it, as `format!` with
/// `{:?}` gives it. Nothing is claimed of the text: the payload's type decides it.
#[verifier::external_body]
fn render<T: core::fmt::Debug>(payload: &T) -> (found: String) {
    format!("{:?}", payload)
}

/// Whether `found` is a text that `payload` was rendered to: one that a call of the
/// payload's `Debug` implementation has returned for it.
pub closed spec fn rendered<T: core::fmt::Debug>(payload: &T, found: String) -> bool {
    call_ensures(render::<T>, (payload,), found)
}

/// Whether `violation` reports `payload`: it carries a text that the payload was rendered
/// to, and its message shows that text.
pub open spec fn reports<T: core::fmt::Debug>(violation: Violation, payload: &T) -> bool {
    exists|found: String|
        {
            &&& #[trigger] rendered(payload, found)
            &&& violation.payload() == Some(found@)
            &&& occurs_in(found@, violation.text())
        }
}

/// Renders `payload` for a message, with its `Debug` implementation.
pub(crate) fn describe<T: core::fmt::Debug>(payload: &T) -> (found: String)
    ensures
        rendered(payload, found),
{
    render(payload)
}

/// `opening`, then `found`, then `closing`, as one string.
fn enclose(opening: &str, found: &String, closing: &str) -> (m: String)
    ensures
        m@ == opening@ + found@ + closing@,
{
    String::from_str(opening).concat(found.as_str()).concat(closing)
}

} // verus!
