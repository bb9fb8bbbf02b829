//! Why an operation on a feed is refused.

use vstd::prelude::*;

verus! {

/// The two refusals an operation can answer with. Either one ends the
/// operation with the record as it was.
#[derive(Debug, Clone, Copy, PartialEq, Eq, Structural)]
pub enum OracleErrors {
    /// The caller is not allowed to change the record in this way.
    AccessDenied,
    /// The feed is licensed and the caller is neither its owner nor one of
    /// its subscribers.
    Subscribe,
}

impl OracleErrors {
    /// The words that go with each refusal.
    pub open spec fn message_text(self) -> Seq<char> {
        match self {
            OracleErrors::AccessDenied => "Access denied!"@,
            OracleErrors::Subscribe => "Subscribe to this feed at https://fact.finance"@,
        }
    }

    /// What to tell the caller: that access is denied, or where to subscribe.
    pub fn message(&self) -> (text: &'static str)
        ensures
            text@ == self.message_text(),
    {
        match self {
            OracleErrors::AccessDenied => "Access denied!",
            OracleErrors::Subscribe => "Subscribe to this feed at https://fact.finance",
        }
    }
}

} // verus!
