use vstd::prelude::*;

verus! {

/// Everything that can go wrong inside the intake flow.
///
/// `OrderWrongState` marks a transition attempted from an incompatible
/// phase — a programming-level misuse, never reachable through the public
/// dispatch path.  `ParseFailed` and `PaperInvalid` / `SizeInvalid` are
/// recovered locally as re-prompts.  `OrderNotFound` surfaces a delete of
/// an absent session.  `Request` and `OrderFailed` carry what the transport
/// or the order endpoint reported.
#[derive(Debug, Clone, PartialEq, Eq)]
pub enum Error {
    Request(String),
    OrderNotFound(String),
    PaperInvalid,
    SizeInvalid(String),
    OrderWrongState,
    ParseFailed,
    OrderFailed(String),
}

} // verus!
