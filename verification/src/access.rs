//! The shorthand for the metadata's access-control rules.
//!
//! A metadata descriptor gates its plugin behind a chain of access checks
//! combined under one operator. Authors rarely write the chain out: the
//! shorthand lets them give a bare list of checks, a single check, or the
//! full chain, and everything but the full form normalizes to an OR-chain.
//! A pure data transformation, with no state behind it.

use vstd::prelude::*;

use hank_types::access_check::{AccessCheck, AccessCheckChain};

verus! {

/// The wire value of `hank_types::access_check::AccessCheckOperator::And`.
pub const OPERATOR_AND: i32 = 0;

/// The wire value of `hank_types::access_check::AccessCheckOperator::Or`.
pub const OPERATOR_OR: i32 = 1;

/// The shorthand an author hands the metadata builder; absent checks are
/// simply not set, so the shorthand itself always names at least one form.
pub enum AccessChecks {
    /// A bare list of checks: an OR-chain over exactly that list.
    Array(Vec<AccessCheck>),
    /// One check: an OR-chain over that check alone.
    Single(AccessCheck),
    /// The full chain, taken as given.
    Full(AccessCheckChain),
}

/// The operator of the chain a shorthand denotes.
pub open spec fn normal_operator(rule: AccessChecks) -> i32 {
    match rule {
        AccessChecks::Full(full) => full.operator,
        _ => OPERATOR_OR,
    }
}

/// The checks of the chain a shorthand denotes.
pub open spec fn normal_checks(rule: AccessChecks) -> Seq<AccessCheck> {
    match rule {
        AccessChecks::Array(checks) => checks@,
        AccessChecks::Single(check) => seq![check],
        AccessChecks::Full(full) => full.checks@,
    }
}

impl AccessChecks {
    /// The chain form the metadata descriptor consumes.
    pub fn normalize(self) -> (r: AccessCheckChain)
        ensures
            r.operator == normal_operator(self),
            r.checks@ == normal_checks(self),
    {
        match self {
            AccessChecks::Array(checks) => AccessCheckChain { operator: OPERATOR_OR, checks },
            AccessChecks::Single(check) => {
                let mut checks: Vec<AccessCheck> = Vec::new();
                checks.push(check);
                proof {
                    assert(checks@ =~= seq![check]);
                }
                AccessCheckChain { operator: OPERATOR_OR, checks }
            },
            AccessChecks::Full(full) => full,
        }
    }
}

/// Law: the `Single` shorthand is equivalent to the one-element `Array`:
/// both denote an OR-chain over exactly that one check.
pub proof fn lemma_single_is_singleton_array(check: AccessCheck, checks: Vec<AccessCheck>)
    requires
        checks@ == seq![check],
    ensures
        normal_operator(AccessChecks::Single(check)) == normal_operator(
            AccessChecks::Array(checks),
        ),
        normal_checks(AccessChecks::Single(check)) == normal_checks(AccessChecks::Array(checks)),
{
}

} // verus!
