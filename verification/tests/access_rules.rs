use hank_pdk::access::{AccessChecks, OPERATOR_AND, OPERATOR_OR};
use hank_types::access_check::access_check::Kind;
use hank_types::access_check::{AccessCheck, AccessCheckChain, AccessCheckOperator};

fn user_check(name: &str) -> AccessCheck {
    AccessCheck {
        kind: Some(Kind::User(name.to_string())),
    }
}

#[test]
fn operator_values_match_the_wire_enum() {
    assert_eq!(OPERATOR_AND, AccessCheckOperator::And as i32);
    assert_eq!(OPERATOR_OR, AccessCheckOperator::Or as i32);
}

#[test]
fn single_normalizes_like_a_singleton_array() {
    let single = AccessChecks::Single(user_check("alva")).normalize();
    let array = AccessChecks::Array(vec![user_check("alva")]).normalize();
    assert_eq!(single, array);
    assert_eq!(single.operator, AccessCheckOperator::Or as i32);
    assert_eq!(single.checks, vec![user_check("alva")]);
}

#[test]
fn array_normalizes_to_an_or_chain_over_the_list() {
    let checks = vec![user_check("alva"), user_check("bo")];
    let chain = AccessChecks::Array(checks.clone()).normalize();
    assert_eq!(chain.operator, AccessCheckOperator::Or as i32);
    assert_eq!(chain.checks, checks);
}

#[test]
fn full_chain_passes_through_unchanged() {
    let full = AccessCheckChain {
        operator: AccessCheckOperator::And as i32,
        checks: vec![user_check("alva"), user_check("bo")],
    };
    let chain = AccessChecks::Full(full.clone()).normalize();
    assert_eq!(chain, full);
}
