use groupjoin::join_type::{JoinSide, JoinType, PlanError};

fn all_variants() -> Vec<JoinType> {
    vec![
        JoinType::Inner,
        JoinType::Outer(JoinSide::Left),
        JoinType::Outer(JoinSide::Right),
        JoinType::Full,
        JoinType::Semi(JoinSide::Left),
        JoinType::Semi(JoinSide::Right),
        JoinType::Anti(JoinSide::Left),
        JoinType::Anti(JoinSide::Right),
        JoinType::LeftMark,
        JoinType::LeftGroup,
    ]
}

#[test]
fn negate_is_involutive() {
    assert_eq!(JoinSide::Left.negate(), JoinSide::Right);
    assert_eq!(JoinSide::Right.negate(), JoinSide::Left);
    assert_eq!(JoinSide::Left.negate().negate(), JoinSide::Left);
    assert_eq!(JoinSide::Right.negate().negate(), JoinSide::Right);
}

#[test]
fn join_side_display() {
    assert_eq!(JoinSide::Left.display(), "left");
    assert_eq!(JoinSide::Right.display(), "right");
}

#[test]
fn swap_is_involutive_on_swappable_variants() {
    for t in all_variants() {
        if t.supports_swap() {
            assert_eq!(t.swap().swap(), t);
        }
    }
}

#[test]
fn swap_symmetry() {
    assert_eq!(JoinType::Outer(JoinSide::Left).swap(), JoinType::Outer(JoinSide::Right));
    assert_eq!(JoinType::Semi(JoinSide::Right).swap(), JoinType::Semi(JoinSide::Left));
    assert_eq!(JoinType::Inner.swap(), JoinType::Inner);
    assert_eq!(JoinType::Full.swap(), JoinType::Full);
    assert_eq!(JoinType::Anti(JoinSide::Left).swap(), JoinType::Anti(JoinSide::Right));
}

#[test]
fn supports_swap_false_only_for_left_mark_and_left_group() {
    for t in all_variants() {
        let expected = t != JoinType::LeftMark && t != JoinType::LeftGroup;
        assert_eq!(t.supports_swap(), expected);
    }
}

#[test]
fn is_outer_exactly_for_outer_and_full() {
    for t in all_variants() {
        let expected = t == JoinType::Outer(JoinSide::Left)
            || t == JoinType::Outer(JoinSide::Right)
            || t == JoinType::Full;
        assert_eq!(t.is_outer(), expected);
    }
}

#[test]
fn display_canonical_forms() {
    assert_eq!(JoinType::Inner.display(), "Inner");
    assert_eq!(JoinType::Outer(JoinSide::Left).display(), "Left");
    assert_eq!(JoinType::Outer(JoinSide::Right).display(), "Right");
    assert_eq!(JoinType::Full.display(), "Full");
    assert_eq!(JoinType::Semi(JoinSide::Left).display(), "LeftSemi");
    assert_eq!(JoinType::Semi(JoinSide::Right).display(), "RightSemi");
    assert_eq!(JoinType::Anti(JoinSide::Left).display(), "LeftAnti");
    assert_eq!(JoinType::Anti(JoinSide::Right).display(), "RightAnti");
    assert_eq!(JoinType::LeftMark.display(), "LeftMark");
    assert_eq!(JoinType::LeftGroup.display(), "LeftGroup");
}

#[test]
fn parse_display_round_trip_for_all_variants() {
    for t in all_variants() {
        match JoinType::from_str(t.display()) {
            Ok(parsed) => assert_eq!(parsed, t),
            Err(e) => panic!("round trip failed for {:?}: {:?}", t, e),
        }
    }
}

#[test]
fn parse_is_case_insensitive() {
    assert_eq!(JoinType::from_str("inner").unwrap(), JoinType::Inner);
    assert_eq!(JoinType::from_str("INNER").unwrap(), JoinType::Inner);
    assert_eq!(JoinType::from_str("Inner").unwrap(), JoinType::Inner);
    assert_eq!(JoinType::from_str("fUlL").unwrap(), JoinType::Full);
    assert_eq!(JoinType::from_str("leftgroup").unwrap(), JoinType::LeftGroup);
}

#[test]
fn parse_accepts_no_inner_whitespace() {
    assert_eq!(JoinType::from_str("leftsemi").unwrap(), JoinType::Semi(JoinSide::Left));
    match JoinType::from_str("left semi") {
        Ok(t) => panic!("expected an error, got {:?}", t),
        Err(PlanError::NotImplemented(m)) => {
            assert_eq!(m, "The join type LEFT SEMI does not exist or is not implemented");
        }
    }
}

#[test]
fn parse_rejects_empty_string() {
    match JoinType::from_str("") {
        Ok(t) => panic!("expected an error, got {:?}", t),
        Err(PlanError::NotImplemented(m)) => {
            assert_eq!(m, "The join type  does not exist or is not implemented");
        }
    }
}

#[test]
fn parse_rejects_unknown_token_with_uppercased_message() {
    match JoinType::from_str("cross") {
        Ok(t) => panic!("expected an error, got {:?}", t),
        Err(PlanError::NotImplemented(m)) => {
            assert_eq!(m, "The join type CROSS does not exist or is not implemented");
        }
    }
}
