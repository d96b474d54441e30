use dld::dw::tasks::jin_ri_huo_yue_du::{find_claimable_gifts, liveness_plan, parse_liveness, LivenessPlan};

#[test]
fn test_parse_liveness_with_faction() {
    assert_eq!(parse_liveness("80/40"), Some(80));
    assert_eq!(parse_liveness("115/100"), Some(115));
}

#[test]
fn test_parse_liveness_without_faction() {
    assert_eq!(parse_liveness("80"), Some(80));
    assert_eq!(parse_liveness("20"), Some(20));
}

#[test]
fn test_parse_liveness_invalid() {
    assert_eq!(parse_liveness(""), None);
    assert_eq!(parse_liveness("abc"), None);
}

/// 32 zeros: nothing claimed yet.
const ALL_ZERO: &str = "00000000000000000000000000000000";

/// 32 ones: everything claimed.
const ALL_ONE: &str = "11111111111111111111111111111111";

#[test]
fn test_all_claimable() {
    assert_eq!(find_claimable_gifts(115, ALL_ZERO), vec![1, 2, 3, 4]);
}

#[test]
fn test_partial_liveness() {
    assert_eq!(find_claimable_gifts(50, ALL_ZERO), vec![1, 2]);
}

#[test]
fn test_liveness_below_minimum() {
    assert!(find_claimable_gifts(10, ALL_ZERO).is_empty());
}

#[test]
fn jin_ri_huo_yue_du_test_all_already_claimed() {
    assert!(find_claimable_gifts(115, ALL_ONE).is_empty());
}

#[test]
fn test_markseq_too_short() {
    assert!(find_claimable_gifts(115, "0").is_empty());
    assert!(find_claimable_gifts(115, "0000").is_empty());
}

#[test]
fn test_markseq_longer_than_32() {
    assert!(find_claimable_gifts(115, "000000000000000000000000000000000").is_empty());
}

#[test]
fn jin_ri_huo_yue_du_test_mixed_state() {
    // only gift 2 is open, and the liveness suffices
    let markseq = "11011111111111111111111111111111";
    assert_eq!(find_claimable_gifts(115, markseq), vec![2]);
}

#[test]
fn marks_are_counted_in_bytes() {
    // 30 ASCII characters and one 2-byte character: 32 bytes
    let marks = format!("{}é{}", "0".repeat(2), "0".repeat(28));
    assert_eq!(marks.len(), 32);
    assert_eq!(find_claimable_gifts(115, &marks), vec![1, 4]);
}

#[test]
fn liveness_plans() {
    assert!(matches!(liveness_plan("80", "", "0"), LivenessPlan::BadMarks));
    assert!(matches!(liveness_plan("x/3", "", ALL_ZERO), LivenessPlan::BadLiveness));
    match liveness_plan("80/40", "100/200", ALL_ZERO) {
        LivenessPlan::Claim { gifts, faction } => {
            assert_eq!(gifts, vec![1, 2, 3]);
            assert!(faction);
        }
        other => panic!("unexpected: {other:?}"),
    }
    match liveness_plan("80", "", ALL_ZERO) {
        LivenessPlan::Claim { gifts, faction } => {
            assert_eq!(gifts, vec![1, 2, 3]);
            assert!(!faction);
        }
        other => panic!("unexpected: {other:?}"),
    }
    match liveness_plan("10/40", "100/200", ALL_ZERO) {
        LivenessPlan::Claim { gifts, faction } => {
            assert!(gifts.is_empty());
            assert!(!faction);
        }
        other => panic!("unexpected: {other:?}"),
    }
}
