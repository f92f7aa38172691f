use gps_fix::outcome::CoordinateResult;

#[test]
fn success_holds_the_coordinates_as_given() {
    let result = CoordinateResult::success(0x4037_8ccc_cccc_cccd, 0xc047_50a3_d70a_3d71);
    assert_eq!(
        result,
        CoordinateResult::Success {
            latitude: 0x4037_8ccc_cccc_cccd,
            longitude: 0xc047_50a3_d70a_3d71,
        }
    );
    assert!(result.is_success());
}

#[test]
fn failure_holds_the_reason_as_given() {
    let result = CoordinateResult::failure("service unavailable".to_string());
    assert_eq!(result, CoordinateResult::Failure { reason: "service unavailable".to_string() });
    assert!(!result.is_success());
}

#[test]
fn results_differ_when_their_contents_differ() {
    assert_ne!(CoordinateResult::success(1, 2), CoordinateResult::success(2, 1));
    assert_ne!(
        CoordinateResult::failure("a".to_string()),
        CoordinateResult::failure("b".to_string())
    );
    assert_ne!(CoordinateResult::success(0, 0), CoordinateResult::failure(String::new()));
}
