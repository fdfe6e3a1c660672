use astro_tfc::mission::{MissionProgress, STAGE_COUNT};

#[test]
fn first_stage_is_always_ready() {
    let p = MissionProgress::new();
    assert_eq!(p.check_ready(1), Ok(()));
    assert!(!p.is_complete());
    for k in 1..=STAGE_COUNT {
        assert!(!p.has_result(k));
    }
}

#[test]
fn later_stages_need_their_predecessor() {
    let p = MissionProgress::new();
    assert_eq!(p.check_ready(2), Err("Must execute stage_1 first".to_string()));
    assert_eq!(p.check_ready(4), Err("Must execute stage_3 first".to_string()));
    assert_eq!(p.check_ready(6), Err("Must execute stage_5 first".to_string()));
}

#[test]
fn stages_in_order_complete_the_mission() {
    let mut p = MissionProgress::new();
    for k in 1..=STAGE_COUNT {
        assert_eq!(p.check_ready(k), Ok(()));
        p.record(k);
        assert!(p.has_result(k));
        assert_eq!(p.is_complete(), k == STAGE_COUNT);
    }
    for k in 1..=STAGE_COUNT {
        assert!(p.has_result(k));
    }
}

#[test]
fn rerunning_an_early_stage_keeps_later_results() {
    let mut p = MissionProgress::new();
    p.record(1);
    p.record(2);
    p.record(3);
    p.record(1);
    assert!(p.has_result(3));
    assert_eq!(p.check_ready(4), Ok(()));
    assert_eq!(p.check_ready(5), Err("Must execute stage_4 first".to_string()));
}
