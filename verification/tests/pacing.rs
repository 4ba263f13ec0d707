use projbotv3::pacing::{audio_delay, compensate_sleep, sleep_millis, time_factor, Pacer};

#[test]
fn compensation_cases() {
    assert_eq!(compensate_sleep(-300, 50), (-300, 350));
    assert_eq!(compensate_sleep(1000, 300), (700, 0));
    assert_eq!(compensate_sleep(200, 300), (0, 100));
    assert_eq!(compensate_sleep(1000, 0), (1000, 0));
    assert_eq!(compensate_sleep(1000, -5), (1000, -5));
    assert_eq!(compensate_sleep(0, 10), (0, 10));
}

#[test]
fn compensation_keeps_balance() {
    for &(s, o) in &[(0i128, 0i128), (5, 3), (3, 5), (100, 0), (7, 7)] {
        let (s2, o2) = compensate_sleep(s, o);
        assert_eq!(s2 - o2, s - o);
        assert!(s2 == 0 || o2 == 0 || o <= 0);
    }
}

#[test]
fn pacer_plans_a_frame() {
    let mut p = Pacer::new();
    assert_eq!(p.to_compensate_for, 0);
    assert_eq!(p.free_time, 0);
    // 1200 ms of work, no commands, 30 ms to look at them
    let s = p.plan(1200, false, false, 30);
    assert_eq!(s, 3770);
    assert_eq!(p.free_time, 3770);
    assert_eq!(p.to_compensate_for, 0);
    // an overrun of 600 ms becomes debt
    let s = p.plan(5600, false, false, 0);
    assert_eq!(s, -600);
    assert_eq!(p.to_compensate_for, 600);
    // the debt is paid from the next sleep
    let s = p.plan(1000, false, false, 0);
    assert_eq!(s, 3400);
    assert_eq!(p.to_compensate_for, 0);
}

#[test]
fn pacer_sync_commands() {
    let mut p = Pacer::new();
    let s = p.plan(1000, true, false, 0);
    assert_eq!(s, 3900);
    assert_eq!(p.to_compensate_for, 0);
    let mut p = Pacer::new();
    let s = p.plan(1000, false, true, 0);
    assert_eq!(s, 4100);
    let mut p = Pacer::new();
    p.to_compensate_for = 5000;
    let s = p.plan(1000, true, true, 50);
    assert_eq!(s, 0);
    assert_eq!(p.to_compensate_for, 5100 - 4050);
}

#[test]
fn status_text_reports_debt_and_sleep() {
    let mut p = Pacer::new();
    p.to_compensate_for = 120;
    p.free_time = -40;
    assert_eq!(
        p.status_text(),
        "<ProjBotV3 by TudbuT#2624> Image will appear below [to_compensate_for=120, free_time=-40]"
    );
    assert_eq!(
        Pacer::new().status_text(),
        "<ProjBotV3 by TudbuT#2624> Image will appear below [to_compensate_for=0, free_time=0]"
    );
}

#[test]
fn sleep_takes_away_size_compensation() {
    assert_eq!(sleep_millis(3000, 500), 2500);
    assert_eq!(sleep_millis(3000, 0), 3000);
    assert_eq!(sleep_millis(-1, 0), u64::MAX);
}

#[test]
fn audio_waits_for_the_first_frame() {
    assert_eq!(audio_delay(1000, 200, 5), 4000 + 1000);
    assert_eq!(audio_delay(5000, 0, 5), 0);
    assert_eq!(audio_delay(0, 10, 0), 5000);
    assert_eq!(audio_delay(4990, 3, 7), 10 + 21);
}

#[test]
fn time_factor_defaults_to_five() {
    assert_eq!(time_factor(None), Some(5));
    assert_eq!(time_factor(Some("12")), Some(12));
    assert_eq!(time_factor(Some("-3")), Some(-3));
    assert_eq!(time_factor(Some("+7")), Some(7));
    assert_eq!(time_factor(Some("")), None);
    assert_eq!(time_factor(Some(" 5")), None);
    assert_eq!(time_factor(Some("5x")), None);
    assert_eq!(time_factor(Some("9223372036854775808")), None);
    assert_eq!(time_factor(Some("-9223372036854775808")), Some(i64::MIN));
}
