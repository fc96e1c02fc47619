use thunder_toritai::{
    from_m_s, init_timeline, new_interval, Effect, IntervalError, Model, Msg, Unixtime,
    UnixtimeInterval, TOTAL_SECONDS,
};

const T0: u32 = 1_700_000_000;

fn two_entry_timeline() -> Vec<(UnixtimeInterval, String)> {
    vec![
        (from_m_s(9, 40), String::from("a")),
        (from_m_s(9, 45), String::from("b")),
    ]
}

#[test]
fn format_pads_both_fields() {
    assert_eq!(UnixtimeInterval { number: 130 }.to_string(), "02:10");
    assert_eq!(UnixtimeInterval { number: 0 }.to_string(), "00:00");
    assert_eq!(UnixtimeInterval { number: 59 }.to_string(), "00:59");
    assert_eq!(UnixtimeInterval { number: 600 }.to_string(), "10:00");
}

#[test]
fn format_keeps_all_minute_digits() {
    assert_eq!(UnixtimeInterval { number: 6005 }.to_string(), "100:05");
    assert_eq!(UnixtimeInterval { number: 60 * 12345 + 7 }.to_string(), "12345:07");
}

#[test]
fn from_m_s_formats_as_its_fields() {
    assert_eq!(from_m_s(9, 40).number, 580);
    assert_eq!(from_m_s(9, 40).to_string(), "09:40");
    assert_eq!(from_m_s(0, 5).to_string(), "00:05");
    assert_eq!(from_m_s(42, 59).to_string(), "42:59");
}

#[test]
fn from_m_s_carries_seconds_over_sixty() {
    assert_eq!(from_m_s(1, 75).number, 135);
    assert_eq!(from_m_s(1, 75).to_string(), "02:15");
}

#[test]
fn from_m_s_largest_inputs() {
    let d = from_m_s(u32::MAX, u32::MAX);
    assert_eq!(d.number, u32::MAX as u64 * 60 + u32::MAX as u64);
}

#[test]
fn between_ordered_instants() {
    let a = Unixtime { number: 100 };
    let b = Unixtime { number: 130 };
    assert_eq!(new_interval(&a, &b), Ok(UnixtimeInterval { number: 30 }));
    assert_eq!(new_interval(&a, &a), Ok(UnixtimeInterval { number: 0 }));
}

#[test]
fn between_reversed_instants_is_refused() {
    let a = Unixtime { number: 100 };
    let b = Unixtime { number: 130 };
    assert_eq!(new_interval(&b, &a), Err(IntervalError::InvalidInterval));
}

#[test]
fn from_clock_adds_offset() {
    assert_eq!(Unixtime::from_clock(T0, 600).number, T0 as u64 + 600);
    assert_eq!(Unixtime::from_clock(u32::MAX, u32::MAX).number, 2 * u32::MAX as u64);
}

#[test]
fn greater_than_is_strict() {
    let a = from_m_s(9, 45);
    let b = from_m_s(9, 40);
    assert!(a.gt(&b));
    assert!(!b.gt(&a));
    assert!(!a.gt(&a));
    assert!(a == from_m_s(0, 585));
    assert!(a != b);
}

#[test]
fn fixed_timeline_table() {
    let t = init_timeline();
    let got: Vec<(u64, &str)> = t.iter().map(|e| (e.0.number, e.1.as_str())).collect();
    assert_eq!(
        got,
        vec![
            (580, "中央エビ"),
            (530, "中央ハチ"),
            (420, "カメロトム"),
            (300, "カメロトム（最短）"),
            (180, "カメロトム（最短）"),
            (120, "サンダー"),
        ]
    );
}

#[test]
fn fresh_engine_is_idle_with_full_time() {
    let m = Model::create(T0, init_timeline());
    assert!(!m.is_running());
    assert_eq!(m.left_time().number, TOTAL_SECONDS as u64);
    assert_eq!(m.end_at().number, T0 as u64);
    let s = m.snapshot();
    assert_eq!(s.remaining, "10:00");
    assert!(!s.is_running);
    assert_eq!(s.rows.len(), 6);
    assert_eq!(s.rows[0].threshold, "09:40");
    assert_eq!(s.rows[5].label, "サンダー");
    assert!(s.rows.iter().all(|r| !r.passed));
}

#[test]
fn cancel_twice_is_cancel_once() {
    let mut m = Model::create(T0, two_entry_timeline());
    assert_eq!(m.update(Msg::StartInterval, T0), Effect::SpawnTicker);
    assert_eq!(m.update(Msg::Tick, T0 + 3), Effect::Nothing);
    assert_eq!(m.update(Msg::Cancel, T0 + 4), Effect::StopTicker);
    let left = m.left_time();
    assert_eq!(m.update(Msg::Cancel, T0 + 5), Effect::Nothing);
    assert!(!m.is_running());
    assert_eq!(m.left_time(), left);
}

#[test]
fn cancel_while_idle_is_ignored() {
    let mut m = Model::create(T0, two_entry_timeline());
    assert_eq!(m.update(Msg::Cancel, T0), Effect::Nothing);
    assert!(!m.is_running());
    assert_eq!(m.left_time().number, 600);
}

#[test]
fn start_twice_spawns_one_ticker() {
    let mut m = Model::create(T0, two_entry_timeline());
    assert_eq!(m.update(Msg::StartInterval, T0), Effect::SpawnTicker);
    assert_eq!(m.update(Msg::StartInterval, T0 + 7), Effect::Nothing);
    assert!(m.is_running());
    assert_eq!(m.end_at().number, T0 as u64 + 600);
}

#[test]
fn passed_flags_stay_set_as_time_runs_down() {
    let mut m = Model::create(T0, init_timeline());
    m.update(Msg::StartInterval, T0);
    let mut before: Vec<bool> = vec![false; 6];
    for now in (T0..T0 + 700).step_by(13) {
        m.update(Msg::Tick, now);
        let flags: Vec<bool> = m.snapshot().rows.iter().map(|r| r.passed).collect();
        for i in 0..6 {
            assert!(!before[i] || flags[i]);
        }
        before = flags;
    }
    assert!(before.iter().all(|p| *p));
}

#[test]
fn countdown_scenario_at_twenty_seconds() {
    let mut m = Model::create(T0, two_entry_timeline());
    assert_eq!(m.update(Msg::StartInterval, T0), Effect::SpawnTicker);
    assert_eq!(m.end_at().number, T0 as u64 + 600);
    assert_eq!(m.update(Msg::Tick, T0 + 20), Effect::Nothing);
    let s = m.snapshot();
    assert_eq!(s.remaining, "09:40");
    assert!(s.is_running);
    assert_eq!(s.rows[0].threshold, "09:40");
    assert!(!s.rows[0].passed);
    assert_eq!(s.rows[1].threshold, "09:45");
    assert!(s.rows[1].passed);
}

#[test]
fn tick_after_cancel_changes_nothing() {
    let mut m = Model::create(T0, two_entry_timeline());
    m.update(Msg::StartInterval, T0);
    m.update(Msg::Tick, T0 + 2);
    assert_eq!(m.update(Msg::Cancel, T0 + 3), Effect::StopTicker);
    assert_eq!(m.update(Msg::Tick, T0 + 30), Effect::Nothing);
    assert!(!m.is_running());
    assert_eq!(m.left_time().number, 598);
    assert_eq!(m.snapshot().remaining, "09:58");
}

#[test]
fn ticking_past_the_end_stays_at_zero_and_keeps_running() {
    let mut m = Model::create(T0, two_entry_timeline());
    m.update(Msg::StartInterval, T0);
    m.update(Msg::Tick, T0 + 600);
    assert_eq!(m.left_time().number, 0);
    m.update(Msg::Tick, T0 + 1000);
    assert_eq!(m.left_time().number, 0);
    assert!(m.is_running());
    let s = m.snapshot();
    assert_eq!(s.remaining, "00:00");
    assert!(s.rows.iter().all(|r| r.passed));
}

#[test]
fn restart_sets_a_new_end() {
    let mut m = Model::create(T0, two_entry_timeline());
    m.update(Msg::StartInterval, T0);
    m.update(Msg::Tick, T0 + 100);
    m.update(Msg::Cancel, T0 + 100);
    assert_eq!(m.update(Msg::StartInterval, T0 + 200), Effect::SpawnTicker);
    assert_eq!(m.left_time().number, 500);
    m.update(Msg::Tick, T0 + 201);
    assert_eq!(m.left_time().number, 599);
}
