use crate::time::{format_mm_ss, from_m_s, Unixtime, UnixtimeInterval};
use vstd::prelude::*;

verus! {

/// Length of a countdown, in seconds.
pub const TOTAL_SECONDS: u32 = 600;

/// The events the engine reacts to.
#[derive(Clone, Copy, Debug, PartialEq, Eq, Structural)]
pub enum Msg {
    /// Begin a countdown.
    StartInterval,
    /// Stop the running countdown.
    Cancel,
    /// A periodic callback of the once-per-second ticker.
    Tick,
}

/// What the host must do with its ticker after an event.
#[derive(Clone, Copy, Debug, PartialEq, Eq, Structural)]
pub enum Effect {
    /// Start a ticker that delivers `Msg::Tick` every second, and keep it.
    SpawnTicker,
    /// Stop and drop the ticker that is held.
    StopTicker,
    /// Leave the ticker as it is.
    Nothing,
}

/// The engine's state as plain values: whether a ticker is held, the end of
/// the countdown in seconds, the last computed time left in seconds, and the
/// timeline as (threshold in seconds, label) pairs.
pub ghost struct ModelState {
    pub running: bool,
    pub end_at: nat,
    pub left_time: nat,
    pub timeline: Seq<(nat, Seq<char>)>,
}

/// Whether the sub-event at `threshold` seconds left has been passed when
/// `remaining` seconds are left.
pub open spec fn passed(threshold: nat, remaining: nat) -> bool {
    threshold > remaining
}

/// Seconds left at `now` before `end_at`; zero once `end_at` has gone by.
pub open spec fn remaining_at(now: nat, end_at: nat) -> nat {
    if now <= end_at {
        (end_at - now) as nat
    } else {
        0
    }
}

/// The timeline entries as plain values.
pub open spec fn timeline_view(t: Seq<(UnixtimeInterval, String)>) -> Seq<(nat, Seq<char>)> {
    t.map_values(|e: (UnixtimeInterval, String)| (e.0.number as nat, e.1@))
}

/// The engine's transition on `msg` when the clock reads `now`: the next
/// state and what to do with the ticker. A start while running and a cancel
/// or a tick while idle change nothing.
pub open spec fn step(s: ModelState, msg: Msg, now: nat) -> (ModelState, Effect) {
    match msg {
        Msg::StartInterval => if s.running {
            (s, Effect::Nothing)
        } else {
            (
                ModelState {
                    running: true,
                    end_at: now + TOTAL_SECONDS as nat,
                    left_time: s.left_time,
                    timeline: s.timeline,
                },
                Effect::SpawnTicker,
            )
        },
        Msg::Cancel => if s.running {
            (
                ModelState {
                    running: false,
                    end_at: s.end_at,
                    left_time: s.left_time,
                    timeline: s.timeline,
                },
                Effect::StopTicker,
            )
        } else {
            (s, Effect::Nothing)
        },
        Msg::Tick => if s.running {
            (
                ModelState {
                    running: true,
                    end_at: s.end_at,
                    left_time: remaining_at(now, s.end_at),
                    timeline: s.timeline,
                },
                Effect::Nothing,
            )
        } else {
            (s, Effect::Nothing)
        },
    }
}

/// Cancelling twice in a row acts as cancelling once: the engine ends idle,
/// and the second cancel changes nothing and stops no ticker.
pub proof fn lemma_cancel_idempotent(s: ModelState, now1: nat, now2: nat)
    ensures
        !step(s, Msg::Cancel, now1).0.running,
        step(step(s, Msg::Cancel, now1).0, Msg::Cancel, now2) == (
        step(s, Msg::Cancel, now1).0,
        Effect::Nothing,
        ),
{
}

/// From an idle engine, a start followed by a second start spawns exactly
/// one ticker: the second start changes nothing.
pub proof fn lemma_start_twice(s: ModelState, now1: nat, now2: nat)
    requires
        !s.running,
    ensures
        step(s, Msg::StartInterval, now1).1 == Effect::SpawnTicker,
        step(s, Msg::StartInterval, now1).0.running,
        step(step(s, Msg::StartInterval, now1).0, Msg::StartInterval, now2) == (
        step(s, Msg::StartInterval, now1).0,
        Effect::Nothing,
        ),
{
}

/// A passed flag stays set while the time left only decreases.
pub proof fn lemma_passed_monotone(threshold: nat, r1: nat, r2: nat)
    requires
        r2 <= r1,
    ensures
        passed(threshold, r1) ==> passed(threshold, r2),
{
}

/// Two ticks at clock readings `now1 <= now2` never raise the time left and
/// keep the timeline, so no entry's passed flag is cleared by the later tick.
pub proof fn lemma_ticks_keep_passed(s: ModelState, now1: nat, now2: nat)
    requires
        now1 <= now2,
    ensures
        ({
            let s1 = step(s, Msg::Tick, now1).0;
            let s2 = step(s1, Msg::Tick, now2).0;
            &&& s2.timeline == s1.timeline
            &&& s2.left_time <= s1.left_time
            &&& forall|i: int|
                0 <= i < s1.timeline.len() ==> #[trigger] passed(s1.timeline[i].0, s1.left_time)
                    ==> passed(s1.timeline[i].0, s2.left_time)
        }),
{
}

/// A tick delivered after a cancel, by a ticker already stopped, changes
/// neither the time left nor any other part of the state.
pub proof fn lemma_tick_after_cancel(s: ModelState, now1: nat, now2: nat)
    ensures
        step(step(s, Msg::Cancel, now1).0, Msg::Tick, now2) == (
        step(s, Msg::Cancel, now1).0,
        Effect::Nothing,
        ),
{
}

/// One timeline entry as the presentation layer shows it.
pub struct TimelineRow {
    /// The entry's threshold as `MM:SS`.
    pub threshold: String,
    /// The entry's label.
    pub label: String,
    /// Whether the time left has fallen below the threshold.
    pub passed: bool,
}

/// A read-only picture of the engine for the presentation layer.
pub struct Snapshot {
    /// The time left as `MM:SS`.
    pub remaining: String,
    /// Whether a countdown is running.
    pub is_running: bool,
    /// The timeline in its given order.
    pub rows: Vec<TimelineRow>,
}

/// The countdown engine.
pub struct Model {
    running: bool,
    end_at: Unixtime,
    left_time: UnixtimeInterval,
    timeline: Vec<(UnixtimeInterval, String)>,
}

impl View for Model {
    type V = ModelState;

    closed spec fn view(&self) -> ModelState {
        ModelState {
            running: self.running,
            end_at: self.end_at.number as nat,
            left_time: self.left_time.number as nat,
            timeline: timeline_view(self.timeline@),
        }
    }
}

/// The fixed table of sub-events, latest first.
pub fn init_timeline() -> (r: Vec<(UnixtimeInterval, String)>)
    ensures
        r@.len() == 6,
        r@[0].0.number == 580 && r@[0].1@ == "中央エビ"@,
        r@[1].0.number == 530 && r@[1].1@ == "中央ハチ"@,
        r@[2].0.number == 420 && r@[2].1@ == "カメロトム"@,
        r@[3].0.number == 300 && r@[3].1@ == "カメロトム（最短）"@,
        r@[4].0.number == 180 && r@[4].1@ == "カメロトム（最短）"@,
        r@[5].0.number == 120 && r@[5].1@ == "サンダー"@,
{
    let mut timeline: Vec<(UnixtimeInterval, String)> = Vec::new();
    timeline.push((from_m_s(9, 40), String::from_str("中央エビ")));
    timeline.push((from_m_s(8, 50), String::from_str("中央ハチ")));
    timeline.push((from_m_s(7, 0), String::from_str("カメロトム")));
    timeline.push((from_m_s(5, 0), String::from_str("カメロトム（最短）")));
    timeline.push((from_m_s(3, 0), String::from_str("カメロトム（最短）")));
    timeline.push((from_m_s(2, 0), String::from_str("サンダー")));
    timeline
}

impl Model {
    /// A fresh, idle engine over `timeline`, with the full countdown left;
    /// `now` is the clock's reading.
    pub fn create(now: u32, timeline: Vec<(UnixtimeInterval, String)>) -> (r: Model)
        ensures
            r@ == (ModelState {
                running: false,
                end_at: now as nat,
                left_time: TOTAL_SECONDS as nat,
                timeline: timeline_view(timeline@),
            }),
    {
        Model {
            running: false,
            end_at: Unixtime::from_clock(now, 0),
            left_time: UnixtimeInterval { number: TOTAL_SECONDS as u64 },
            timeline,
        }
    }

    /// Applies `msg`, with `now` the clock's reading, and says what to do
    /// with the ticker. A tick after the end of the countdown leaves zero
    /// seconds, never a wrapped-around span, and the countdown keeps running
    /// until it is cancelled.
    pub fn update(&mut self, msg: Msg, now: u32) -> (r: Effect)
        ensures
            (final(self)@, r) == step(old(self)@, msg, now as nat),
    {
        match msg {
            Msg::StartInterval => {
                if self.running {
                    Effect::Nothing
                } else {
                    self.end_at = Unixtime::from_clock(now, TOTAL_SECONDS);
                    self.running = true;
                    Effect::SpawnTicker
                }
            },
            Msg::Cancel => {
                if self.running {
                    self.running = false;
                    Effect::StopTicker
                } else {
                    Effect::Nothing
                }
            },
            Msg::Tick => {
                if self.running {
                    let now_at = Unixtime::from_clock(now, 0);
                    self.left_time = match crate::time::new_interval(&now_at, &self.end_at) {
                        Ok(left) => left,
                        Err(_) => UnixtimeInterval { number: 0 },
                    };
                }
                Effect::Nothing
            },
        }
    }

    /// The time left, the running flag and every timeline entry with its
    /// passed flag, each span written as `MM:SS`.
    pub fn snapshot(&self) -> (r: Snapshot)
        ensures
            r.remaining@ == format_mm_ss(self@.left_time),
            r.is_running == self@.running,
            r.rows@.len() == self@.timeline.len(),
            forall|i: int|
                0 <= i < r.rows@.len() ==> {
                    &&& (#[trigger] r.rows@[i]).threshold@ == format_mm_ss(self@.timeline[i].0)
                    &&& r.rows@[i].label@ == self@.timeline[i].1
                    &&& r.rows@[i].passed == passed(self@.timeline[i].0, self@.left_time)
                },
    {
        let mut rows: Vec<TimelineRow> = Vec::new();
        let mut i: usize = 0;
        while i < self.timeline.len()
            invariant
                i <= self.timeline@.len(),
                rows@.len() == i,
                forall|j: int|
                    0 <= j < i ==> {
                        &&& (#[trigger] rows@[j]).threshold@ == format_mm_ss(
                            self.timeline@[j].0.number as nat,
                        )
                        &&& rows@[j].label@ == self.timeline@[j].1@
                        &&& rows@[j].passed == passed(
                            self.timeline@[j].0.number as nat,
                            self.left_time.number as nat,
                        )
                    },
            decreases self.timeline@.len() - i,
        {
            let entry = &self.timeline[i];
            rows.push(
                TimelineRow {
                    threshold: entry.0.to_string(),
                    label: entry.1.clone(),
                    passed: entry.0.gt(&self.left_time),
                },
            );
            i = i + 1;
        }
        Snapshot { remaining: self.left_time.to_string(), is_running: self.running, rows }
    }

    /// Whether a countdown is running.
    pub fn is_running(&self) -> (r: bool)
        ensures
            r == self@.running,
    {
        self.running
    }

    /// The last computed time left.
    pub fn left_time(&self) -> (r: UnixtimeInterval)
        ensures
            r.number == self@.left_time,
    {
        self.left_time
    }

    /// The instant the countdown ends.
    pub fn end_at(&self) -> (r: Unixtime)
        ensures
            r.number == self@.end_at,
    {
        self.end_at
    }
}

} // verus!
