//! A countdown widget's time-and-state model: instants and spans of
//! seconds, a static timeline of sub-events, and the idle/running engine
//! that recomputes the time left on every tick.

mod time;

pub use time::{
    decimal, digit_char, format_mm_ss, from_m_s, lemma_between, lemma_from_m_s_format,
    new_interval, pad2, spec_new_interval,
    IntervalError, Unixtime, UnixtimeInterval,
};

mod engine;

pub use engine::{
    init_timeline, passed, remaining_at, step, timeline_view, Effect, Model, ModelState, Msg,
    Snapshot, TimelineRow, lemma_cancel_idempotent, lemma_passed_monotone, lemma_start_twice,
    lemma_tick_after_cancel, lemma_ticks_keep_passed,
    TOTAL_SECONDS,
};
