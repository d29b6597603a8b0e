//! The display state aggregator: the render host hands it everything
//! that was drained from the producer channels plus a clock reading,
//! and it merges, reformats, and decides when the next wake-up is due.

use vstd::prelude::*;
use vstd::string::StringExecFns;
use crate::clock::{ClockFields, read_clock};
use crate::codec::Workspace;
use crate::textfmt::{format_date, format_time, spec_date_string, spec_time_string};

verus! {

/// Everything the renderer shows: the consumer-owned display state.
pub struct MyTaskbar {
    pub date: String,
    pub time: String,
    pub battery_level: String,
    pub workspaces: Vec<Workspace>,
}

/// Seconds until the next minute boundary: a wake-up at least this soon
/// makes the clock display advance exactly on the minute.
pub fn seconds_until_next_minute(unix: u64) -> (r: u64)
    ensures
        r == 60 - unix % 60,
        1 <= r <= 60,
{
    60 - unix % 60
}

fn string_eq(a: &String, b: &String) -> (r: bool)
    ensures
        r == (a@ == b@),
{
    *a == *b
}

impl MyTaskbar {
    /// The state before any producer has published: no workspaces, no
    /// clock strings, and a full battery shown until the first sample.
    pub fn new() -> (r: Self)
        ensures
            r.date@ == Seq::<char>::empty(),
            r.time@ == Seq::<char>::empty(),
            r.battery_level@ == "100%"@,
            r.workspaces@ == Seq::<Workspace>::empty(),
    {
        MyTaskbar {
            date: String::new(),
            time: String::new(),
            battery_level: String::from_str("100%"),
            workspaces: Vec::new(),
        }
    }

    /// One frame of the aggregator. `ws_msgs` and `bat_msgs` are what
    /// the host drained from the two channels since the last frame, in
    /// publish order: only the newest value of each survives, a fresh
    /// value fully replacing the old. The clock strings are recomputed
    /// from `clock`. The first result asks for an immediate redraw, and
    /// is true exactly when something arrived or a clock string moved;
    /// the second is the number of seconds within which the host must
    /// wake the renderer again so the clock advances on the minute.
    pub fn update(
        &mut self,
        ws_msgs: Vec<Vec<Workspace>>,
        bat_msgs: Vec<String>,
        clock: &ClockFields,
    ) -> (r: (bool, u64))
        requires
            clock.valid(),
        ensures
            final(self).workspaces == if ws_msgs@.len() > 0 {
                ws_msgs@.last()
            } else {
                old(self).workspaces
            },
            final(self).battery_level == if bat_msgs@.len() > 0 {
                bat_msgs@.last()
            } else {
                old(self).battery_level
            },
            final(self).time@ == spec_time_string(clock.hour as int, clock.minute as int),
            final(self).date@ == spec_date_string(
                clock.month as int,
                clock.day as int,
                clock.year as int,
            ),
            r.0 == (ws_msgs@.len() > 0 || bat_msgs@.len() > 0 || final(self).time@ != old(
                self,
            ).time@ || final(self).date@ != old(self).date@),
            r.1 == 60 - clock.unix % 60,
    {
        let mut repaint = false;
        let mut ws_msgs = ws_msgs;
        if let Some(latest) = ws_msgs.pop() {
            self.workspaces = latest;
            repaint = true;
        }
        let mut bat_msgs = bat_msgs;
        if let Some(latest) = bat_msgs.pop() {
            self.battery_level = latest;
            repaint = true;
        }
        let new_time = format_time(clock.hour, clock.minute);
        let new_date = format_date(clock.month, clock.day, clock.year);
        if !string_eq(&new_time, &self.time) || !string_eq(&new_date, &self.date) {
            repaint = true;
        }
        self.time = new_time;
        self.date = new_date;
        (repaint, seconds_until_next_minute(clock.unix))
    }

    /// One frame against the real clock: reads the wall clock, then
    /// merges as `update` does. Whatever instant the clock returns, the
    /// strings are its well-formed rendering and the wake-up lies
    /// within a minute.
    pub fn update_now(&mut self, ws_msgs: Vec<Vec<Workspace>>, bat_msgs: Vec<String>) -> (r: (
        bool,
        u64,
    ))
        ensures
            final(self).workspaces == if ws_msgs@.len() > 0 {
                ws_msgs@.last()
            } else {
                old(self).workspaces
            },
            final(self).battery_level == if bat_msgs@.len() > 0 {
                bat_msgs@.last()
            } else {
                old(self).battery_level
            },
            exists|c: ClockFields|
                #![auto]
                c.valid() && final(self).time@ == spec_time_string(c.hour as int, c.minute as int)
                    && final(self).date@ == spec_date_string(
                    c.month as int,
                    c.day as int,
                    c.year as int,
                ) && r.1 == 60 - c.unix % 60,
            r.0 == (ws_msgs@.len() > 0 || bat_msgs@.len() > 0 || final(self).time@ != old(
                self,
            ).time@ || final(self).date@ != old(self).date@),
            1 <= r.1 <= 60,
    {
        let clock = read_clock();
        let r = self.update(ws_msgs, bat_msgs, &clock);
        proof {
            assert(clock.valid() && final(self).time@ == spec_time_string(
                clock.hour as int,
                clock.minute as int,
            ) && final(self).date@ == spec_date_string(
                clock.month as int,
                clock.day as int,
                clock.year as int,
            ) && r.1 == 60 - clock.unix % 60);
        }
        r
    }
}

} // verus!
