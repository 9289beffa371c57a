//! What the coordinator fixes about the renderers: the shared frame rate,
//! the dashboard's exit policy, and the plan handed to the surrounding
//! process.

use vstd::prelude::*;

verus! {

use crate::config::ExecutionConfig;
use crate::config::Strategy;
use crate::config::select_strategy;
use crate::config::strategy_for;

/// Frames drawn per second, shared by the line renderer and the dashboard.
pub const DEFAULT_FRAME_RATE: u64 = 6;

/// Capacity of the channel on which the dashboard and the computation
/// race: a single slot, so at most one event is ever pending.
pub const EVENT_CHANNEL_CAPACITY: usize = 1;

/// What the coordinator fixes about the full-screen renderer before
/// handing it the terminal.
#[derive(Debug)]
pub struct DashboardOptions {
    /// The window title.
    pub title: &'static str,
    /// Frames drawn per second.
    pub frames_per_second: u64,
    /// Whether the dashboard closes itself as soon as no progress is left
    /// to show, that is as soon as the work is done. When the operator
    /// asked for the dashboard to stay open this is off, and only an
    /// explicit operator action ends it.
    pub stop_if_empty_progress: bool,
}

/// Fixes the dashboard's options: it auto-exits on finished work exactly
/// when the operator did not ask for it to stay open.
pub fn dashboard_options(keep_open: bool) -> (o: DashboardOptions)
    ensures
        o.stop_if_empty_progress == !keep_open,
        o.frames_per_second == DEFAULT_FRAME_RATE,
        o.title@ == "gitoxide"@,
{
    DashboardOptions {
        title: "gitoxide",
        frames_per_second: DEFAULT_FRAME_RATE,
        stop_if_empty_progress: !keep_open,
    }
}

/// Everything the surrounding process needs to set a run up: the strategy
/// a configuration selects and, for the dashboard, the renderer options.
#[derive(Debug)]
pub struct RunPlan {
    pub strategy: Strategy,
    pub dashboard: Option<DashboardOptions>,
}

/// Lays out the whole run for a configuration. Dashboard options exist
/// exactly when the dashboard strategy is selected, and they keep the
/// dashboard open exactly when the configuration asked for it.
pub fn plan(c: &ExecutionConfig) -> (p: RunPlan)
    ensures
        p.strategy == strategy_for(*c),
        p.dashboard is Some <==> c.progress,
        c.progress ==> (p.dashboard matches Some(o) && o.stop_if_empty_progress
            == !c.progress_keep_open && o.frames_per_second == DEFAULT_FRAME_RATE),
{
    let strategy = select_strategy(c);
    let dashboard = if c.progress {
        Some(dashboard_options(c.progress_keep_open))
    } else {
        None
    };
    RunPlan { strategy, dashboard }
}

} // verus!
