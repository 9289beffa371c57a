//! Configuration flags, their validity rule, and the strategy they select.

use vstd::prelude::*;

verus! {

/// The three flags that select an execution strategy.
///
/// `progress_keep_open` only matters when `progress` is set: it holds the
/// dashboard open after the work is done so the operator can read trailing
/// messages.
#[derive(Clone, Copy, Debug, PartialEq, Eq, Structural)]
pub struct ExecutionConfig {
    pub verbose: bool,
    pub progress: bool,
    pub progress_keep_open: bool,
}

/// Rejection of a flag combination before any work starts.
#[derive(Clone, Copy, Debug, PartialEq, Eq, Structural)]
pub enum ConfigError {
    /// Line-by-line progress and the full-screen dashboard both want the
    /// terminal; they cannot be combined.
    VerboseWithProgress,
}

impl ExecutionConfig {
    /// The single invariant on configurations: `verbose` and `progress`
    /// are mutually exclusive.
    pub open spec fn wf(self) -> bool {
        !(self.verbose && self.progress)
    }

    /// Builds a configuration, rejecting the one invalid flag combination
    /// before execution begins.
    pub fn validated(verbose: bool, progress: bool, progress_keep_open: bool) -> (r: Result<
        ExecutionConfig,
        ConfigError,
    >)
        ensures
            r is Err <==> verbose && progress,
            r matches Err(e) ==> e == ConfigError::VerboseWithProgress,
            r matches Ok(c) ==> c == (ExecutionConfig { verbose, progress, progress_keep_open })
                && c.wf(),
    {
        if verbose && progress {
            Err(ConfigError::VerboseWithProgress)
        } else {
            Ok(ExecutionConfig { verbose, progress, progress_keep_open })
        }
    }
}

/// Where the sinks handed to the computation point: the process's real
/// output streams, written immediately, or in-memory buffers that are
/// flushed only after the dashboard has released the terminal.
#[derive(Clone, Copy, Debug, PartialEq, Eq, Structural)]
pub enum SinkMode {
    Real,
    Buffered,
}

/// The three execution strategies, a closed union keyed by
/// `(verbose, progress)`.
#[derive(Clone, Copy, Debug, PartialEq, Eq, Structural)]
pub enum Strategy {
    /// Run the computation synchronously with the real sinks and no
    /// progress reporting.
    Silent,
    /// Run the computation synchronously with the real sinks while a
    /// scoped background renderer prints progress lines.
    Linear,
    /// Run the computation on its own thread with buffered sinks while a
    /// full-screen renderer owns the terminal.
    Dashboard { keep_open: bool },
}

impl Strategy {
    /// Whether this strategy spawns threads beyond the caller's.
    pub open spec fn spec_spawns_threads(self) -> bool {
        self is Dashboard
    }

    /// Which sinks the computation receives under this strategy.
    pub open spec fn spec_sink_mode(self) -> SinkMode {
        if self is Dashboard {
            SinkMode::Buffered
        } else {
            SinkMode::Real
        }
    }

    pub fn spawns_threads(&self) -> (b: bool)
        ensures
            b == self.spec_spawns_threads(),
    {
        match self {
            Strategy::Dashboard { .. } => true,
            _ => false,
        }
    }

    pub fn sink_mode(&self) -> (m: SinkMode)
        ensures
            m == self.spec_sink_mode(),
    {
        match self {
            Strategy::Dashboard { .. } => SinkMode::Buffered,
            _ => SinkMode::Real,
        }
    }
}

/// The strategy table: the dashboard whenever `progress` is set, the
/// line renderer for `verbose` alone, and silence otherwise.
pub open spec fn strategy_for(c: ExecutionConfig) -> Strategy {
    if c.progress {
        Strategy::Dashboard { keep_open: c.progress_keep_open }
    } else if c.verbose {
        Strategy::Linear
    } else {
        Strategy::Silent
    }
}

/// Selects the execution strategy for a configuration.
pub fn select_strategy(c: &ExecutionConfig) -> (s: Strategy)
    ensures
        s == strategy_for(*c),
        !c.progress ==> s.spec_sink_mode() == SinkMode::Real && !s.spec_spawns_threads(),
        c.progress ==> s == (Strategy::Dashboard { keep_open: c.progress_keep_open }),
{
    if c.progress {
        Strategy::Dashboard { keep_open: c.progress_keep_open }
    } else if c.verbose {
        Strategy::Linear
    } else {
        Strategy::Silent
    }
}

/// A configuration without `progress` runs the computation on the caller's
/// thread: no thread is spawned, no output is buffered, and the sinks the
/// computation sees are the real output streams.
pub proof fn no_progress_runs_direct(c: ExecutionConfig)
    requires
        !c.progress,
    ensures
        !strategy_for(c).spec_spawns_threads(),
        strategy_for(c).spec_sink_mode() == SinkMode::Real,
{
}

/// A configuration with `progress` hands the computation buffered sinks,
/// never the real streams, so nothing it writes can reach the operator
/// while the dashboard owns the terminal.
pub proof fn progress_buffers_output(c: ExecutionConfig)
    requires
        c.progress,
    ensures
        strategy_for(c).spec_spawns_threads(),
        strategy_for(c).spec_sink_mode() == SinkMode::Buffered,
{
}

} // verus!
