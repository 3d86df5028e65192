//! The output router: a verbosity mode and its channel projections.

use crate::channel::ChannelState;
use crate::progress::ProgressVisibility;
use indicatif::ProgressDrawTarget;
use vstd::prelude::*;

verus! {

/// The user-selected verbosity mode. It is chosen once, at program start,
/// and every routing decision is a pure function of it.
#[derive(Debug, Clone, Copy, PartialEq, Eq, Structural)]
pub enum Printer {
    /// Suppress all output.
    Silent,
    /// Suppress routine primary output, but preserve diagnostic and
    /// important messages.
    Quiet,
    /// Print to the standard streams and show progress.
    Normal,
    /// Print everything, including debug messages; the progress indicator is
    /// hidden so that its redrawing does not interleave with the verbose
    /// diagnostic text.
    Verbose,
    /// Print to the standard streams, but never draw a progress indicator.
    NoProgress,
}

impl Printer {
    /// The state of the primary message stream under this mode.
    pub open spec fn primary_state(self) -> ChannelState {
        match self {
            Printer::Silent => ChannelState::Disabled,
            Printer::Quiet => ChannelState::Disabled,
            Printer::Normal => ChannelState::Enabled,
            Printer::Verbose => ChannelState::Enabled,
            Printer::NoProgress => ChannelState::Enabled,
        }
    }

    /// The state of the diagnostic stream under this mode.
    pub open spec fn diagnostic_state(self) -> ChannelState {
        match self {
            Printer::Silent => ChannelState::Disabled,
            Printer::Quiet => ChannelState::Enabled,
            Printer::Normal => ChannelState::Enabled,
            Printer::Verbose => ChannelState::Enabled,
            Printer::NoProgress => ChannelState::Enabled,
        }
    }

    /// The state of the important-message stream under this mode: like the
    /// primary stream, except that quiet mode preserves important output.
    pub open spec fn important_state(self) -> ChannelState {
        match self {
            Printer::Silent => ChannelState::Disabled,
            Printer::Quiet => ChannelState::Enabled,
            Printer::Normal => ChannelState::Enabled,
            Printer::Verbose => ChannelState::Enabled,
            Printer::NoProgress => ChannelState::Enabled,
        }
    }

    /// Whether a progress indicator is drawn under this mode: only normal
    /// mode shows it, on the diagnostic stream.
    pub open spec fn progress_visibility(self) -> ProgressVisibility {
        match self {
            Printer::Silent => ProgressVisibility::Hidden,
            Printer::Quiet => ProgressVisibility::Hidden,
            Printer::Normal => ProgressVisibility::VisibleStderr,
            Printer::Verbose => ProgressVisibility::Hidden,
            Printer::NoProgress => ProgressVisibility::Hidden,
        }
    }

    /// The write target for the primary message stream.
    pub fn stdout(self) -> (r: ChannelState)
        ensures
            r == self.primary_state(),
    {
        match self {
            Printer::Silent => ChannelState::Disabled,
            Printer::Quiet => ChannelState::Disabled,
            Printer::Normal => ChannelState::Enabled,
            Printer::Verbose => ChannelState::Enabled,
            Printer::NoProgress => ChannelState::Enabled,
        }
    }

    /// The write target for the diagnostic stream.
    pub fn stderr(self) -> (r: ChannelState)
        ensures
            r == self.diagnostic_state(),
    {
        match self {
            Printer::Silent => ChannelState::Disabled,
            Printer::Quiet => ChannelState::Enabled,
            Printer::Normal => ChannelState::Enabled,
            Printer::Verbose => ChannelState::Enabled,
            Printer::NoProgress => ChannelState::Enabled,
        }
    }

    /// The write target for important primary output, which quiet mode
    /// preserves.
    pub fn stdout_important(self) -> (r: ChannelState)
        ensures
            r == self.important_state(),
    {
        match self {
            Printer::Silent => ChannelState::Disabled,
            Printer::Quiet => ChannelState::Enabled,
            Printer::Normal => ChannelState::Enabled,
            Printer::Verbose => ChannelState::Enabled,
            Printer::NoProgress => ChannelState::Enabled,
        }
    }

    /// Whether this mode draws a progress indicator, and where.
    pub fn progress(self) -> (r: ProgressVisibility)
        ensures
            r == self.progress_visibility(),
    {
        match self {
            Printer::Silent => ProgressVisibility::Hidden,
            Printer::Quiet => ProgressVisibility::Hidden,
            Printer::Normal => ProgressVisibility::VisibleStderr,
            Printer::Verbose => ProgressVisibility::Hidden,
            Printer::NoProgress => ProgressVisibility::Hidden,
        }
    }

    /// The draw target handed to the progress-rendering engine. The target
    /// itself is opaque; which visibility it renders is fixed by
    /// [`Printer::progress`].
    pub fn target(self) -> ProgressDrawTarget {
        self.progress().draw_target()
    }
}

/// Purity of the projections: every routing decision is a deterministic,
/// total function of the mode alone, so two queries of the same mode agree
/// in every projection.
pub proof fn lemma_projections_pure(a: Printer, b: Printer)
    requires
        a == b,
    ensures
        a.primary_state() == b.primary_state(),
        a.diagnostic_state() == b.diagnostic_state(),
        a.important_state() == b.important_state(),
        a.progress_visibility() == b.progress_visibility(),
{
}

} // verus!
