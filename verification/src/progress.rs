//! Progress-indicator visibility, and the bridge to the rendering engine.
//!
//! The routing policy only decides whether a live progress indicator should
//! be drawn; the rendering itself is done by `indicatif`, which consumes a
//! `ProgressDrawTarget` built here from the decided visibility.

use indicatif::ProgressDrawTarget;
use vstd::prelude::*;

verus! {

/// Whether a live-updating progress indicator should be drawn.
#[derive(Debug, Clone, Copy, PartialEq, Eq, Structural)]
pub enum ProgressVisibility {
    /// The indicator is not rendered at all.
    Hidden,
    /// The indicator is rendered to the diagnostic stream (standard error).
    VisibleStderr,
}

#[verifier::external_type_specification]
#[verifier::external_body]
pub struct ExProgressDrawTarget(ProgressDrawTarget);

/// Relies on `indicatif::ProgressDrawTarget::hidden`: a draw target that
/// forces the progress indicator to be not rendered at all.
#[verifier::external_body]
pub(crate) fn hidden_draw_target() -> ProgressDrawTarget {
    ProgressDrawTarget::hidden()
}

/// Relies on `indicatif::ProgressDrawTarget::stderr`: a draw target that
/// draws to a buffered standard-error terminal (and stays hidden when
/// standard error is not a user-attended terminal).
#[verifier::external_body]
pub(crate) fn stderr_draw_target() -> ProgressDrawTarget {
    ProgressDrawTarget::stderr()
}

impl ProgressVisibility {
    /// Build the draw target that renders this visibility. The returned
    /// value is opaque here; which visibility a mode decides is stated on
    /// [`crate::printer::Printer::progress`].
    pub fn draw_target(self) -> ProgressDrawTarget {
        match self {
            ProgressVisibility::Hidden => hidden_draw_target(),
            ProgressVisibility::VisibleStderr => stderr_draw_target(),
        }
    }
}

} // verus!
