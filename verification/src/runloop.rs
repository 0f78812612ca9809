//! The render loop's decisions as a state machine. The loop itself lives
//! with the terminal: each iteration it reports the viewport, learns from
//! `begin_frame` whether geometry must be re-resolved, submits the frame,
//! and hands back the key it polled. Every outside failure — resolution,
//! surface, input — is fatal and moves the loop toward a non-zero exit; the
//! exit key moves it toward exit code zero.

use vstd::prelude::*;

use crate::geometry::GeometryCache;
use crate::geometry::Size;
use crate::geometry::needs_resolution;

verus! {

/// Why the loop is coming to rest: the user asked to quit, or an outside
/// fault (layout resolution, display surface, or input read) was fatal.
#[derive(Clone, Copy, Debug, PartialEq, Eq, Structural)]
pub enum StopReason {
    Quit,
    Fatal,
}

/// The loop's lifecycle. `Stopping` still owes the display surface its
/// release; `Stopped` is terminal.
#[derive(Clone, Copy, Debug, PartialEq, Eq, Structural)]
pub enum Phase {
    Starting,
    Running,
    Stopping(StopReason),
    Stopped(StopReason),
}

/// Whether a polled key (already decoded to its character, `None` when the
/// wait timed out or the key has no character) is the designated exit key.
pub open spec fn is_exit_key(key: Option<char>) -> bool {
    key == Some('q')
}

/// The render loop's state: its lifecycle phase and the geometry cache that
/// decides when a frame must re-resolve.
pub struct RenderLoop {
    phase: Phase,
    cache: GeometryCache,
}

impl RenderLoop {
    pub closed spec fn phase(&self) -> Phase {
        self.phase
    }

    /// The viewport size of the most recent resolution, `None` before the
    /// first frame.
    pub closed spec fn recorded(&self) -> Option<Size> {
        self.cache.recorded()
    }

    /// A loop about to acquire the display surface: nothing resolved yet.
    pub fn new() -> (rl: RenderLoop)
        ensures
            rl.phase() == Phase::Starting,
            rl.recorded() is None,
    {
        RenderLoop { phase: Phase::Starting, cache: GeometryCache::new() }
    }

    /// The display surface has been acquired and the tree constructed:
    /// enter `Running`.
    pub fn start(&mut self)
        requires
            old(self).phase() == Phase::Starting,
        ensures
            final(self).phase() == Phase::Running,
            final(self).recorded() == old(self).recorded(),
    {
        self.phase = Phase::Running;
    }

    /// Open a frame against the current viewport: true exactly when the
    /// size is new and geometry must be re-resolved before painting, so a
    /// frame never paints against geometry of another viewport size.
    pub fn begin_frame(&mut self, viewport: Size) -> (resolve: bool)
        requires
            old(self).phase() == Phase::Running,
        ensures
            final(self).phase() == Phase::Running,
            resolve == needs_resolution(old(self).recorded(), viewport),
            final(self).recorded() == Some(viewport),
    {
        self.cache.check(viewport)
    }

    /// The layout engine could not satisfy the tree's constraints: fatal,
    /// no partial layout is painted.
    pub fn resolution_failed(&mut self)
        requires
            old(self).phase() == Phase::Running,
        ensures
            final(self).phase() == Phase::Stopping(StopReason::Fatal),
            final(self).recorded() == old(self).recorded(),
    {
        self.phase = Phase::Stopping(StopReason::Fatal);
    }

    /// The display surface or the input poll failed: fatal.
    pub fn surface_failed(&mut self)
        requires
            old(self).phase() == Phase::Starting || old(self).phase() == Phase::Running,
        ensures
            final(self).phase() == Phase::Stopping(StopReason::Fatal),
            final(self).recorded() == old(self).recorded(),
    {
        self.phase = Phase::Stopping(StopReason::Fatal);
    }

    /// Account for the key the bounded input wait yielded, if any: the exit
    /// key stops the loop at the end of this iteration, anything else (or a
    /// timeout) keeps it running.
    pub fn on_input(&mut self, key: Option<char>)
        requires
            old(self).phase() == Phase::Running,
        ensures
            final(self).phase() == (if is_exit_key(key) {
                Phase::Stopping(StopReason::Quit)
            } else {
                Phase::Running
            }),
            final(self).recorded() == old(self).recorded(),
    {
        let quit = match key {
            Some(k) => k == 'q',
            None => false,
        };
        if quit {
            self.phase = Phase::Stopping(StopReason::Quit);
        }
    }

    /// The display surface has been released (owed on every path out of
    /// `Stopping`, error paths included): come to rest, keeping the reason.
    pub fn finish(&mut self)
        requires
            old(self).phase() is Stopping,
        ensures
            old(self).phase() matches Phase::Stopping(r) ==> final(self).phase()
                == Phase::Stopped(r),
            final(self).recorded() == old(self).recorded(),
    {
        let reason = match self.phase {
            Phase::Stopping(r) => r,
            _ => StopReason::Fatal,
        };
        self.phase = Phase::Stopped(reason);
    }

    /// Whether the loop should run another frame.
    pub fn is_running(&self) -> (r: bool)
        ensures
            r == (self.phase() == Phase::Running),
    {
        match self.phase {
            Phase::Running => true,
            _ => false,
        }
    }

    /// The process exit code once stopped: zero exactly for a user quit,
    /// one for a fatal error.
    pub fn exit_code(&self) -> (code: i32)
        requires
            self.phase() is Stopped,
        ensures
            (code == 0) <==> self.phase() == Phase::Stopped(StopReason::Quit),
            code == 0 || code == 1,
    {
        match self.phase {
            Phase::Stopped(StopReason::Quit) => 0,
            _ => 1,
        }
    }
}

} // verus!
