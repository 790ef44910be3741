//! The strobe/flash output line and its scope-bound guard.
//!
//! The line records every level it was commanded to, so contracts can state
//! not only the final level but the exact order of commands an operation
//! issued.  The guard owns the line for one operation and, on release,
//! always drives it low exactly once — whatever happened in between.

use vstd::prelude::*;

verus! {

/// Level of a line after a command history: the last commanded level, or the
/// initial level when nothing was commanded yet.
pub open spec fn level_after(init: bool, cmds: Seq<bool>) -> bool {
    if cmds.len() == 0 {
        init
    } else {
        cmds.last()
    }
}

/// Driving the line low twice leaves the same level as driving it low once:
/// the guard's redundant deactivations are harmless.
pub proof fn lemma_off_idempotent(init: bool, cmds: Seq<bool>)
    ensures
        level_after(init, cmds.push(false).push(false)) == level_after(init, cmds.push(false)),
        !level_after(init, cmds.push(false)),
{
}

/// One digital output line, exclusively owned.  `commands()` is the history
/// of levels it was driven to since creation; the physical level always
/// equals `level_after(false, commands())` (lines come up low).
pub struct ActuatorLine {
    level: bool,
    cmds: Ghost<Seq<bool>>,
}

impl ActuatorLine {
    /// The line is currently driven high.
    pub closed spec fn is_on(self) -> bool {
        self.level
    }

    /// Every level this line was commanded to, in order.
    pub closed spec fn commands(self) -> Seq<bool> {
        self.cmds@
    }

    /// The physical level agrees with the command history.
    pub open spec fn wf(self) -> bool {
        self.is_on() == level_after(false, self.commands())
    }

    /// A fresh line: low, with no commands issued.
    pub fn new() -> (r: ActuatorLine)
        ensures
            !r.is_on(),
            r.commands() == Seq::<bool>::empty(),
            r.wf(),
    {
        ActuatorLine { level: false, cmds: Ghost(Seq::empty()) }
    }

    /// Observe the current level.
    pub fn is_high(&self) -> (r: bool)
        ensures
            r == self.is_on(),
    {
        self.level
    }

    /// Drive the line high.  A failure of the underlying pin is swallowed at
    /// this boundary; the command is recorded either way.
    fn set_high(&mut self)
        ensures
            final(self).commands() == old(self).commands().push(true),
            final(self).is_on(),
            final(self).wf(),
    {
        self.level = true;
        proof {
            self.cmds@ = self.cmds@.push(true);
        }
    }

    /// Drive the line low.  Failures are swallowed as for `set_high`.
    fn set_low(&mut self)
        ensures
            final(self).commands() == old(self).commands().push(false),
            !final(self).is_on(),
            final(self).wf(),
    {
        self.level = false;
        proof {
            self.cmds@ = self.cmds@.push(false);
        }
    }
}

/// Command history of an optional line; empty in a no-flash deployment.
pub open spec fn opt_commands(l: Option<ActuatorLine>) -> Seq<bool> {
    match l {
        Some(x) => x.commands(),
        None => Seq::empty(),
    }
}

/// An optional line is currently driven high.
pub open spec fn opt_on(l: Option<ActuatorLine>) -> bool {
    l matches Some(x) && x.is_on()
}

/// An optional line is well-formed.
pub open spec fn opt_wf(l: Option<ActuatorLine>) -> bool {
    l matches Some(x) ==> x.wf()
}

/// Scope-bound ownership of the actuator line for one operation.  `None`
/// models the valid no-flash deployment: every operation is then a no-op.
pub struct FlashGuard {
    line: Option<ActuatorLine>,
}

impl FlashGuard {
    /// The guard wraps an actual line.
    pub closed spec fn has_line(self) -> bool {
        self.line is Some
    }

    /// The wrapped line (meaningful only when `has_line()`).
    pub closed spec fn the_line(self) -> ActuatorLine {
        self.line->Some_0
    }

    /// Command history of the wrapped line; empty in a no-flash deployment.
    pub open spec fn commands(self) -> Seq<bool> {
        if self.has_line() {
            self.the_line().commands()
        } else {
            Seq::empty()
        }
    }

    /// The wrapped line is currently high (never in a no-flash deployment).
    pub open spec fn lit(self) -> bool {
        self.has_line() && self.the_line().is_on()
    }

    pub open spec fn wf(self) -> bool {
        self.has_line() ==> self.the_line().wf()
    }

    /// Take the line for one operation.  Construction commands nothing: the
    /// line must be turned on explicitly.
    pub fn acquire(line: Option<ActuatorLine>) -> (g: FlashGuard)
        requires
            line matches Some(l) ==> l.wf(),
        ensures
            g.has_line() == (line is Some),
            line matches Some(l) ==> g.the_line() == l,
            g.wf(),
    {
        FlashGuard { line }
    }

    /// Turn the flash on and let it settle.  After asserting the line the
    /// caller is held for a short fixed settle delay (a requirement of the
    /// physical strobe) before this returns; in this model the delay has no
    /// observable effect beyond ordering.
    pub fn on(&mut self)
        requires
            old(self).wf(),
        ensures
            final(self).has_line() == old(self).has_line(),
            old(self).has_line() ==> final(self).commands() == old(self).commands().push(true),
            old(self).has_line() ==> final(self).lit(),
            !old(self).has_line() ==> *final(self) == *old(self),
            final(self).wf(),
    {
        match &mut self.line {
            Some(l) => {
                l.set_high();
            },
            None => {},
        }
    }

    /// Turn the flash off.
    pub fn off(&mut self)
        requires
            old(self).wf(),
        ensures
            final(self).has_line() == old(self).has_line(),
            old(self).has_line() ==> final(self).commands() == old(self).commands().push(false),
            !final(self).lit(),
            !old(self).has_line() ==> *final(self) == *old(self),
            final(self).wf(),
    {
        match &mut self.line {
            Some(l) => {
                l.set_low();
            },
            None => {},
        }
    }

    /// End of the guarded scope: drive the line low exactly once and hand it
    /// back.  Every exit path of an operation ends here, so a released line
    /// is never left lit.
    pub fn release(self) -> (r: Option<ActuatorLine>)
        requires
            self.wf(),
        ensures
            (r is Some) == self.has_line(),
            r matches Some(l) ==> {
                &&& l.commands() == self.the_line().commands().push(false)
                &&& !l.is_on()
                &&& l.wf()
            },
    {
        let mut g = self;
        g.off();
        g.line
    }
}

} // verus!
