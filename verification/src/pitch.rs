//! Bringing the pitch of a song to a wanted value with nothing but a key-up
//! and a key-down button: read, press, read again, until the value is right
//! or the allowed presses are used up.

use vstd::prelude::*;

verus! {

/// At most this many presses are made for one song.
pub const MAX_PITCH_PRESSES: u32 = 10;

/// The page is given this many milliseconds to settle after a press and
/// after a reading.
pub const PITCH_SETTLE_MS: u64 = 100;

/// The tracks are given this many seconds to reload.
pub const PITCH_RELOAD_SECS: u64 = 4;

/// The button that is pressed.
#[derive(Clone, Copy, Debug, PartialEq, Eq, Structural)]
pub enum Direction {
    Up,
    Down,
}

/// How the adjustment ended.
#[derive(Clone, Copy, Debug, PartialEq, Eq, Structural)]
pub enum PitchOutcome {
    /// The pitch already had the wanted value: nothing was pressed.
    AlreadySet,
    /// The pitch reached the wanted value and the tracks were reloaded.
    Converged,
    /// The presses were used up before the pitch reached the wanted value.
    Failed,
}

/// Where the adjustment stands.
#[derive(Clone, Copy, Debug, PartialEq, Eq, Structural)]
pub enum PitchPhase {
    /// A press is due; the pitch is read again after it.
    Pressing,
    /// The pitch is right; the tracks have to be reloaded.
    Reloading,
    /// Nothing is left to do.
    Done(PitchOutcome),
}

/// What has to be done next.
#[derive(Clone, Copy, Debug, PartialEq, Eq, Structural)]
pub enum PitchAction {
    /// Press the button, let the page settle, read the pitch and report it.
    Press(Direction),
    /// Reload the tracks, wait until they are loaded and report it.
    Reload,
    /// Stop: the adjustment has ended.
    Finish(PitchOutcome),
}

/// The button by which `current` moves towards `target`.
pub open spec fn direction_towards(target: i8, current: i8) -> Direction {
    if target > current {
        Direction::Up
    } else {
        Direction::Down
    }
}

/// The state of one pitch adjustment.
///
/// The button is chosen once, from the first reading, and never changed.
#[derive(Clone, Copy, Debug, PartialEq, Eq, Structural)]
pub struct PitchAdjust {
    /// The wanted pitch.
    pub target: i8,
    /// The button that is pressed.
    pub direction: Direction,
    /// How many presses were asked for so far.
    pub presses: u32,
    /// How many presses may be asked for.
    pub max_presses: u32,
    /// Where the adjustment stands.
    pub phase: PitchPhase,
}

impl PitchAdjust {
    /// The adjustment towards `target` when the pitch reads `current`.
    pub open spec fn started(target: i8, current: i8, max_presses: u32) -> PitchAdjust {
        PitchAdjust {
            target,
            direction: direction_towards(target, current),
            presses: if current != target && max_presses > 0 {
                1
            } else {
                0
            },
            max_presses,
            phase: if current == target {
                PitchPhase::Done(PitchOutcome::AlreadySet)
            } else if max_presses == 0 {
                PitchPhase::Done(PitchOutcome::Failed)
            } else {
                PitchPhase::Pressing
            },
        }
    }

    /// The adjustment after the pitch was read as `reading` following a
    /// press.
    pub open spec fn observed(self, reading: i8) -> PitchAdjust {
        if self.phase != PitchPhase::Pressing {
            self
        } else if reading == self.target {
            PitchAdjust { phase: PitchPhase::Reloading, ..self }
        } else if self.presses >= self.max_presses {
            PitchAdjust { phase: PitchPhase::Done(PitchOutcome::Failed), ..self }
        } else {
            PitchAdjust { presses: (self.presses + 1) as u32, ..self }
        }
    }

    /// The adjustment after the tracks were reloaded.
    pub open spec fn reloaded(self) -> PitchAdjust {
        if self.phase == PitchPhase::Reloading {
            PitchAdjust { phase: PitchPhase::Done(PitchOutcome::Converged), ..self }
        } else {
            self
        }
    }

    /// What has to be done next.
    pub open spec fn next_action(self) -> PitchAction {
        match self.phase {
            PitchPhase::Pressing => PitchAction::Press(self.direction),
            PitchPhase::Reloading => PitchAction::Reload,
            PitchPhase::Done(outcome) => PitchAction::Finish(outcome),
        }
    }

    /// The adjustment after the pitch was read as each of `readings` in
    /// turn, each following a press.
    pub open spec fn observed_all(self, readings: Seq<i8>) -> PitchAdjust
        decreases readings.len(),
    {
        if readings.len() == 0 {
            self
        } else {
            self.observed(readings[0]).observed_all(readings.skip(1))
        }
    }

    /// Starts the adjustment towards `target` when the pitch reads
    /// `current`. Nothing is to be done where the two are equal; otherwise
    /// the button is chosen: up where the target is higher, else down.
    pub fn start(target: i8, current: i8, max_presses: u32) -> (adjust: PitchAdjust)
        ensures
            adjust == PitchAdjust::started(target, current, max_presses),
    {
        let direction = if target > current {
            Direction::Up
        } else {
            Direction::Down
        };
        if current == target {
            PitchAdjust {
                target,
                direction,
                presses: 0,
                max_presses,
                phase: PitchPhase::Done(PitchOutcome::AlreadySet),
            }
        } else if max_presses == 0 {
            PitchAdjust {
                target,
                direction,
                presses: 0,
                max_presses,
                phase: PitchPhase::Done(PitchOutcome::Failed),
            }
        } else {
            PitchAdjust { target, direction, presses: 1, max_presses, phase: PitchPhase::Pressing }
        }
    }

    /// What has to be done next.
    pub fn action(&self) -> (action: PitchAction)
        ensures
            action == self.next_action(),
    {
        match self.phase {
            PitchPhase::Pressing => PitchAction::Press(self.direction),
            PitchPhase::Reloading => PitchAction::Reload,
            PitchPhase::Done(outcome) => PitchAction::Finish(outcome),
        }
    }

    /// Takes the pitch as read after a press. The tracks are reloaded next
    /// where it is the target; otherwise the same button is pressed again,
    /// unless the presses are used up, which ends the adjustment as failed.
    /// A reading that follows no press is ignored.
    pub fn observe(&mut self, reading: i8)
        ensures
            *final(self) == old(self).observed(reading),
    {
        match self.phase {
            PitchPhase::Pressing => {
                if reading == self.target {
                    self.phase = PitchPhase::Reloading;
                } else if self.presses >= self.max_presses {
                    self.phase = PitchPhase::Done(PitchOutcome::Failed);
                } else {
                    self.presses = self.presses + 1;
                }
            },
            _ => {},
        }
    }

    /// Takes note that the tracks were reloaded, which ends the adjustment.
    /// Ignored where no reload was due.
    pub fn reload_done(&mut self)
        ensures
            *final(self) == old(self).reloaded(),
    {
        match self.phase {
            PitchPhase::Reloading => {
                self.phase = PitchPhase::Done(PitchOutcome::Converged);
            },
            _ => {},
        }
    }
}

/// While the pitch is not reached and presses are left, every reading asks
/// for one more press of the same button.
pub proof fn lemma_keeps_pressing(adjust: PitchAdjust, readings: Seq<i8>)
    requires
        adjust.phase == PitchPhase::Pressing,
        adjust.presses + readings.len() <= adjust.max_presses,
        forall|i: int| 0 <= i < readings.len() ==> readings[i] != adjust.target,
    ensures
        adjust.observed_all(readings) == (PitchAdjust {
            presses: (adjust.presses + readings.len()) as u32,
            ..adjust
        }),
    decreases readings.len(),
{
    if readings.len() > 0 {
        let next = adjust.observed(readings[0]);
        let rest = readings.skip(1);
        assert forall|i: int| 0 <= i < rest.len() implies rest[i] != next.target by {
            assert(rest[i] == readings[i + 1]);
        }
        lemma_keeps_pressing(next, rest);
    }
}

/// The adjustment converges with the first reading that shows the target:
/// where that is reading number `presses` and no more presses than allowed
/// were needed, exactly `presses` presses of the button chosen at the start
/// were made, and the reload ends the adjustment as converged.
pub proof fn lemma_converges_at_first_match(
    target: i8,
    current: i8,
    max_presses: u32,
    readings: Seq<i8>,
    presses: int,
)
    requires
        current != target,
        1 <= presses <= max_presses,
        presses <= readings.len(),
        readings[presses - 1] == target,
        forall|i: int| 0 <= i < presses - 1 ==> readings[i] != target,
    ensures
        PitchAdjust::started(target, current, max_presses).observed_all(readings.take(presses))
            == (PitchAdjust {
            target,
            direction: direction_towards(target, current),
            presses: presses as u32,
            max_presses,
            phase: PitchPhase::Reloading,
        }),
        PitchAdjust::started(target, current, max_presses).observed_all(
            readings.take(presses),
        ).reloaded().next_action() == PitchAction::Finish(PitchOutcome::Converged),
{
    let start = PitchAdjust::started(target, current, max_presses);
    let before = readings.take(presses - 1);
    lemma_keeps_pressing(start, before);
    lemma_observed_all_push(start, before, target);
    assert(readings.take(presses) =~= before.push(target));
}

/// The adjustment fails when none of the readings after the allowed presses
/// shows the target: exactly `max_presses` presses were made.
pub proof fn lemma_fails_after_max_presses(
    target: i8,
    current: i8,
    max_presses: u32,
    readings: Seq<i8>,
)
    requires
        current != target,
        readings.len() == max_presses,
        forall|i: int| 0 <= i < readings.len() ==> readings[i] != target,
    ensures
        PitchAdjust::started(target, current, max_presses).observed_all(readings) == (PitchAdjust {
            target,
            direction: direction_towards(target, current),
            presses: max_presses,
            max_presses,
            phase: PitchPhase::Done(PitchOutcome::Failed),
        }),
{
    let start = PitchAdjust::started(target, current, max_presses);
    if max_presses == 0 {
        assert(readings =~= Seq::<i8>::empty());
    } else {
        let before = readings.drop_last();
        lemma_keeps_pressing(start, before);
        lemma_observed_all_push(start, before, readings.last());
        assert(readings =~= before.push(readings.last()));
    }
}

/// Observing a list of readings and then one more is observing the longer
/// list.
pub proof fn lemma_observed_all_push(adjust: PitchAdjust, readings: Seq<i8>, last: i8)
    ensures
        adjust.observed_all(readings.push(last)) == adjust.observed_all(readings).observed(last),
    decreases readings.len(),
{
    let longer = readings.push(last);
    if readings.len() == 0 {
        assert(longer.skip(1) =~= Seq::<i8>::empty());
        assert(adjust.observed(last).observed_all(longer.skip(1)) == adjust.observed(last));
    } else {
        assert(longer.skip(1) =~= readings.skip(1).push(last));
        lemma_observed_all_push(adjust.observed(readings[0]), readings.skip(1), last);
    }
}

} // verus!
