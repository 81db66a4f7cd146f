use vstd::prelude::*;

verus! {

/// Stage of an active envelope. An inactive envelope has no stage.
#[derive(Clone, Copy, Debug, PartialEq, Eq, Structural)]
pub enum AdsrStage {
    /// The gain rises towards full level and then holds there.
    Attack,
    /// The gain falls towards silence.
    Release,
}

/// Linear ADSR envelope: the stage machine. The gain itself, and the ramps
/// that move it, are kept by whoever renders; this type decides which ramp
/// applies and when the envelope has run out.
#[derive(Debug)]
pub struct LinearAdsr {
    /// Current stage if active, otherwise [None].
    stage: Option<AdsrStage>,
}

impl View for LinearAdsr {
    type V = Option<AdsrStage>;

    closed spec fn view(&self) -> Option<AdsrStage> {
        self.stage
    }
}

impl LinearAdsr {
    /// Create new linear ADSR: inactive.
    pub fn new() -> (adsr: Self)
        ensures
            adsr@ is None,
    {
        LinearAdsr { stage: None }
    }

    /// Returns the current stage if active, otherwise [None].
    pub fn stage(&self) -> (stage: Option<AdsrStage>)
        ensures
            stage == self@,
    {
        self.stage
    }

    /// Returns whether ADSR is active.
    pub fn is_active(&self) -> (active: bool)
        ensures
            active == self@ is Some,
    {
        self.stage.is_some()
    }

    /// Advances the stage by one frame. `spent` says whether the gain fell
    /// to silence in this frame. An envelope in its release that is spent
    /// becomes inactive; in every other case the stage stays: the attack holds
    /// at full level until the note is released.
    pub fn next_sample(&mut self, spent: bool)
        ensures
            final(self)@ == if old(self)@ == Some(AdsrStage::Release) && spent {
                None
            } else {
                old(self)@
            },
    {
        match self.stage {
            Some(AdsrStage::Release) => {
                if spent {
                    self.stage = None;
                }
            },
            _ => {},
        }
    }

    /// Note off, triggers envelope release.
    pub fn note_off(&mut self)
        ensures
            final(self)@ == Some(AdsrStage::Release),
    {
        self.stage = Some(AdsrStage::Release);
    }

    /// Note on, triggers envelope attack.
    pub fn note_on(&mut self)
        ensures
            final(self)@ == Some(AdsrStage::Attack),
    {
        self.stage = Some(AdsrStage::Attack);
    }

    /// Resets the envelope: it becomes inactive.
    pub fn reset(&mut self)
        ensures
            final(self)@ is None,
    {
        self.stage = None;
    }
}

} // verus!
