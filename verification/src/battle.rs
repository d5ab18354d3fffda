//! What is read off a battle: the kind of view its camera is in, how the
//! battle began, and the battle's flag words.

use vstd::prelude::*;

verus! {

/// The number of the last kind of view.
pub const LAST_CAMERA_TYPE: u32 = 33;

/// The kind of view that a battle's camera is in. The game stores it as a
/// number, counted from zero in the order of the variants.
#[derive(Clone, Copy, Debug, PartialEq, Eq, PartialOrd, Ord, Structural)]
pub enum CameraType {
    Idle,
    Overview,
    Chantview,
    Skillview,
    Attackview,
    Pursuitview,
    Formationview,
    Encountview,
    Personaview,
    Commandview,
    Scriptview,
    Targetview,
    Approachview,
    Exchangeview,
    Victoryview,
    Wholeview,
    Moveview,
    Combinationview,
    PlayerSingleTargetview,
    PlayerPartyTargetview,
    PlayerSingleSkillview,
    SingleTargetSkillview,
    IncludeCameraSkillview,
    Talkview,
    Reinforcementview,
    PinchEscapeview,
    PinchTransitionview,
    HoldUpview,
    Criticalview,
    OneShotview,
    Changeview,
    RandomFireview,
    Statusview,
    Prepareview,
}

/// How a battle began.
#[derive(Clone, Copy, Debug, PartialEq, Eq, PartialOrd, Ord, Structural)]
pub enum EncountType {
    Normal,
    Event,
    Event2,
    Type3,
}

/// Which side had the first move when a battle began.
#[derive(Clone, Copy, Debug, PartialEq, Eq, PartialOrd, Ord, Structural)]
pub enum Preemptive {
    Normal,
    Pinch,
    Chance,
    HoldUp,
}

/// The four flag words of a battle.
#[derive(Clone, Copy, Debug, PartialEq, Eq, Structural)]
pub struct PackageFlags {
    pub flag0: u32,
    pub flag1: u32,
    pub flag2: u32,
    pub flag3: u32,
}

impl CameraType {
    /// The number that the game stores for a kind of view.
    pub open spec fn index(self) -> u32 {
        match self {
            CameraType::Idle => 0,
            CameraType::Overview => 1,
            CameraType::Chantview => 2,
            CameraType::Skillview => 3,
            CameraType::Attackview => 4,
            CameraType::Pursuitview => 5,
            CameraType::Formationview => 6,
            CameraType::Encountview => 7,
            CameraType::Personaview => 8,
            CameraType::Commandview => 9,
            CameraType::Scriptview => 10,
            CameraType::Targetview => 11,
            CameraType::Approachview => 12,
            CameraType::Exchangeview => 13,
            CameraType::Victoryview => 14,
            CameraType::Wholeview => 15,
            CameraType::Moveview => 16,
            CameraType::Combinationview => 17,
            CameraType::PlayerSingleTargetview => 18,
            CameraType::PlayerPartyTargetview => 19,
            CameraType::PlayerSingleSkillview => 20,
            CameraType::SingleTargetSkillview => 21,
            CameraType::IncludeCameraSkillview => 22,
            CameraType::Talkview => 23,
            CameraType::Reinforcementview => 24,
            CameraType::PinchEscapeview => 25,
            CameraType::PinchTransitionview => 26,
            CameraType::HoldUpview => 27,
            CameraType::Criticalview => 28,
            CameraType::OneShotview => 29,
            CameraType::Changeview => 30,
            CameraType::RandomFireview => 31,
            CameraType::Statusview => 32,
            CameraType::Prepareview => 33,
        }
    }

    /// The kind of view that a number stands for, if it stands for one.
    pub open spec fn from_index(value: u32) -> Option<CameraType> {
        if value == 0 {
            Some(CameraType::Idle)
        } else if value == 1 {
            Some(CameraType::Overview)
        } else if value == 2 {
            Some(CameraType::Chantview)
        } else if value == 3 {
            Some(CameraType::Skillview)
        } else if value == 4 {
            Some(CameraType::Attackview)
        } else if value == 5 {
            Some(CameraType::Pursuitview)
        } else if value == 6 {
            Some(CameraType::Formationview)
        } else if value == 7 {
            Some(CameraType::Encountview)
        } else if value == 8 {
            Some(CameraType::Personaview)
        } else if value == 9 {
            Some(CameraType::Commandview)
        } else if value == 10 {
            Some(CameraType::Scriptview)
        } else if value == 11 {
            Some(CameraType::Targetview)
        } else if value == 12 {
            Some(CameraType::Approachview)
        } else if value == 13 {
            Some(CameraType::Exchangeview)
        } else if value == 14 {
            Some(CameraType::Victoryview)
        } else if value == 15 {
            Some(CameraType::Wholeview)
        } else if value == 16 {
            Some(CameraType::Moveview)
        } else if value == 17 {
            Some(CameraType::Combinationview)
        } else if value == 18 {
            Some(CameraType::PlayerSingleTargetview)
        } else if value == 19 {
            Some(CameraType::PlayerPartyTargetview)
        } else if value == 20 {
            Some(CameraType::PlayerSingleSkillview)
        } else if value == 21 {
            Some(CameraType::SingleTargetSkillview)
        } else if value == 22 {
            Some(CameraType::IncludeCameraSkillview)
        } else if value == 23 {
            Some(CameraType::Talkview)
        } else if value == 24 {
            Some(CameraType::Reinforcementview)
        } else if value == 25 {
            Some(CameraType::PinchEscapeview)
        } else if value == 26 {
            Some(CameraType::PinchTransitionview)
        } else if value == 27 {
            Some(CameraType::HoldUpview)
        } else if value == 28 {
            Some(CameraType::Criticalview)
        } else if value == 29 {
            Some(CameraType::OneShotview)
        } else if value == 30 {
            Some(CameraType::Changeview)
        } else if value == 31 {
            Some(CameraType::RandomFireview)
        } else if value == 32 {
            Some(CameraType::Statusview)
        } else if value == 33 {
            Some(CameraType::Prepareview)
        } else {
            None
        }
    }

    /// The number that the game stores for a kind of view.
    pub fn to_u32(self) -> (r: u32)
        ensures
            r == self.index(),
            r <= LAST_CAMERA_TYPE,
    {
        match self {
            CameraType::Idle => 0,
            CameraType::Overview => 1,
            CameraType::Chantview => 2,
            CameraType::Skillview => 3,
            CameraType::Attackview => 4,
            CameraType::Pursuitview => 5,
            CameraType::Formationview => 6,
            CameraType::Encountview => 7,
            CameraType::Personaview => 8,
            CameraType::Commandview => 9,
            CameraType::Scriptview => 10,
            CameraType::Targetview => 11,
            CameraType::Approachview => 12,
            CameraType::Exchangeview => 13,
            CameraType::Victoryview => 14,
            CameraType::Wholeview => 15,
            CameraType::Moveview => 16,
            CameraType::Combinationview => 17,
            CameraType::PlayerSingleTargetview => 18,
            CameraType::PlayerPartyTargetview => 19,
            CameraType::PlayerSingleSkillview => 20,
            CameraType::SingleTargetSkillview => 21,
            CameraType::IncludeCameraSkillview => 22,
            CameraType::Talkview => 23,
            CameraType::Reinforcementview => 24,
            CameraType::PinchEscapeview => 25,
            CameraType::PinchTransitionview => 26,
            CameraType::HoldUpview => 27,
            CameraType::Criticalview => 28,
            CameraType::OneShotview => 29,
            CameraType::Changeview => 30,
            CameraType::RandomFireview => 31,
            CameraType::Statusview => 32,
            CameraType::Prepareview => 33,
        }
    }

    /// The kind of view that a number stands for. A number above the last
    /// kind stands for none.
    pub fn try_from(value: u32) -> (r: Result<CameraType, ()>)
        ensures
            r is Ok <==> value <= LAST_CAMERA_TYPE,
            r matches Ok(kind) ==> kind.index() == value && CameraType::from_index(value) == Some(
                kind,
            ),
    {
        match value {
            0 => Ok(CameraType::Idle),
            1 => Ok(CameraType::Overview),
            2 => Ok(CameraType::Chantview),
            3 => Ok(CameraType::Skillview),
            4 => Ok(CameraType::Attackview),
            5 => Ok(CameraType::Pursuitview),
            6 => Ok(CameraType::Formationview),
            7 => Ok(CameraType::Encountview),
            8 => Ok(CameraType::Personaview),
            9 => Ok(CameraType::Commandview),
            10 => Ok(CameraType::Scriptview),
            11 => Ok(CameraType::Targetview),
            12 => Ok(CameraType::Approachview),
            13 => Ok(CameraType::Exchangeview),
            14 => Ok(CameraType::Victoryview),
            15 => Ok(CameraType::Wholeview),
            16 => Ok(CameraType::Moveview),
            17 => Ok(CameraType::Combinationview),
            18 => Ok(CameraType::PlayerSingleTargetview),
            19 => Ok(CameraType::PlayerPartyTargetview),
            20 => Ok(CameraType::PlayerSingleSkillview),
            21 => Ok(CameraType::SingleTargetSkillview),
            22 => Ok(CameraType::IncludeCameraSkillview),
            23 => Ok(CameraType::Talkview),
            24 => Ok(CameraType::Reinforcementview),
            25 => Ok(CameraType::PinchEscapeview),
            26 => Ok(CameraType::PinchTransitionview),
            27 => Ok(CameraType::HoldUpview),
            28 => Ok(CameraType::Criticalview),
            29 => Ok(CameraType::OneShotview),
            30 => Ok(CameraType::Changeview),
            31 => Ok(CameraType::RandomFireview),
            32 => Ok(CameraType::Statusview),
            33 => Ok(CameraType::Prepareview),
            _ => Err(()),
        }
    }
}

/// A kind of view and its number determine each other.
pub proof fn lemma_camera_type_numbers(kind: CameraType, value: u32)
    ensures
        kind.index() <= LAST_CAMERA_TYPE,
        CameraType::from_index(kind.index()) == Some(kind),
        CameraType::from_index(value) is Some <==> value <= LAST_CAMERA_TYPE,
        CameraType::from_index(value) matches Some(k) ==> k.index() == value,
{
}

impl Default for EncountType {
    fn default() -> (r: EncountType)
        ensures
            r == EncountType::Normal,
    {
        EncountType::Normal
    }
}

impl Default for Preemptive {
    fn default() -> (r: Preemptive)
        ensures
            r == Preemptive::Normal,
    {
        Preemptive::Normal
    }
}

impl PackageFlags {
    /// Flag words with no flag set.
    pub fn empty() -> (r: PackageFlags)
        ensures
            r == (PackageFlags { flag0: 0, flag1: 0, flag2: 0, flag3: 0 }),
    {
        PackageFlags { flag0: 0, flag1: 0, flag2: 0, flag3: 0 }
    }

    /// Sets, in the first word, the flags that are set in `rhs`.
    pub fn insert_state0(&mut self, rhs: u32)
        ensures
            *final(self) == (PackageFlags { flag0: old(self).flag0 | rhs, ..*old(self) }),
    {
        self.flag0 = self.flag0 | rhs;
    }

    /// Sets, in the second word, the flags that are set in `rhs`.
    pub fn insert_state1(&mut self, rhs: u32)
        ensures
            *final(self) == (PackageFlags { flag1: old(self).flag1 | rhs, ..*old(self) }),
    {
        self.flag1 = self.flag1 | rhs;
    }

    /// Sets, in the third word, the flags that are set in `rhs`.
    pub fn insert_state2(&mut self, rhs: u32)
        ensures
            *final(self) == (PackageFlags { flag2: old(self).flag2 | rhs, ..*old(self) }),
    {
        self.flag2 = self.flag2 | rhs;
    }

    /// Sets, in the fourth word, the flags that are set in `rhs`.
    pub fn insert_state3(&mut self, rhs: u32)
        ensures
            *final(self) == (PackageFlags { flag3: old(self).flag3 | rhs, ..*old(self) }),
    {
        self.flag3 = self.flag3 | rhs;
    }
}

} // verus!
