//! The scenes the game can be in, and the scene codes that stand for them.

use vstd::prelude::*;

verus! {

/// A scene of the game: one of the fifteen playable acts, one of the four
/// control scenes, or `Undefined` while no scene has been observed yet.
#[derive(Clone, Copy, PartialEq, Eq, Debug, Structural)]
pub enum Acts {
    GreenGroveAct1,
    GreenGroveAct2,
    RustyRuinAct1,
    RustyRuinAct2,
    SpringStadiumAct1,
    SpringStadiumAct2,
    DiamondDustAct1,
    DiamondDustAct2,
    VolcanoGalleryAct1,
    VolcanoGalleryAct2,
    GeneGadgetAct1,
    GeneGadgetAct2,
    PanicPuppetAct1,
    PanicPuppetAct2,
    FinalFight,
    GameStart,
    Ending,
    NewGameMenu,
    ContinueMenu,
    Undefined,
}

impl Acts {
    /// The scene that a raw scene code stands for, if it stands for one.
    pub open spec fn spec_from_code(code: u16) -> Option<Acts> {
        match code {
            1 => Some(Acts::GreenGroveAct1),
            2 => Some(Acts::GreenGroveAct2),
            3 => Some(Acts::RustyRuinAct1),
            4 => Some(Acts::RustyRuinAct2),
            5 => Some(Acts::SpringStadiumAct1),
            6 => Some(Acts::SpringStadiumAct2),
            7 => Some(Acts::DiamondDustAct1),
            8 => Some(Acts::DiamondDustAct2),
            9 => Some(Acts::VolcanoGalleryAct1),
            10 => Some(Acts::VolcanoGalleryAct2),
            11 => Some(Acts::GeneGadgetAct1),
            12 => Some(Acts::GeneGadgetAct2),
            13 => Some(Acts::PanicPuppetAct1),
            14 => Some(Acts::PanicPuppetAct2),
            15 => Some(Acts::FinalFight),
            17 => Some(Acts::GameStart),
            18 => Some(Acts::Ending),
            19 => Some(Acts::NewGameMenu),
            20 => Some(Acts::ContinueMenu),
            _ => None,
        }
    }

    /// Looks a raw scene code up in the table of known scenes.
    pub fn from_code(code: u16) -> (act: Option<Acts>)
        ensures
            act == Acts::spec_from_code(code),
    {
        match code {
            1 => Some(Acts::GreenGroveAct1),
            2 => Some(Acts::GreenGroveAct2),
            3 => Some(Acts::RustyRuinAct1),
            4 => Some(Acts::RustyRuinAct2),
            5 => Some(Acts::SpringStadiumAct1),
            6 => Some(Acts::SpringStadiumAct2),
            7 => Some(Acts::DiamondDustAct1),
            8 => Some(Acts::DiamondDustAct2),
            9 => Some(Acts::VolcanoGalleryAct1),
            10 => Some(Acts::VolcanoGalleryAct2),
            11 => Some(Acts::GeneGadgetAct1),
            12 => Some(Acts::GeneGadgetAct2),
            13 => Some(Acts::PanicPuppetAct1),
            14 => Some(Acts::PanicPuppetAct2),
            15 => Some(Acts::FinalFight),
            17 => Some(Acts::GameStart),
            18 => Some(Acts::Ending),
            19 => Some(Acts::NewGameMenu),
            20 => Some(Acts::ContinueMenu),
            _ => None,
        }
    }

    /// Whether this scene is one of the fifteen playable acts.
    pub open spec fn is_level(self) -> bool {
        match self {
            Acts::GameStart
            | Acts::Ending
            | Acts::NewGameMenu
            | Acts::ContinueMenu
            | Acts::Undefined => false,
            _ => true,
        }
    }

    /// The scene that canonically comes after a playable act: the acts run in
    /// one fixed line from Green Grove Act 1 to the final fight, and the
    /// ending comes after the final fight. No other scene has a successor.
    pub open spec fn spec_successor(self) -> Option<Acts> {
        match self {
            Acts::GreenGroveAct1 => Some(Acts::GreenGroveAct2),
            Acts::GreenGroveAct2 => Some(Acts::RustyRuinAct1),
            Acts::RustyRuinAct1 => Some(Acts::RustyRuinAct2),
            Acts::RustyRuinAct2 => Some(Acts::SpringStadiumAct1),
            Acts::SpringStadiumAct1 => Some(Acts::SpringStadiumAct2),
            Acts::SpringStadiumAct2 => Some(Acts::DiamondDustAct1),
            Acts::DiamondDustAct1 => Some(Acts::DiamondDustAct2),
            Acts::DiamondDustAct2 => Some(Acts::VolcanoGalleryAct1),
            Acts::VolcanoGalleryAct1 => Some(Acts::VolcanoGalleryAct2),
            Acts::VolcanoGalleryAct2 => Some(Acts::GeneGadgetAct1),
            Acts::GeneGadgetAct1 => Some(Acts::GeneGadgetAct2),
            Acts::GeneGadgetAct2 => Some(Acts::PanicPuppetAct1),
            Acts::PanicPuppetAct1 => Some(Acts::PanicPuppetAct2),
            Acts::PanicPuppetAct2 => Some(Acts::FinalFight),
            Acts::FinalFight => Some(Acts::Ending),
            _ => None,
        }
    }

    /// Whether reaching `next` from this scene completes this scene: `next` is
    /// the canonical successor, or the ending reached straight from Panic
    /// Puppet Act 2 with the final fight skipped.
    pub open spec fn spec_completed_by(self, next: Acts) -> bool {
        self.spec_successor() == Some(next) || (self == Acts::PanicPuppetAct2 && next
            == Acts::Ending)
    }

    /// Decides whether reaching `next` from this scene completes this scene.
    pub fn completed_by(self, next: Acts) -> (completed: bool)
        ensures
            completed == self.spec_completed_by(next),
    {
        match self {
            Acts::GreenGroveAct1 => next == Acts::GreenGroveAct2,
            Acts::GreenGroveAct2 => next == Acts::RustyRuinAct1,
            Acts::RustyRuinAct1 => next == Acts::RustyRuinAct2,
            Acts::RustyRuinAct2 => next == Acts::SpringStadiumAct1,
            Acts::SpringStadiumAct1 => next == Acts::SpringStadiumAct2,
            Acts::SpringStadiumAct2 => next == Acts::DiamondDustAct1,
            Acts::DiamondDustAct1 => next == Acts::DiamondDustAct2,
            Acts::DiamondDustAct2 => next == Acts::VolcanoGalleryAct1,
            Acts::VolcanoGalleryAct1 => next == Acts::VolcanoGalleryAct2,
            Acts::VolcanoGalleryAct2 => next == Acts::GeneGadgetAct1,
            Acts::GeneGadgetAct1 => next == Acts::GeneGadgetAct2,
            Acts::GeneGadgetAct2 => next == Acts::PanicPuppetAct1,
            Acts::PanicPuppetAct1 => next == Acts::PanicPuppetAct2,
            Acts::PanicPuppetAct2 => next == Acts::FinalFight || next == Acts::Ending,
            Acts::FinalFight => next == Acts::Ending,
            _ => false,
        }
    }

    /// The acts follow one another as their scene codes do: for the codes 1
    /// to 14, the successor of the act with code `code` is the act with code
    /// `code + 1`.
    pub proof fn lemma_successor_is_next_code(code: u16)
        requires
            1 <= code <= 14,
        ensures
            Acts::spec_from_code(code) is Some,
            Acts::spec_from_code(code).unwrap().spec_successor() == Acts::spec_from_code(
                (code + 1) as u16,
            ),
    {
    }

    /// Only a playable act has a successor, and no scene is its own successor.
    pub proof fn lemma_successor_of_levels_only(act: Acts)
        ensures
            act.spec_successor() is Some <==> act.is_level(),
            act.spec_successor() != Some(act),
            !act.spec_completed_by(act),
    {
    }
}

} // verus!
