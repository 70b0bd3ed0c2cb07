//! The user's toggles: automatic start, automatic reset, and one split
//! toggle for each playable act.

use crate::acts::Acts;
use vstd::prelude::*;

verus! {

/// The toggles the user sets in the timer. `start` and `reset` switch the
/// automatic start and reset; every other field switches the split that
/// completing the act of that name gives.
#[derive(Clone, Copy, PartialEq, Eq, Debug, Structural)]
pub struct Settings {
    pub start: bool,
    pub reset: bool,
    pub green_grove_1: bool,
    pub green_grove_2: bool,
    pub rusty_ruin_1: bool,
    pub rusty_ruin_2: bool,
    pub spring_stadium_1: bool,
    pub spring_stadium_2: bool,
    pub diamond_dust_1: bool,
    pub diamond_dust_2: bool,
    pub volcano_gallery_1: bool,
    pub volcano_gallery_2: bool,
    pub gene_gadget_1: bool,
    pub gene_gadget_2: bool,
    pub panic_puppet_1: bool,
    pub panic_puppet_2: bool,
    pub final_fight: bool,
}

impl Settings {
    /// The settings with every toggle enabled.
    pub open spec fn all_enabled() -> Settings {
        Settings {
            start: true,
            reset: true,
            green_grove_1: true,
            green_grove_2: true,
            rusty_ruin_1: true,
            rusty_ruin_2: true,
            spring_stadium_1: true,
            spring_stadium_2: true,
            diamond_dust_1: true,
            diamond_dust_2: true,
            volcano_gallery_1: true,
            volcano_gallery_2: true,
            gene_gadget_1: true,
            gene_gadget_2: true,
            panic_puppet_1: true,
            panic_puppet_2: true,
            final_fight: true,
        }
    }

    /// The split toggle that belongs to `act`; a scene that is no playable
    /// act has none, which counts as disabled.
    pub open spec fn spec_split_enabled(self, act: Acts) -> bool {
        match act {
            Acts::GreenGroveAct1 => self.green_grove_1,
            Acts::GreenGroveAct2 => self.green_grove_2,
            Acts::RustyRuinAct1 => self.rusty_ruin_1,
            Acts::RustyRuinAct2 => self.rusty_ruin_2,
            Acts::SpringStadiumAct1 => self.spring_stadium_1,
            Acts::SpringStadiumAct2 => self.spring_stadium_2,
            Acts::DiamondDustAct1 => self.diamond_dust_1,
            Acts::DiamondDustAct2 => self.diamond_dust_2,
            Acts::VolcanoGalleryAct1 => self.volcano_gallery_1,
            Acts::VolcanoGalleryAct2 => self.volcano_gallery_2,
            Acts::GeneGadgetAct1 => self.gene_gadget_1,
            Acts::GeneGadgetAct2 => self.gene_gadget_2,
            Acts::PanicPuppetAct1 => self.panic_puppet_1,
            Acts::PanicPuppetAct2 => self.panic_puppet_2,
            Acts::FinalFight => self.final_fight,
            _ => false,
        }
    }

    /// Reads the split toggle that belongs to `act`.
    pub fn split_enabled(&self, act: Acts) -> (enabled: bool)
        ensures
            enabled == self.spec_split_enabled(act),
    {
        match act {
            Acts::GreenGroveAct1 => self.green_grove_1,
            Acts::GreenGroveAct2 => self.green_grove_2,
            Acts::RustyRuinAct1 => self.rusty_ruin_1,
            Acts::RustyRuinAct2 => self.rusty_ruin_2,
            Acts::SpringStadiumAct1 => self.spring_stadium_1,
            Acts::SpringStadiumAct2 => self.spring_stadium_2,
            Acts::DiamondDustAct1 => self.diamond_dust_1,
            Acts::DiamondDustAct2 => self.diamond_dust_2,
            Acts::VolcanoGalleryAct1 => self.volcano_gallery_1,
            Acts::VolcanoGalleryAct2 => self.volcano_gallery_2,
            Acts::GeneGadgetAct1 => self.gene_gadget_1,
            Acts::GeneGadgetAct2 => self.gene_gadget_2,
            Acts::PanicPuppetAct1 => self.panic_puppet_1,
            Acts::PanicPuppetAct2 => self.panic_puppet_2,
            Acts::FinalFight => self.final_fight,
            _ => false,
        }
    }
}

impl Default for Settings {
    /// Every toggle starts out enabled.
    fn default() -> (settings: Settings)
        ensures
            settings == Settings::all_enabled(),
    {
        Settings {
            start: true,
            reset: true,
            green_grove_1: true,
            green_grove_2: true,
            rusty_ruin_1: true,
            rusty_ruin_2: true,
            spring_stadium_1: true,
            spring_stadium_2: true,
            diamond_dust_1: true,
            diamond_dust_2: true,
            volcano_gallery_1: true,
            volcano_gallery_2: true,
            gene_gadget_1: true,
            gene_gadget_2: true,
            panic_puppet_1: true,
            panic_puppet_2: true,
            final_fight: true,
        }
    }
}

} // verus!
