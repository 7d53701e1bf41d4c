use vstd::prelude::*;

verus! {

/// The game's procedural sound effects.
#[derive(Clone, Copy, Debug, PartialEq, Eq, Hash, Structural)]
pub enum SoundEffect {
    Button,
    Bid,
    Hammer,
    Week,
}

/// The fixed synthesis seed of each sound effect, so every effect renders the
/// same on every run.
pub fn sound_seed(effect: SoundEffect) -> (seed: u64)
    ensures
        seed == match effect {
            SoundEffect::Button => 0xA11C_E001u64,
            SoundEffect::Bid => 0xA11C_E002u64,
            SoundEffect::Hammer => 0xA11C_E003u64,
            SoundEffect::Week => 0xA11C_E004u64,
        },
{
    match effect {
        SoundEffect::Button => 0xA11C_E001,
        SoundEffect::Bid => 0xA11C_E002,
        SoundEffect::Hammer => 0xA11C_E003,
        SoundEffect::Week => 0xA11C_E004,
    }
}

} // verus!
