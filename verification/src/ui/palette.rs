use vstd::prelude::*;

verus! {

/// The semantic colours of the interface.
#[derive(Clone, Copy, Debug, PartialEq, Eq, Structural)]
pub enum Palette {
    Positive,
    Warning,
    Negative,
    TextDim,
    Blue,
}

/// The emphasis of a button: the main call to action, a secondary choice, a
/// quiet option, or a choice against the player's own plan.
#[derive(Clone, Copy, Debug, PartialEq, Eq, Structural)]
pub enum ButtonTone {
    Primary,
    Secondary,
    Quiet,
    Danger,
}

} // verus!
