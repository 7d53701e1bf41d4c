pub mod auction_reactions;
pub mod auction_view;
pub mod money;
pub mod palette;
pub mod text;

pub use money::format_money;
pub use palette::{ButtonTone, Palette};
