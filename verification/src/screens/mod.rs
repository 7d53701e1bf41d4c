pub mod auction;
pub mod auction_room_panel;
pub mod dashboard;
pub mod esc_menu;
pub mod portfolio;
pub mod property_detail;
pub mod property_list;
pub mod sale_result;

use vstd::prelude::*;

verus! {

/// The screen the game is showing; a property detail names the listing id.
#[derive(Clone, Copy, Debug, PartialEq, Eq, Structural)]
pub enum Screen {
    Title,
    Briefing,
    Dashboard,
    PropertyList,
    PropertyDetail(usize),
    Auction,
    Portfolio,
    SaleResult,
}

} // verus!
