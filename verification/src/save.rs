use vstd::prelude::*;
use crate::screens::Screen;

verus! {

/// Number of auction registrations the player receives each week.
pub const WEEKLY_AUCTION_REGISTRATIONS: u8 = 2;

/// Registrations granted to a save that predates the registration field.
pub fn default_auction_registrations() -> (n: u8)
    ensures
        n == WEEKLY_AUCTION_REGISTRATIONS,
{
    WEEKLY_AUCTION_REGISTRATIONS
}

/// The title-screen status line that explains why a quicksave did not load.
pub fn load_failure_status(error: &str) -> (status: String)
    ensures
        status@ == "Load failed: "@ + error@,
{
    let mut status = String::from_str("Load failed: ");
    status.append(error);
    status
}

/// Where a loaded game resumes.
#[derive(Clone, Copy, Debug, PartialEq, Eq, Structural)]
pub struct ResumePoint {
    pub week: u32,
    pub market_index: usize,
    pub portfolio_index: usize,
    pub screen: Screen,
}

/// Repairs the position stored in a save so that it can be resumed: the week
/// is at least 1, the market pulse and the selected holding are clamped to
/// the ones that exist, a save taken on the title screen opens the dashboard,
/// and a save taken in an auction that was not stored opens the listings.
pub fn resume_point(
    week: u32,
    market_index: usize,
    market_count: usize,
    portfolio_index: usize,
    property_count: usize,
    screen: Screen,
    has_auction: bool,
) -> (point: ResumePoint)
    requires
        market_count > 0,
    ensures
        point.week == if week < 1 { 1 } else { week },
        point.market_index == if market_index < market_count - 1 {
            market_index as int
        } else {
            market_count - 1
        },
        point.portfolio_index == if property_count == 0 {
            0
        } else if portfolio_index < property_count - 1 {
            portfolio_index as int
        } else {
            property_count - 1
        },
        point.screen == match screen {
            Screen::Title => Screen::Dashboard,
            Screen::Auction => if has_auction {
                Screen::Auction
            } else {
                Screen::PropertyList
            },
            _ => screen,
        },
{
    let last_market = market_count - 1;
    let last_home = if property_count == 0 {
        0
    } else {
        property_count - 1
    };
    let screen = match screen {
        Screen::Title => Screen::Dashboard,
        Screen::Auction => if has_auction {
            Screen::Auction
        } else {
            Screen::PropertyList
        },
        other => other,
    };
    ResumePoint {
        week: if week < 1 {
            1
        } else {
            week
        },
        market_index: if market_index < last_market {
            market_index
        } else {
            last_market
        },
        portfolio_index: if portfolio_index < last_home {
            portfolio_index
        } else {
            last_home
        },
        screen,
    }
}

} // verus!
