pub mod auction_sim;
pub mod auction_tick;
pub mod debrief;
pub mod post_auction;
pub mod replay;
pub mod research;
pub mod rival_notebook;
pub mod valuation;
