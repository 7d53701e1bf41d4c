use vstd::prelude::*;
use crate::model::auction::{Auction, BidderActor};
use crate::ui::money::{decimal, format_count};

verus! {

/// The caption above the current price, naming who leads.
pub open spec fn caption_text(auction: Auction) -> Seq<char> {
    match auction.last_bidder {
        Some(BidderActor::Player) => "Current Bid · Paddle "@ + decimal(
            (100 + (auction.property.id * 37) % 800) as nat,
        ) + " leads"@,
        Some(BidderActor::Npc(index)) => "Current Bid · "@ + (if index < auction.bidders@.len() {
            auction.bidders@[index as int].name@
        } else {
            "another bidder"@
        }) + " leads"@,
        Some(BidderActor::Vendor) => "Declared Vendor Bid · not yet selling"@,
        None => "Opening Call · no leading bidder"@,
    }
}

/// The caption above the current price: the player's paddle, the leading
/// rival, a declared vendor bid, or the opening call.
pub fn current_bid_caption(auction: &Auction) -> (caption: String)
    requires
        auction.property.id * 37 <= usize::MAX,
    ensures
        caption@ == caption_text(*auction),
{
    match auction.last_bidder {
        Some(BidderActor::Player) => {
            let mut caption = String::from_str("Current Bid · Paddle ");
            let paddle = format_count(auction.player_paddle_number() as u64);
            caption.append(paddle.as_str());
            caption.append(" leads");
            caption
        },
        Some(BidderActor::Npc(index)) => {
            let mut caption = String::from_str("Current Bid · ");
            if index < auction.bidders.len() {
                caption.append(auction.bidders[index].name.as_str());
            } else {
                caption.append("another bidder");
            }
            caption.append(" leads");
            caption
        },
        Some(BidderActor::Vendor) => String::from_str("Declared Vendor Bid · not yet selling"),
        None => String::from_str("Opening Call · no leading bidder"),
    }
}

} // verus!
