use vstd::prelude::*;
use crate::model::auction::{Auction, AuctionStatus};

verus! {

/// Whether the room passed in, so that the private negotiation is open.
pub open spec fn passed_in(auction: Auction) -> bool {
    auction.status matches Some(AuctionStatus::PassedIn)
}

/// The room once the player buys it privately after the pass-in at `price`.
pub open spec fn bought_after_pass_in(auction: Auction, price: i64) -> Auction {
    Auction {
        current_bid: price,
        status: Some(AuctionStatus::SoldToPlayer),
        sold_post_auction: true,
        ..auction
    }
}

fn is_passed_in(auction: &Auction) -> (open: bool)
    ensures
        open == passed_in(*auction),
{
    match &auction.status {
        Some(AuctionStatus::PassedIn) => true,
        _ => false,
    }
}

/// Meets the vendor's counteroffer `offer` after a pass-in: the home is the
/// player's at that price, bought after the pass-in, and waits for
/// settlement. Returns whether it was accepted; a room that did not pass in is
/// left as it is.
pub fn accept_counteroffer(auction: &mut Auction, offer: i64) -> (accepted: bool)
    ensures
        accepted == passed_in(*old(auction)),
        accepted ==> *final(auction) == bought_after_pass_in(*old(auction), offer),
        !accepted ==> *final(auction) == *old(auction),
{
    if !is_passed_in(auction) {
        return false;
    }
    auction.current_bid = offer;
    auction.status = Some(AuctionStatus::SoldToPlayer);
    auction.sold_post_auction = true;
    true
}

/// How the vendor answered the player's test offer at the passed-in price:
/// accepted at that price, or rejected with the counteroffer still standing.
#[derive(Clone, Copy, Debug, PartialEq, Eq)]
pub enum VendorTest {
    Accepted(i64),
    Rejected(i64),
}

/// Tests the vendor once at the passed-in price, with the vendor's answer
/// (`vendor_accepts`, which the vendor's stance decides) and its standing
/// counteroffer `counter`. An accepted test buys the home at the passed-in
/// price; a rejected one leaves the counteroffer available. Either way the
/// test is spent. Without a pass-in, or once the test is spent, nothing
/// happens.
pub fn test_vendor(auction: &mut Auction, counter: i64, vendor_accepts: bool) -> (answer:
    Option<VendorTest>)
    ensures
        !passed_in(*old(auction)) || old(auction).post_auction_tested ==> answer is None
            && *final(auction) == *old(auction),
        passed_in(*old(auction)) && !old(auction).post_auction_tested ==> if vendor_accepts {
            &&& answer == Some(VendorTest::Accepted(old(auction).current_bid))
            &&& *final(auction) == (Auction {
                post_auction_tested: true,
                ..bought_after_pass_in(*old(auction), old(auction).current_bid)
            })
        } else {
            &&& answer == Some(VendorTest::Rejected(counter))
            &&& *final(auction) == (Auction { post_auction_tested: true, ..*old(auction) })
        },
{
    if !is_passed_in(auction) || auction.post_auction_tested {
        return None;
    }
    auction.post_auction_tested = true;
    if vendor_accepts {
        let price = auction.current_bid;
        auction.status = Some(AuctionStatus::SoldToPlayer);
        auction.sold_post_auction = true;
        Some(VendorTest::Accepted(price))
    } else {
        Some(VendorTest::Rejected(counter))
    }
}

} // verus!
