use vstd::prelude::*;
use crate::audio::SoundEffect;
use crate::model::auction::{Auction, AuctionStatus};
use crate::model::bidder::BidderProfileData;
use crate::model::player::{freshly_owned, CareerRecord, OwnedProperty, Player};
use crate::model::property::{Property, ResearchLevel, WalkawayStyle};
use crate::screens::Screen;
use crate::sim::auction_sim::{
    award_discipline_reputation, begin_auction_calls, bidding_stopped, calls_opened,
    create_auction, disciplined_exit, earned_discipline_reputation, hold_player_position,
    jump_fits, jump_taken, place_player_bid, place_player_jump_bid, player_bid_taken,
    player_can_bid, position_held, quick_resolve_auction, room_opened, room_resolved,
    stop_player_bidding, answered_price, resolving_bids, RivalBid, RivalSeat, RoomOpening,
    BID_INCREMENT,
};
use crate::sim::post_auction::{
    accept_counteroffer, bought_after_pass_in, passed_in, test_vendor, VendorTest,
};
use crate::sim::rival_notebook::{record_completed_room, room_noted};
use crate::sim::debrief::{
    debrief_fits, debriefed, purchase_debrief_for_auction, PurchaseDebrief, SettlementTerms,
};
use crate::ui::money::money_text;
use crate::ui::{format_money, ButtonTone, Palette};

verus! {

/// Whether leaving `current` earns the disciplined walk-away credit.
pub open spec fn leaves_with_discipline(current: Option<Auction>) -> bool {
    current matches Some(auction) && disciplined_exit(auction)
}

/// Leaves the auction room for the listings. The room is noted in the rival
/// notebook (see `record_completed_room`). A room that ended in a disciplined
/// exit also credits one point of reputation and one disciplined walk-away and
/// returns the status line that says so; otherwise there is no status line.
/// The room is closed either way.
pub fn return_to_listings(
    screen: &mut Screen,
    current: &mut Option<Auction>,
    player: &mut Player,
) -> (status: Option<String>)
    requires
        leaves_with_discipline(*old(current)) ==> old(player).reputation < i32::MAX
            && old(player).career.disciplined_walkaways < u32::MAX,
    ensures
        final(current).is_none(),
        *final(screen) == Screen::PropertyList,
        old(current).is_none() ==> *final(player) == *old(player) && status.is_none(),
        *old(current) matches Some(room) ==> room_noted(
            old(player).rival_notebook@,
            final(player).rival_notebook@,
            room,
        ),
        leaves_with_discipline(*old(current)) ==> {
            &&& *final(player) == (Player {
                reputation: (old(player).reputation + 1) as i32,
                career: CareerRecord {
                    disciplined_walkaways: (old(player).career.disciplined_walkaways + 1) as u32,
                    ..old(player).career
                },
                rival_notebook: final(player).rival_notebook,
                ..*old(player)
            })
            &&& status matches Some(text) && text@
                == "Discipline reputation +1 for letting an overheated room win."@
        },
        !leaves_with_discipline(*old(current)) ==> *final(player) == (Player {
            rival_notebook: final(player).rival_notebook,
            ..*old(player)
        }) && status.is_none(),
{
    let mut status: Option<String> = None;
    match &*current {
        Some(auction) => {
            record_completed_room(&mut player.rival_notebook, auction);
            if award_discipline_reputation(player, auction) {
                status = Some(
                    String::from_str("Discipline reputation +1 for letting an overheated room win."),
                );
            }
        },
        None => {},
    }
    *current = None;
    *screen = Screen::PropertyList;
    status
}

/// What the result panel says when a rival bought the home.
pub struct RivalWinNotice {
    pub title: &'static str,
    pub text: String,
    pub discipline_note: bool,
}

/// The result panel of a room a rival won: "Walk-away Held" when the player
/// had stopped, "Outbid At The Hammer" when the player was still in, the
/// sentence naming the buyer and the price, and whether the disciplined
/// walk-away credit is announced.
pub fn rival_win_notice(auction: &Auction) -> (notice: RivalWinNotice)
    requires
        auction.status matches Some(AuctionStatus::SoldToNpc(_)),
    ensures
        auction.status matches Some(AuctionStatus::SoldToNpc(name)) && if auction.player_exit_bid.is_some() {
            &&& notice.title@ == "Walk-away Held"@
            &&& notice.text@ == name@ + " bought it for "@ + money_text(auction.current_bid as int)
                + ". Your cash stayed out of a hotter deal."@
        } else {
            &&& notice.title@ == "Outbid At The Hammer"@
            &&& notice.text@ == name@ + " held the final bid at "@ + money_text(
                auction.current_bid as int,
            ) + ". You kept the paddle down when the last call came."@
        },
        notice.discipline_note == disciplined_exit(*auction),
{
    let name: &String = match &auction.status {
        Some(AuctionStatus::SoldToNpc(name)) => name,
        _ => {
            proof {
                assert(false);
            }
            return RivalWinNotice {
                title: "",
                text: String::new(),
                discipline_note: false,
            };
        },
    };
    let money = format_money(auction.current_bid);
    let mut text = String::from_str(name.as_str());
    let title = if auction.player_exit_bid.is_some() {
        text.append(" bought it for ");
        text.append(money.as_str());
        text.append(". Your cash stayed out of a hotter deal.");
        "Walk-away Held"
    } else {
        text.append(" held the final bid at ");
        text.append(money.as_str());
        text.append(". You kept the paddle down when the last call came.");
        "Outbid At The Hammer"
    };
    RivalWinNotice { title, text, discipline_note: earned_discipline_reputation(auction) }
}

/// The terms of a passed-in room's private negotiation.
pub struct PassedInTerms {
    /// The vendor's counteroffer, as money.
    pub offer_text: String,
    /// Positive when the counter is within the walk-away.
    pub offer_tone: Palette,
    /// How far the counter is from the walk-away, and on which side.
    pub walkaway_gap: String,
    /// What the player can still do.
    pub hint: &'static str,
    pub hint_tone: Palette,
    /// Whether full diligence lets the player read the vendor's stance.
    pub stance_known: bool,
    /// The label of the button that tests the vendor at the passed-in bid.
    pub test_label: String,
    /// Whether that test is still open (it can be made once).
    pub test_open: bool,
    /// The label and emphasis of the button that meets the counter.
    pub meet_label: String,
    pub meet_tone: ButtonTone,
}

/// The distance between two prices.
pub open spec fn gap(a: int, b: int) -> int {
    if a >= b {
        a - b
    } else {
        b - a
    }
}

/// The negotiation after a room passed in, against the vendor's counteroffer
/// `offer`: the counter is shown as positive and met with the primary button
/// when it is within the walk-away, as a warning and a danger button when
/// above it; the passed-in bid can be tested once.
pub fn passed_in_terms(auction: &Auction, offer: i64) -> (t: PassedInTerms)
    requires
        i64::MIN < offer - auction.player_walkaway_price <= i64::MAX,
    ensures
        t.offer_text@ == money_text(offer as int),
        t.offer_tone == if offer <= auction.player_walkaway_price {
            Palette::Positive
        } else {
            Palette::Warning
        },
        t.walkaway_gap@ == money_text(gap(offer as int, auction.player_walkaway_price as int))
            + if offer <= auction.player_walkaway_price {
            " below walk-away"@
        } else {
            " above walk-away"@
        },
        auction.post_auction_tested ==> t.hint@
            == "Your lower offer was rejected. The vendor counter still stands."@ && t.hint_tone
            == Palette::Warning && t.test_label@ == "OFFER REJECTED"@,
        !auction.post_auction_tested ==> t.hint@
            == "Test the vendor at the passed-in price, or meet their counter now."@
            && t.hint_tone == Palette::Blue && t.test_label@ == "OFFER "@ + money_text(
            auction.current_bid as int,
        ),
        t.test_open == !auction.post_auction_tested,
        t.stance_known == (auction.player_research_level == ResearchLevel::FullDiligence),
        t.meet_label@ == "MEET "@ + money_text(offer as int),
        t.meet_tone == if offer <= auction.player_walkaway_price {
            ButtonTone::Primary
        } else {
            ButtonTone::Danger
        },
{
    let within = offer <= auction.player_walkaway_price;
    let difference = offer - auction.player_walkaway_price;
    let distance = if difference >= 0 {
        difference
    } else {
        -difference
    };
    let mut walkaway_gap = format_money(distance);
    if within {
        walkaway_gap.append(" below walk-away");
    } else {
        walkaway_gap.append(" above walk-away");
    }
    let tested = auction.post_auction_tested;
    let test_label = if tested {
        String::from_str("OFFER REJECTED")
    } else {
        let mut label = String::from_str("OFFER ");
        let money = format_money(auction.current_bid);
        label.append(money.as_str());
        label
    };
    let mut meet_label = String::from_str("MEET ");
    let offer_money = format_money(offer);
    meet_label.append(offer_money.as_str());
    PassedInTerms {
        offer_text: format_money(offer),
        offer_tone: if within {
            Palette::Positive
        } else {
            Palette::Warning
        },
        walkaway_gap,
        hint: if tested {
            "Your lower offer was rejected. The vendor counter still stands."
        } else {
            "Test the vendor at the passed-in price, or meet their counter now."
        },
        hint_tone: if tested {
            Palette::Warning
        } else {
            Palette::Blue
        },
        stance_known: auction.player_research_level == ResearchLevel::FullDiligence,
        test_label,
        test_open: !tested,
        meet_label,
        meet_tone: if within {
            ButtonTone::Primary
        } else {
            ButtonTone::Danger
        },
    }
}


/// What the player did on the auction screen. A wait carries the rivals'
/// effective ceilings, and a quick resolution the rivals' bids, as the room's
/// bidding model works them out.
pub enum RoomAction {
    ReviewOutcome,
    FocusRival(usize),
    BeginAuction,
    Bid,
    JumpBid,
    Hold(Vec<i64>),
    WalkAway,
    QuickResolve(Vec<RivalBid>),
    ReturnToListings,
    AcceptCounteroffer(i64),
    TestVendor { counter: i64, vendor_accepts: bool },
}

/// The part of the game that the auction screen reads and changes. The read
/// and the narration beat are shown for the given number of milliseconds.
pub struct AuctionDesk {
    pub screen: Screen,
    pub current_auction: Option<Auction>,
    pub player: Player,
    pub status: String,
    pub auction_read: Option<(String, u32)>,
    pub auction_beat: Option<(String, u32)>,
    pub auction_result_open: bool,
    pub auction_focus: Option<usize>,
    pub purchase_debrief: Option<PurchaseDebrief>,
}

/// Whether `action` can be taken on `auction` within the machine's numbers:
/// the room is well formed, a bid or a jump fits in a dollar amount and a
/// counter, a wait has one ceiling per rival, and a quick resolution names
/// rivals of the room that can still count their bids.
pub open spec fn action_fits(auction: Auction, action: RoomAction) -> bool {
    &&& auction.wf()
    &&& match action {
        RoomAction::Bid => player_can_bid(auction) ==> {
            &&& auction.current_bid + auction.bid_increment <= i64::MAX
            &&& auction.player_bid_count < u8::MAX
            &&& auction.remaining_ms < 8_000 ==> auction.overtime_count < u8::MAX
        },
        RoomAction::JumpBid => player_can_bid(auction) && auction.jump_bid_available ==> {
            &&& 2 * auction.bid_increment <= i64::MAX
            &&& auction.current_bid + 2 * auction.bid_increment <= i64::MAX
            &&& auction.player_bid_count < u8::MAX
            &&& auction.remaining_ms < 8_000 ==> auction.overtime_count < u8::MAX
            &&& forall|i: int|
                0 <= i < auction.bidders@.len() ==> jump_fits(
                    #[trigger] auction.bidders@[i],
                    auction.bid_increment as int,
                )
        },
        RoomAction::Hold(ceilings) => {
            &&& ceilings@.len() == auction.bidders@.len()
            &&& i64::MIN <= auction.current_bid + auction.bid_increment <= i64::MAX
            &&& i64::MIN <= 2 * auction.bid_increment <= i64::MAX
        },
        RoomAction::QuickResolve(bids) => {
            &&& forall|k: int|
                0 <= k < bids@.len() ==> #[trigger] bids@[k].index < auction.bidders@.len()
            &&& forall|i: int|
                0 <= i < auction.bidders@.len() ==> #[trigger] auction.bidders@[i].bid_count
                    <= u8::MAX - 12
            &&& forall|k: int|
                0 <= k < resolving_bids(bids@) ==> #[trigger] bids@[k].amount > answered_price(
                    auction,
                    bids@,
                    k,
                )
        },
        _ => true,
    }
}

/// `after` is `room` once the player met the counteroffer `offer` (see
/// `accept_counteroffer`).
pub open spec fn accept_counteroffer_result(room: Auction, after: Auction, offer: i64) -> bool {
    if passed_in(room) {
        after == bought_after_pass_in(room, offer)
    } else {
        after == room
    }
}

/// `after` is `room` once the player tested the vendor (see `test_vendor`).
pub open spec fn vendor_tested(room: Auction, after: Auction, counter: i64, vendor_accepts: bool) -> bool {
    if !passed_in(room) || room.post_auction_tested {
        after == room
    } else if vendor_accepts {
        after == (Auction {
            post_auction_tested: true,
            ..bought_after_pass_in(room, room.current_bid)
        })
    } else {
        after == (Auction { post_auction_tested: true, ..room })
    }
}

/// The desk with only the room (and what is listed) changed.
pub open spec fn with_room(desk: AuctionDesk, room: Auction) -> AuctionDesk {
    AuctionDesk { current_auction: Some(room), ..desk }
}

/// Carries out the player's action on the auction screen and says which sound
/// to play. Without a room the screen falls back to the listings. Otherwise:
/// reviewing opens the result panel; focusing a rival toggles the focus;
/// beginning opens the calls; a bid or a jump clears the last read, is placed
/// and starts a 4 s narration beat (the jump's message becomes the status); a
/// wait shows the room read for 6 s and in the status; walking away stops the
/// player; a quick resolution lets the rivals finish; returning to the
/// listings closes the room and credits a disciplined walk-away; after a
/// pass-in, meeting the vendor's counteroffer or testing the vendor at the
/// passed-in price reports the vendor's answer.
pub fn handle_room_action(desk: &mut AuctionDesk, action: RoomAction) -> (sound: Option<
    SoundEffect,
>)
    requires
        old(desk).current_auction matches Some(room) ==> action_fits(room, action),
        action is ReturnToListings && leaves_with_discipline(old(desk).current_auction)
            ==> old(desk).player.reputation < i32::MAX
            && old(desk).player.career.disciplined_walkaways < u32::MAX,
    ensures
        old(desk).current_auction is None ==> *final(desk) == (AuctionDesk {
            screen: Screen::PropertyList,
            ..*old(desk)
        }) && sound is None,
        old(desk).current_auction matches Some(room) ==> match action {
            RoomAction::ReviewOutcome => *final(desk) == (AuctionDesk {
                auction_result_open: true,
                ..*old(desk)
            }) && sound is None,
            RoomAction::FocusRival(index) => *final(desk) == (AuctionDesk {
                auction_focus: if old(desk).auction_focus == Some(index) {
                    None
                } else {
                    Some(index)
                },
                ..*old(desk)
            }) && sound is None,
            RoomAction::BeginAuction => final(desk).current_auction matches Some(after) && {
                &&& calls_opened(room, after)
                &&& *final(desk) == (AuctionDesk { status: final(desk).status, ..with_room(*old(desk), after) })
                &&& final(desk).status@
                    == "Bidding is live. Tap RAISE, JUMP, WAIT & READ ROOM, or WALK AWAY."@
                &&& sound == Some(SoundEffect::Button)
            },
            RoomAction::Bid => final(desk).current_auction matches Some(after) && {
                &&& player_bid_taken(room, after)
                &&& *final(desk) == (AuctionDesk {
                    auction_read: None,
                    auction_beat: final(desk).auction_beat,
                    ..with_room(*old(desk), after)
                })
                &&& final(desk).auction_beat matches Some((beat, shown)) && beat@
                    == "Your paddle rises. The room turns to you."@ && shown == 4_000
                &&& sound == Some(SoundEffect::Bid)
            },
            RoomAction::JumpBid => final(desk).current_auction matches Some(after) && {
                &&& jump_taken(room, after, final(desk).status@)
                &&& *final(desk) == (AuctionDesk {
                    auction_read: None,
                    auction_beat: final(desk).auction_beat,
                    status: final(desk).status,
                    ..with_room(*old(desk), after)
                })
                &&& final(desk).auction_beat matches Some((beat, shown)) && beat@
                    == "A double step. You challenge the room."@ && shown == 4_000
                &&& sound == Some(SoundEffect::Bid)
            },
            RoomAction::Hold(ceilings) => final(desk).current_auction matches Some(after)
                && final(desk).auction_read matches Some((read, shown)) && {
                &&& position_held(room, after, ceilings@, read@)
                &&& shown == 6_000
                &&& final(desk).status@ == "Held position. "@ + read@
                &&& *final(desk) == (AuctionDesk {
                    auction_read: final(desk).auction_read,
                    status: final(desk).status,
                    ..with_room(*old(desk), after)
                })
                &&& sound is None
            },
            RoomAction::WalkAway => final(desk).current_auction matches Some(after) && {
                &&& bidding_stopped(room, after)
                &&& *final(desk) == with_room(*old(desk), after)
                &&& sound == Some(SoundEffect::Button)
            },
            RoomAction::QuickResolve(bids) => final(desk).current_auction matches Some(after)
                && {
                &&& room_resolved(room, after, bids@)
                &&& *final(desk) == with_room(*old(desk), after)
                &&& sound == Some(SoundEffect::Hammer)
            },
            RoomAction::AcceptCounteroffer(offer) => final(desk).current_auction matches Some(after)
                && {
                &&& accept_counteroffer_result(room, after, offer)
                &&& passed_in(room) ==> final(desk).status@
                    == "Vendor accepted. Review the numbers, then tap SETTLE PURCHASE."@
                &&& !passed_in(room) ==> final(desk).status == old(desk).status
                &&& *final(desk) == (AuctionDesk {
                    status: final(desk).status,
                    ..with_room(*old(desk), after)
                })
                &&& sound is None
            },
            RoomAction::TestVendor { counter, vendor_accepts } => final(desk).current_auction
                matches Some(after) && {
                &&& vendor_tested(room, after, counter, vendor_accepts)
                &&& final(desk).status@ == if !passed_in(room) || room.post_auction_tested {
                    old(desk).status@
                } else if vendor_accepts {
                    "Vendor accepted your "@ + money_text(room.current_bid as int)
                        + " offer. Review, then tap SETTLE PURCHASE."@
                } else {
                    "Vendor rejected the test offer and holds at "@ + money_text(counter as int)
                        + "."@
                }
                &&& *final(desk) == (AuctionDesk {
                    status: final(desk).status,
                    ..with_room(*old(desk), after)
                })
                &&& sound is None
            },
            RoomAction::ReturnToListings => {
                &&& final(desk).current_auction is None
                &&& final(desk).screen == Screen::PropertyList
                &&& sound is None
                &&& room_noted(
                    old(desk).player.rival_notebook@,
                    final(desk).player.rival_notebook@,
                    room,
                )
                &&& disciplined_exit(room) ==> {
                    &&& final(desk).player == (Player {
                        reputation: (old(desk).player.reputation + 1) as i32,
                        career: CareerRecord {
                            disciplined_walkaways: (old(desk).player.career.disciplined_walkaways
                                + 1) as u32,
                            ..old(desk).player.career
                        },
                        rival_notebook: final(desk).player.rival_notebook,
                        ..old(desk).player
                    })
                    &&& final(desk).status@
                        == "Discipline reputation +1 for letting an overheated room win."@
                }
                &&& !disciplined_exit(room) ==> final(desk).player == (Player {
                    rival_notebook: final(desk).player.rival_notebook,
                    ..old(desk).player
                }) && final(desk).status == old(desk).status
                &&& *final(desk) == (AuctionDesk {
                    screen: final(desk).screen,
                    current_auction: None,
                    player: final(desk).player,
                    status: final(desk).status,
                    ..*old(desk)
                })
            },
        },
{
    if desk.current_auction.is_none() {
        desk.screen = Screen::PropertyList;
        return None;
    }
    match action {
        RoomAction::ReviewOutcome => {
            desk.auction_result_open = true;
            None
        },
        RoomAction::FocusRival(index) => {
            desk.auction_focus = if desk.auction_focus == Some(index) {
                None
            } else {
                Some(index)
            };
            None
        },
        RoomAction::ReturnToListings => {
            let status = return_to_listings(
                &mut desk.screen,
                &mut desk.current_auction,
                &mut desk.player,
            );
            match status {
                Some(text) => {
                    desk.status = text;
                },
                None => {},
            }
            None
        },
        RoomAction::BeginAuction => {
            let mut room = desk.current_auction.take().unwrap();
            begin_auction_calls(&mut room);
            desk.current_auction = Some(room);
            desk.status = String::from_str(
                "Bidding is live. Tap RAISE, JUMP, WAIT & READ ROOM, or WALK AWAY.",
            );
            Some(SoundEffect::Button)
        },
        RoomAction::Bid => {
            let mut room = desk.current_auction.take().unwrap();
            desk.auction_read = None;
            place_player_bid(&mut room);
            desk.current_auction = Some(room);
            desk.auction_beat = Some(
                (String::from_str("Your paddle rises. The room turns to you."), 4_000),
            );
            Some(SoundEffect::Bid)
        },
        RoomAction::JumpBid => {
            let mut room = desk.current_auction.take().unwrap();
            desk.auction_read = None;
            let message = place_player_jump_bid(&mut room);
            desk.current_auction = Some(room);
            desk.status = message;
            desk.auction_beat = Some(
                (String::from_str("A double step. You challenge the room."), 4_000),
            );
            Some(SoundEffect::Bid)
        },
        RoomAction::Hold(ceilings) => {
            let mut room = desk.current_auction.take().unwrap();
            let read = hold_player_position(&mut room, &ceilings);
            desk.current_auction = Some(room);
            let mut status = String::from_str("Held position. ");
            status.append(read.as_str());
            desk.status = status;
            desk.auction_read = Some((read, 6_000));
            None
        },
        RoomAction::AcceptCounteroffer(offer) => {
            let mut room = desk.current_auction.take().unwrap();
            let accepted = accept_counteroffer(&mut room, offer);
            desk.current_auction = Some(room);
            if accepted {
                desk.status = String::from_str(
                    "Vendor accepted. Review the numbers, then tap SETTLE PURCHASE.",
                );
            }
            None
        },
        RoomAction::TestVendor { counter, vendor_accepts } => {
            let mut room = desk.current_auction.take().unwrap();
            let answer = test_vendor(&mut room, counter, vendor_accepts);
            desk.current_auction = Some(room);
            match answer {
                Some(VendorTest::Accepted(price)) => {
                    let mut text = String::from_str("Vendor accepted your ");
                    let money = format_money(price);
                    text.append(money.as_str());
                    text.append(" offer. Review, then tap SETTLE PURCHASE.");
                    desk.status = text;
                },
                Some(VendorTest::Rejected(held)) => {
                    let mut text = String::from_str("Vendor rejected the test offer and holds at ");
                    let money = format_money(held);
                    text.append(money.as_str());
                    text.append(".");
                    desk.status = text;
                },
                None => {},
            }
            None
        },
        RoomAction::WalkAway => {
            let mut room = desk.current_auction.take().unwrap();
            stop_player_bidding(&mut room);
            desk.current_auction = Some(room);
            Some(SoundEffect::Button)
        },
        RoomAction::QuickResolve(bids) => {
            let mut room = desk.current_auction.take().unwrap();
            quick_resolve_auction(&mut room, &bids);
            desk.current_auction = Some(room);
            Some(SoundEffect::Hammer)
        },
    }
}

/// Whether the listing at `index` is the first one with the id `id`.
pub open spec fn first_with_id(listings: Seq<Property>, id: usize, index: int) -> bool {
    &&& 0 <= index < listings.len()
    &&& listings[index].id == id
    &&& forall|k: int| 0 <= k < index ==> #[trigger] listings[k].id != id
}

/// Whether some listing has the id `id`.
pub open spec fn is_listed(listings: Seq<Property>, id: usize) -> bool {
    exists|index: int| 0 <= index < listings.len() && #[trigger] listings[index].id == id
}

/// Keeps the listings whose id is not `id`.
pub open spec fn other_listing(id: usize) -> spec_fn(Property) -> bool {
    |listing: Property| listing.id != id
}

/// The index of the first listing with the id `id`, if there is one.
fn find_listing(listings: &Vec<Property>, id: usize) -> (found: Option<usize>)
    ensures
        found matches Some(index) ==> first_with_id(listings@, id, index as int),
        found is None ==> !is_listed(listings@, id),
{
    let mut i: usize = 0;
    while i < listings.len()
        invariant
            i <= listings@.len(),
            forall|k: int| 0 <= k < i ==> #[trigger] listings@[k].id != id,
        decreases listings@.len() - i,
    {
        if listings[i].id == id {
            return Some(i);
        }
        i += 1;
    }
    None
}

/// Takes every listing with the id `id` out of the book; returns the first of
/// them. The book keeps the others in order.
fn take_listing(listings: &mut Vec<Property>, id: usize) -> (taken: Option<Property>)
    ensures
        final(listings)@ == old(listings)@.filter(other_listing(id)),
        taken matches Some(listing) ==> exists|index: int|
            first_with_id(old(listings)@, id, index) && #[trigger] old(listings)@[index]
                == listing,
        taken is None ==> !is_listed(old(listings)@, id),
{
    let ghost original = listings@;
    let mut kept: Vec<Property> = Vec::new();
    let mut found: Option<Property> = None;
    let ghost mut taken_count: int = 0;
    while listings.len() > 0
        invariant
            0 <= taken_count <= original.len(),
            listings@ == original.subrange(taken_count, original.len() as int),
            kept@ == original.subrange(0, taken_count).filter(other_listing(id)),
            found matches Some(listing) ==> exists|index: int|
                first_with_id(original, id, index) && #[trigger] original[index] == listing,
            found is None ==> forall|k: int| 0 <= k < taken_count ==> #[trigger] original[k].id
                != id,
        decreases listings@.len(),
    {
        let listing = listings.remove(0);
        proof {
            assert(original[taken_count] == listing);
            original.subrange(0, taken_count).lemma_filter_push(listing, other_listing(id));
            assert(original.subrange(0, taken_count + 1) =~= original.subrange(
                0,
                taken_count,
            ).push(listing));
            if found is None && listing.id == id {
                assert(first_with_id(original, id, taken_count));
            }
            taken_count = taken_count + 1;
        }
        if listing.id == id {
            if found.is_none() {
                found = Some(listing);
            }
        } else {
            kept.push(listing);
        }
        assert(listings@ =~= original.subrange(taken_count, original.len() as int));
    }
    proof {
        assert(original.subrange(0, taken_count) =~= original);
        if found is None {
            assert forall|index: int| 0 <= index < original.len() implies #[trigger] original[index].id
                != id by {}
        }
    }
    *listings = kept;
    found
}

/// Registers the player for the auction of the listing `property_id`: with
/// no registration left this week the status says so; a listing that is not
/// in the book changes nothing. Otherwise the room opens on the first such
/// listing (see `create_auction`), the listing leaves the book, a
/// registration is used, the lot is recorded as auctioned, the attendance is
/// counted, the last room's panels are cleared, and the auction screen shows.
pub fn start_auction(
    desk: &mut AuctionDesk,
    listings: &mut Vec<Property>,
    registrations: &mut u8,
    auctioned_ids: &mut Vec<usize>,
    property_id: usize,
    profiles: &Vec<BidderProfileData>,
    seats: &Vec<RivalSeat>,
    opening: RoomOpening,
    walkaway_price: i64,
    research_level: ResearchLevel,
    walkaway_style: WalkawayStyle,
) -> (sound: Option<SoundEffect>)
    requires
        profiles@.len() > 0,
        seats@.len() == 3,
        *old(registrations) > 0 && is_listed(old(listings)@, property_id) ==> {
            &&& property_id + 2 <= usize::MAX
            &&& old(desk).player.career.auctions_attended < u32::MAX
            &&& forall|index: int|
                0 <= index < old(listings)@.len() && #[trigger] old(listings)@[index].id
                    == property_id ==> old(listings)@[index].guide_price - 40_000
                    - BID_INCREMENT >= i64::MIN
        },
    ensures
        *old(registrations) == 0 ==> {
            &&& *final(desk) == (AuctionDesk { status: final(desk).status, ..*old(desk) })
            &&& final(desk).status@
                == "This week's registrations are used. Tap ADVANCE WEEK on RECOVER."@
            &&& final(listings)@ == old(listings)@
            &&& *final(registrations) == 0
            &&& final(auctioned_ids)@ == old(auctioned_ids)@
            &&& sound is None
        },
        *old(registrations) > 0 && !is_listed(old(listings)@, property_id) ==> {
            &&& *final(desk) == *old(desk)
            &&& final(listings)@ == old(listings)@
            &&& *final(registrations) == *old(registrations)
            &&& final(auctioned_ids)@ == old(auctioned_ids)@
            &&& sound is None
        },
        *old(registrations) > 0 && is_listed(old(listings)@, property_id) ==> {
            &&& final(desk).current_auction matches Some(room) && exists|index: int|
                first_with_id(old(listings)@, property_id, index) && #[trigger] room_opened(
                    room,
                    old(listings)@[index],
                    profiles@,
                    seats@,
                    opening,
                    walkaway_price,
                    research_level,
                    walkaway_style,
                )
            &&& final(listings)@ == old(listings)@.filter(other_listing(property_id))
            &&& *final(registrations) == *old(registrations) - 1
            &&& final(auctioned_ids)@ == old(auctioned_ids)@.push(property_id)
            &&& final(desk).player == (Player {
                career: CareerRecord {
                    auctions_attended: (old(desk).player.career.auctions_attended + 1) as u32,
                    ..old(desk).player.career
                },
                ..old(desk).player
            })
            &&& *final(desk) == (AuctionDesk {
                screen: Screen::Auction,
                current_auction: final(desk).current_auction,
                player: final(desk).player,
                status: final(desk).status,
                auction_read: None,
                auction_beat: None,
                auction_result_open: false,
                auction_focus: None,
                purchase_debrief: None,
            })
            &&& final(desk).status@
                == "Registration complete. Review the terms, then tap START AUCTION CALLS."@
            &&& sound == Some(SoundEffect::Button)
        },
{
    if *registrations == 0 {
        desk.status = String::from_str(
            "This week's registrations are used. Tap ADVANCE WEEK on RECOVER.",
        );
        return None;
    }
    if find_listing(listings, property_id).is_none() {
        return None;
    }
    let ghost book = listings@;
    let property = match take_listing(listings, property_id) {
        Some(property) => property,
        None => {
            proof {
                assert(false);
            }
            return None;
        },
    };
    proof {
        let index = choose|index: int|
            first_with_id(book, property_id, index) && #[trigger] book[index] == property;
        assert(book[index].id == property_id);
    }
    desk.auction_result_open = false;
    desk.auction_focus = None;
    desk.auction_beat = None;
    desk.auction_read = None;
    let room = create_auction(
        property,
        profiles,
        seats,
        opening,
        walkaway_price,
        research_level,
        walkaway_style,
    );
    desk.current_auction = Some(room);
    desk.player.career.auctions_attended = desk.player.career.auctions_attended + 1;
    *registrations = *registrations - 1;
    auctioned_ids.push(property_id);
    desk.purchase_debrief = None;
    desk.screen = Screen::Auction;
    desk.status = String::from_str(
        "Registration complete. Review the terms, then tap START AUCTION CALLS.",
    );
    Some(SoundEffect::Button)
}

/// What the bank's check of a purchase says: whether the player can fund it,
/// and the cash and borrowing headroom left after settling.
#[derive(Clone, Copy, Debug)]
pub struct FinanceCheck {
    pub can_buy: bool,
    pub cash_after_settle: i64,
    pub headroom_after: i64,
}

/// Whether the room on the desk was won by the player at the hammer.
pub open spec fn won_by_player(current: Option<Auction>) -> bool {
    current matches Some(room) && room.status matches Some(AuctionStatus::SoldToPlayer)
}

/// Settles a room the player won, on the finance desk's settlement figures
/// `terms` and the bank's check `finance`. A room not won by the player
/// changes nothing. Short of the cash to settle, or refused by the bank, the
/// status says why. Otherwise the player pays the settlement cash and borrows
/// the price less the deposit, the home joins the portfolio (and is
/// selected), the purchase (and a purchase after a pass-in) is counted, the
/// room is noted in the rival notebook, the debrief is kept, the lot leaves the book, the room closes and the
/// portfolio shows.
pub fn settle_purchase(
    desk: &mut AuctionDesk,
    listings: &mut Vec<Property>,
    portfolio_index: &mut usize,
    terms: &SettlementTerms,
    finance: &FinanceCheck,
) -> (sound: Option<SoundEffect>)
    requires
        old(desk).current_auction matches Some(room) && room.status matches Some(
            AuctionStatus::SoldToPlayer,
        ) ==> {
            &&& debrief_fits(room, old(desk).player.cash as int, *terms)
            &&& i64::MIN <= old(desk).player.debt + (room.current_bid - terms.contract_deposit)
                <= i64::MAX
            &&& old(desk).player.career.homes_bought < u32::MAX
            &&& old(desk).player.career.post_auction_buys < u32::MAX
            &&& old(desk).player.properties@.len() < usize::MAX
        },
    ensures
        !won_by_player(old(desk).current_auction) ==> {
            &&& *final(desk) == *old(desk)
            &&& final(listings)@ == old(listings)@
            &&& *final(portfolio_index) == *old(portfolio_index)
            &&& sound is None
        },
        won_by_player(old(desk).current_auction) && (old(desk).player.cash < terms.cash_to_settle
            || !finance.can_buy) ==> {
            &&& *final(desk) == (AuctionDesk { status: final(desk).status, ..*old(desk) })
            &&& final(desk).status@ == "Finance failed: "@ + money_text(
                finance.cash_after_settle as int,
            ) + " cash after settle, "@ + money_text(finance.headroom_after as int)
                + " bank headroom."@
            &&& final(listings)@ == old(listings)@
            &&& *final(portfolio_index) == *old(portfolio_index)
            &&& sound is None
        },
        won_by_player(old(desk).current_auction) && old(desk).player.cash >= terms.cash_to_settle
            && finance.can_buy ==> (old(desk).current_auction matches Some(room) && {
            let homes = old(desk).player.properties@;
            let price = room.current_bid;
            let loan = price - terms.contract_deposit;
            &&& final(desk).player.cash == old(desk).player.cash - terms.cash_to_settle
            &&& final(desk).player.debt == old(desk).player.debt + loan
            &&& final(desk).player.properties@.len() == homes.len() + 1
            &&& final(desk).player.properties@.drop_last() == homes
            &&& freshly_owned(
                final(desk).player.properties@.last(),
                room.property,
                price,
                terms.purchase_fees,
                terms.contract_deposit,
                loan as i64,
                room.player_walkaway_price,
                room.player_research_level,
                room.walkaway_style,
            )
            &&& final(desk).player.career == (CareerRecord {
                homes_bought: (old(desk).player.career.homes_bought + 1) as u32,
                post_auction_buys: if room.sold_post_auction {
                    (old(desk).player.career.post_auction_buys + 1) as u32
                } else {
                    old(desk).player.career.post_auction_buys
                },
                ..old(desk).player.career
            })
            &&& final(desk).player.reputation == old(desk).player.reputation
            &&& room_noted(
                old(desk).player.rival_notebook@,
                final(desk).player.rival_notebook@,
                room,
            )
            &&& final(desk).purchase_debrief matches Some(debrief) && debriefed(
                debrief,
                room,
                old(desk).player.cash as int,
                *terms,
            )
            &&& *final(desk) == (AuctionDesk {
                screen: Screen::Portfolio,
                current_auction: None,
                player: final(desk).player,
                status: final(desk).status,
                purchase_debrief: final(desk).purchase_debrief,
                ..*old(desk)
            })
            &&& final(desk).status@ == "Property settled. Check the margin before buying upgrades."@
            &&& *final(portfolio_index) == homes.len()
            &&& final(listings)@ == old(listings)@.filter(other_listing(room.property.id))
            &&& sound == Some(SoundEffect::Hammer)
        }),
{
    let won = match &desk.current_auction {
        Some(room) => match &room.status {
            Some(AuctionStatus::SoldToPlayer) => true,
            _ => false,
        },
        None => false,
    };
    if !won {
        return None;
    }
    if desk.player.cash < terms.cash_to_settle || !finance.can_buy {
        let mut text = String::from_str("Finance failed: ");
        let cash = format_money(finance.cash_after_settle);
        text.append(cash.as_str());
        text.append(" cash after settle, ");
        let headroom = format_money(finance.headroom_after);
        text.append(headroom.as_str());
        text.append(" bank headroom.");
        desk.status = text;
        return None;
    }
    let room = desk.current_auction.take().unwrap();
    let debrief = purchase_debrief_for_auction(&room, desk.player.cash, terms);
    record_completed_room(&mut desk.player.rival_notebook, &room);
    let price = room.current_bid;
    let loan = price - terms.contract_deposit;
    let lot = room.property.id;
    let post_auction = room.sold_post_auction;
    let walkaway_price = room.player_walkaway_price;
    let research_level = room.player_research_level;
    let walkaway_style = room.walkaway_style;
    let property = room.property;
    desk.player.cash = desk.player.cash - terms.cash_to_settle;
    desk.player.debt = desk.player.debt + loan;
    let owned = OwnedProperty::new(
        property,
        price,
        terms.purchase_fees,
        terms.contract_deposit,
        loan,
        walkaway_price,
        research_level,
        walkaway_style,
    );
    desk.purchase_debrief = Some(debrief);
    desk.player.properties.push(owned);
    desk.player.career.homes_bought = desk.player.career.homes_bought + 1;
    if post_auction {
        desk.player.career.post_auction_buys = desk.player.career.post_auction_buys + 1;
    }
    *portfolio_index = desk.player.properties.len() - 1;
    let _ = take_listing(listings, lot);
    desk.screen = Screen::Portfolio;
    desk.status = String::from_str("Property settled. Check the margin before buying upgrades.");
    Some(SoundEffect::Hammer)
}

} // verus!
