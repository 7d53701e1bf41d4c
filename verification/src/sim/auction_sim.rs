use vstd::prelude::*;
use crate::model::auction::{
    Auction, AuctionStatus, AuctionTemperature, BidLog, BidderActor, MAX_LOG_ENTRIES,
};
use crate::model::bidder::{Bidder, BidderMood, BidderProfileData, BidderType};
use crate::model::player::{CareerRecord, Player};
use crate::model::property::{Property, ResearchLevel, WalkawayStyle};
use crate::sim::valuation::{floor_to, round_down_to_increment};
use crate::ui::format_money;
use crate::ui::money::money_text;

verus! {

/// Length of the live calls, in milliseconds.
pub const AUCTION_DURATION_MS: i64 = 56_000;

/// `new` is `old` with one line of commentary added (stamped with the clock of
/// `old`), the oldest line dropped when the log was full, and nothing else
/// changed.
pub open spec fn logged(old: Auction, new: Auction, text: Seq<char>) -> bool {
    &&& new == (Auction { log: new.log, ..old })
    &&& new.log@.len() > 0
    &&& new.log@.last().text@ == text
    &&& new.log@.last().remaining_ms == old.remaining_ms
    &&& new.log@.drop_last() == (if old.log@.len() >= MAX_LOG_ENTRIES {
        old.log@.drop_first()
    } else {
        old.log@
    })
}

/// Adds a line of commentary to the room's log, keeping only the most recent
/// twelve lines.
pub fn push_log(auction: &mut Auction, text: String)
    requires
        old(auction).log@.len() <= MAX_LOG_ENTRIES,
    ensures
        logged(*old(auction), *final(auction), text@),
        final(auction).log@.len() <= MAX_LOG_ENTRIES,
{
    let ghost before = auction.log@;
    let entry = BidLog { text, remaining_ms: auction.remaining_ms };
    auction.log.push(entry);
    if auction.log.len() > MAX_LOG_ENTRIES {
        auction.log.remove(0);
        assert(auction.log@.drop_last() =~= before.drop_first());
    } else {
        assert(auction.log@.drop_last() =~= before);
    }
}

/// What the room's bidder model decides for one seat at the table: the
/// rival's ceiling, its pressure tolerance and overbid tendency (in
/// thousandths), its opening tell and the four lines of its rival notes.
#[derive(Clone, Debug)]
pub struct RivalSeat {
    pub max_price: i64,
    pub pressure_tolerance: u32,
    pub overbid_tendency: u32,
    pub tell: String,
    pub preference: String,
    pub weakness: String,
    pub danger: String,
    pub rhythm: String,
}

/// The room opens in $10,000 rises.
pub const BID_INCREMENT: i64 = 10_000;

/// What the room's model decides for a new room: the opening temperature, the
/// market's heat and the seed of the room's random stream.
#[derive(Clone, Copy, Debug)]
pub struct RoomOpening {
    pub temperature: AuctionTemperature,
    pub market_heat: i32,
    pub rng_state: u64,
}

/// The rival in seat `offset` (0, 1 or 2): the authored profile's name, type
/// and temperament, the seat's model values, a first reaction 1 s after the
/// calls open and 0.55 s later for each seat after, a heat of 35 plus 35 times
/// the aggression, watching.
pub open spec fn seated(profile: BidderProfileData, seat: RivalSeat, offset: int) -> Bidder {
    Bidder {
        name: profile.name,
        bidder_type: profile.bidder_type,
        max_price: seat.max_price,
        aggression: profile.aggression,
        patience: profile.patience,
        pressure_tolerance: seat.pressure_tolerance,
        overbid_tendency: seat.overbid_tendency,
        reaction_timer_ms: (1_000 + 550 * offset) as i64,
        preparing_bid: false,
        bid_flash_ms: 0,
        bid_count: 0,
        heat: (35 + profile.aggression * 35 / 1_000) as i32,
        mood: BidderMood::Watching,
        tell: seat.tell,
        preference: seat.preference,
        weakness: seat.weakness,
        danger: seat.danger,
        rhythm: seat.rhythm,
        active: true,
        has_logged_exit: false,
        stretch_bid_used: false,
    }
}

/// Half of `value`, rounded toward zero.
pub open spec fn half_toward_zero(value: int) -> int {
    if value >= 0 {
        value / 2
    } else {
        -((-value) / 2)
    }
}

/// Where the opening call starts from: $40,000 under the guide, but not under
/// half the guide.
pub open spec fn opening_start(guide: int) -> int {
    let below_guide = guide - 40_000;
    let half = half_toward_zero(guide);
    if below_guide >= half {
        below_guide
    } else {
        half
    }
}

/// The opening call: `opening_start` rounded down to the bid step.
pub open spec fn opening_bid(guide: int, increment: int) -> int {
    floor_to(opening_start(guide), increment)
}

/// `auction` is the new room `create_auction` opens for `property`.
pub open spec fn room_opened(
    auction: Auction,
    property: Property,
    profiles: Seq<BidderProfileData>,
    seats: Seq<RivalSeat>,
    opening: RoomOpening,
    player_walkaway_price: i64,
    player_research_level: ResearchLevel,
    walkaway_style: WalkawayStyle,
) -> bool {
    &&& auction.wf()
    &&& auction == (Auction {
        property,
        current_bid: opening_bid(property.guide_price as int, BID_INCREMENT as int)
            as i64,
        reserve_price: property.reserve_price,
        bid_increment: BID_INCREMENT,
        remaining_ms: AUCTION_DURATION_MS,
        call_timer_ms: 1_000,
        since_bid_ms: 0,
        bidders: auction.bidders,
        last_bidder: None,
        is_player_active: true,
        player_exit_bid: None,
        overtime_count: 0,
        status: None,
        log: auction.log,
        player_walkaway_price,
        player_research_level,
        walkaway_style,
        temperature: opening.temperature,
        market_heat: opening.market_heat,
        jump_bid_available: true,
        player_bid_count: 0,
        on_market_announced: false,
        vendor_bid_used: false,
        last_room_read: None,
        sold_post_auction: false,
        post_auction_tested: false,
        has_started: false,
        rng_state: opening.rng_state,
    })
    &&& auction.bidders@.len() == 3
    &&& forall|i: int|
        0 <= i < 3 ==> #[trigger] auction.bidders@[i] == seated(
            profiles[((property.id + i) % (profiles.len() as int))],
            seats[i],
            i,
        )
    &&& auction.log@.len() == 1
    &&& auction.log@[0].text@ == "Registration confirmed. Opening call will be "@ + money_text(
        opening_bid(property.guide_price as int, BID_INCREMENT as int),
    ) + "."@
    &&& auction.log@[0].remaining_ms == AUCTION_DURATION_MS
    &&& auction.current_bid % BID_INCREMENT == 0
    &&& auction.current_bid <= opening_start(property.guide_price as int) < auction.current_bid
        + BID_INCREMENT
}

/// A new room for `property`: three rivals seated from the authored profiles
/// in turn from the property's id on, the opening call set from the guide, a
/// full 56 s clock, the player registered with their walk-away, research and
/// style, the jump available, and the registration logged.
pub fn create_auction(
    property: Property,
    profiles: &Vec<BidderProfileData>,
    seats: &Vec<RivalSeat>,
    opening: RoomOpening,
    player_walkaway_price: i64,
    player_research_level: ResearchLevel,
    walkaway_style: WalkawayStyle,
) -> (auction: Auction)
    requires
        profiles@.len() > 0,
        seats@.len() == 3,
        property.id + 2 <= usize::MAX,
        property.guide_price - 40_000 - BID_INCREMENT >= i64::MIN,
    ensures
        room_opened(
            auction,
            property,
            profiles@,
            seats@,
            opening,
            player_walkaway_price,
            player_research_level,
            walkaway_style,
        ),
{
    let mut bidders: Vec<Bidder> = Vec::new();
    let mut offset: usize = 0;
    while offset < 3
        invariant
            offset <= 3,
            bidders@.len() == offset,
            profiles@.len() > 0,
            seats@.len() == 3,
            property.id + 2 <= usize::MAX,
            forall|i: int|
                0 <= i < offset ==> #[trigger] bidders@[i] == seated(
                    profiles@[((property.id + i) % (profiles@.len() as int))],
                    seats@[i],
                    i,
                ),
        decreases 3 - offset,
    {
        let profile = &profiles[(property.id + offset) % profiles.len()];
        let seat = &seats[offset];
        let heat: u64 = 35 + profile.aggression as u64 * 35 / 1_000;
        let bidder = Bidder {
            name: profile.name.clone(),
            bidder_type: profile.bidder_type,
            max_price: seat.max_price,
            aggression: profile.aggression,
            patience: profile.patience,
            pressure_tolerance: seat.pressure_tolerance,
            overbid_tendency: seat.overbid_tendency,
            reaction_timer_ms: 1_000 + 550 * offset as i64,
            preparing_bid: false,
            bid_flash_ms: 0,
            bid_count: 0,
            heat: heat as i32,
            mood: BidderMood::Watching,
            tell: seat.tell.clone(),
            preference: seat.preference.clone(),
            weakness: seat.weakness.clone(),
            danger: seat.danger.clone(),
            rhythm: seat.rhythm.clone(),
            active: true,
            has_logged_exit: false,
            stretch_bid_used: false,
        };
        bidders.push(bidder);
        offset += 1;
    }
    let guide = property.guide_price;
    let below_guide = guide - 40_000;
    let half = guide / 2;
    let start = if below_guide >= half {
        below_guide
    } else {
        half
    };
    let opening_call = round_down_to_increment(start, BID_INCREMENT);
    let mut text = String::from_str("Registration confirmed. Opening call will be ");
    let money = format_money(opening_call);
    text.append(money.as_str());
    text.append(".");
    let reserve_price = property.reserve_price;
    Auction {
        property,
        current_bid: opening_call,
        reserve_price,
        bid_increment: BID_INCREMENT,
        remaining_ms: AUCTION_DURATION_MS,
        call_timer_ms: 1_000,
        since_bid_ms: 0,
        bidders,
        last_bidder: None,
        is_player_active: true,
        player_exit_bid: None,
        overtime_count: 0,
        status: None,
        log: vec![BidLog { text, remaining_ms: AUCTION_DURATION_MS }],
        player_walkaway_price,
        player_research_level,
        walkaway_style,
        temperature: opening.temperature,
        market_heat: opening.market_heat,
        jump_bid_available: true,
        player_bid_count: 0,
        on_market_announced: false,
        vendor_bid_used: false,
        last_room_read: None,
        sold_post_auction: false,
        post_auction_tested: false,
        has_started: false,
        rng_state: opening.rng_state,
    }
}

/// The calls open on a room that has not started: it is marked started and
/// the opening bid announced; a started or finished room stays as it is.
pub open spec fn calls_opened(before: Auction, after: Auction) -> bool {
    if before.has_started || before.status.is_some() {
        after == before
    } else {
        logged(
            Auction { has_started: true, ..before },
            after,
            "Bidding is open at "@ + money_text(before.current_bid as int) + "."@,
        )
    }
}

/// Opens the calls of a room that has not started yet: marks it started and
/// announces the opening bid. A started or finished room is left as it is.
pub fn begin_auction_calls(auction: &mut Auction)
    requires
        old(auction).wf(),
    ensures
        final(auction).wf(),
        calls_opened(*old(auction), *final(auction)),
{
    if auction.has_started || !auction.is_running() {
        return;
    }
    auction.has_started = true;
    let mut text = String::from_str("Bidding is open at ");
    let money = format_money(auction.current_bid);
    text.append(money.as_str());
    text.append(".");
    push_log(auction, text);
}

/// The player stops for good: the bid at which they stopped is recorded and
/// logged; nothing changes once the room is finished or the player has
/// stopped.
pub open spec fn bidding_stopped(before: Auction, after: Auction) -> bool {
    if before.status.is_some() || !before.is_player_active {
        after == before
    } else {
        logged(
            Auction {
                is_player_active: false,
                player_exit_bid: Some(before.current_bid),
                ..before
            },
            after,
            "You stop at "@ + money_text(before.current_bid as int)
                + " and force the room to prove it."@,
        )
    }
}

/// The player lowers their paddle for good: the bid at which they stopped is
/// recorded. Has no effect once the room is finished or the player has stopped.
pub fn stop_player_bidding(auction: &mut Auction)
    requires
        old(auction).wf(),
    ensures
        final(auction).wf(),
        bidding_stopped(*old(auction), *final(auction)),
{
    if !auction.is_running() || !auction.is_player_active {
        return;
    }
    auction.is_player_active = false;
    auction.player_exit_bid = Some(auction.current_bid);
    let mut text = String::from_str("You stop at ");
    let money = format_money(auction.current_bid);
    text.append(money.as_str());
    text.append(" and force the room to prove it.");
    push_log(auction, text);
}

/// A disciplined exit: the player stopped, and a rival then bought the home
/// for more than the player's walk-away price.
pub open spec fn disciplined_exit(auction: Auction) -> bool {
    &&& auction.status matches Some(AuctionStatus::SoldToNpc(_))
    &&& auction.player_exit_bid.is_some()
    &&& auction.current_bid > auction.player_walkaway_price
}

/// Whether the room ended in a disciplined exit that earns reputation.
pub fn earned_discipline_reputation(auction: &Auction) -> (earned: bool)
    ensures
        earned == disciplined_exit(*auction),
{
    let sold_to_rival = match &auction.status {
        Some(AuctionStatus::SoldToNpc(_)) => true,
        _ => false,
    };
    sold_to_rival && auction.player_exit_bid.is_some() && auction.current_bid
        > auction.player_walkaway_price
}

/// Credits a disciplined exit: one point of reputation and one disciplined
/// walk-away on the career record. Returns whether it was credited; a room
/// without a disciplined exit leaves the player unchanged.
pub fn award_discipline_reputation(player: &mut Player, auction: &Auction) -> (awarded: bool)
    requires
        disciplined_exit(*auction) ==> old(player).reputation < i32::MAX
            && old(player).career.disciplined_walkaways < u32::MAX,
    ensures
        awarded == disciplined_exit(*auction),
        awarded ==> *final(player) == (Player {
            reputation: (old(player).reputation + 1) as i32,
            career: CareerRecord {
                disciplined_walkaways: (old(player).career.disciplined_walkaways + 1) as u32,
                ..old(player).career
            },
            ..*old(player)
        }),
        !awarded ==> *final(player) == *old(player),
{
    if !earned_discipline_reputation(auction) {
        return false;
    }
    player.reputation = player.reputation + 1;
    player.career.disciplined_walkaways = player.career.disciplined_walkaways + 1;
    true
}

/// How the hammer falls on the room as it stands: a sale needs a bid at or
/// above reserve from the player or a rival; anything else passes in.
pub open spec fn hammer_status(auction: Auction) -> AuctionStatus {
    if auction.current_bid < auction.reserve_price || auction.last_bidder.is_none() {
        AuctionStatus::PassedIn
    } else {
        match auction.last_bidder {
            Some(BidderActor::Player) => AuctionStatus::SoldToPlayer,
            Some(BidderActor::Npc(index)) => AuctionStatus::SoldToNpc(
                auction.bidders@[index as int].name,
            ),
            _ => AuctionStatus::PassedIn,
        }
    }
}

/// The auctioneer's closing line for the room as it stands.
pub open spec fn hammer_line(auction: Auction) -> Seq<char> {
    if auction.current_bid < auction.reserve_price || auction.last_bidder.is_none() {
        "Auction passes in below reserve."@
    } else {
        match auction.last_bidder {
            Some(BidderActor::Player) => "Sold to you for "@ + money_text(
                auction.current_bid as int,
            ) + "."@,
            Some(BidderActor::Npc(index)) => "Sold to "@ + auction.bidders@[index as int].name@
                + " for "@ + money_text(auction.current_bid as int) + "."@,
            _ => "Auction passes in on the vendor bid."@,
        }
    }
}

/// The hammer falls on `before`: its outcome is recorded and announced.
pub open spec fn hammer_fell(before: Auction, after: Auction) -> bool {
    logged(
        Auction { status: Some(hammer_status(before)), ..before },
        after,
        hammer_line(before),
    )
}

/// Brings the hammer down: records how the room ended and announces it.
pub fn finish_auction(auction: &mut Auction)
    requires
        old(auction).wf(),
    ensures
        final(auction).wf(),
        hammer_fell(*old(auction), *final(auction)),
{
    if auction.current_bid < auction.reserve_price || auction.last_bidder.is_none() {
        auction.status = Some(AuctionStatus::PassedIn);
        push_log(auction, String::from_str("Auction passes in below reserve."));
        return;
    }
    match auction.last_bidder {
        Some(BidderActor::Player) => {
            auction.status = Some(AuctionStatus::SoldToPlayer);
            let mut text = String::from_str("Sold to you for ");
            let money = format_money(auction.current_bid);
            text.append(money.as_str());
            text.append(".");
            push_log(auction, text);
        },
        Some(BidderActor::Npc(index)) => {
            let name = auction.bidders[index].name.clone();
            let mut text = String::from_str("Sold to ");
            text.append(name.as_str());
            auction.status = Some(AuctionStatus::SoldToNpc(name));
            text.append(" for ");
            let money = format_money(auction.current_bid);
            text.append(money.as_str());
            text.append(".");
            push_log(auction, text);
        },
        _ => {
            auction.status = Some(AuctionStatus::PassedIn);
            push_log(auction, String::from_str("Auction passes in on the vendor bid."));
        },
    }
}

/// The vendor's bid can never buy the home, and no sale happens below reserve.
pub proof fn lemma_hammer_never_sells_below_reserve_or_to_the_vendor(auction: Auction)
    ensures
        !(hammer_status(auction) is PassedIn) ==> auction.current_bid >= auction.reserve_price,
        auction.last_bidder == Some(BidderActor::Vendor) ==> hammer_status(auction) is PassedIn,
        hammer_status(auction) is SoldToPlayer ==> auction.last_bidder == Some(
            BidderActor::Player,
        ),
{
}

/// The clock after a bid: a bid with less than 8 s left reopens the calls,
/// giving 11 s, or only 7 s from the third late bid on.
pub open spec fn clock_after_late_bid(auction: Auction) -> (int, int) {
    if auction.remaining_ms < 8_000 {
        let overtime = auction.overtime_count + 1;
        (overtime, if overtime >= 3 {
            7_000
        } else {
            11_000
        })
    } else {
        (auction.overtime_count as int, auction.remaining_ms as int)
    }
}

/// `after` is `before` once a bid has been taken into account on the clock: a
/// late bid (under 8 s left) counts an overtime, resets the clock and has the
/// auctioneer say so; any other bid leaves the room as it is.
pub open spec fn reopened(before: Auction, after: Auction) -> bool {
    if before.remaining_ms < 8_000 {
        let (overtime, remaining) = clock_after_late_bid(before);
        logged(
            Auction { overtime_count: overtime as u8, remaining_ms: remaining as i64, ..before },
            after,
            if overtime >= 3 {
                "The auctioneer warns there will be no more patience."@
            } else {
                "Late bid. The auctioneer gives the room one more chance."@
            },
        )
    } else {
        after == before
    }
}

/// Reopens the calls after a late bid (one made with under 8 s left): counts
/// the overtime, resets the clock and has the auctioneer say so.
pub fn extend_if_needed(auction: &mut Auction)
    requires
        old(auction).wf(),
        old(auction).remaining_ms < 8_000 ==> old(auction).overtime_count < u8::MAX,
    ensures
        final(auction).wf(),
        reopened(*old(auction), *final(auction)),
{
    if auction.remaining_ms < 8_000 {
        auction.overtime_count = auction.overtime_count + 1;
        if auction.overtime_count >= 3 {
            auction.remaining_ms = 7_000;
            push_log(
                auction,
                String::from_str("The auctioneer warns there will be no more patience."),
            );
        } else {
            auction.remaining_ms = 11_000;
            push_log(
                auction,
                String::from_str("Late bid. The auctioneer gives the room one more chance."),
            );
        }
    }
}

/// The bid step once the auctioneer has called the home on the market.
pub const ON_MARKET_INCREMENT: i64 = 5_000;

/// The room once a bid has been taken: the first bid at or above reserve has
/// the auctioneer call the home on the market, and every later raise is a
/// tighter $5,000 step. A room already on the market, or still below reserve,
/// is left as it is.
pub open spec fn market_called(auction: Auction) -> Auction {
    if !auction.on_market_announced && auction.current_bid >= auction.reserve_price {
        Auction { on_market_announced: true, bid_increment: ON_MARKET_INCREMENT, ..auction }
    } else {
        auction
    }
}

/// Calls the home on the market once the bidding reaches reserve, tightening
/// the bid step to $5,000 (see `market_called`).
pub fn announce_on_market(auction: &mut Auction)
    requires
        old(auction).wf(),
    ensures
        final(auction).wf(),
        *final(auction) == market_called(*old(auction)),
{
    if !auction.on_market_announced && auction.current_bid >= auction.reserve_price {
        auction.on_market_announced = true;
        auction.bid_increment = ON_MARKET_INCREMENT;
    }
}

/// The on-market call is made once: a room already on the market keeps its
/// step, and a room at or above reserve is on the market after any bid.
pub proof fn lemma_market_called_once(auction: Auction)
    ensures
        market_called(market_called(auction)) == market_called(auction),
        auction.on_market_announced ==> market_called(auction) == auction,
        auction.current_bid >= auction.reserve_price ==> market_called(
            auction,
        ).on_market_announced,
        market_called(auction).current_bid == auction.current_bid,
{
}

/// A late bid always buys the room more than six seconds, so the urgent
/// "going once / going twice" clock disappears again.
pub proof fn lemma_late_bid_hides_urgent_clock(auction: Auction, has_bid: bool)
    requires
        auction.remaining_ms < 8_000,
    ensures
        crate::ui::auction_view::phase_for(clock_after_late_bid(auction).1, has_bid) !is Once,
        crate::ui::auction_view::phase_for(clock_after_late_bid(auction).1, has_bid) !is Twice,
{
}

/// The room once the player's paddle has taken `bid`: the player leads, the
/// silence since the last bid and the last room read are cleared, and the
/// player's bid is counted.
pub open spec fn player_raised(auction: Auction, bid: int) -> Auction {
    Auction {
        current_bid: bid as i64,
        since_bid_ms: 0,
        last_room_read: None,
        last_bidder: Some(BidderActor::Player),
        player_bid_count: (auction.player_bid_count + 1) as u8,
        ..auction
    }
}

/// The room once the player's jump has taken `bid`: as after a bid, with the
/// jump spent.
pub open spec fn player_jumped(auction: Auction, bid: int) -> Auction {
    Auction { jump_bid_available: false, ..player_raised(auction, bid) }
}

/// The log line of a player's bid, which flags a bid above the walk-away.
pub open spec fn player_bid_line(bid: int, walkaway: int) -> Seq<char> {
    if bid > walkaway {
        "You bid "@ + money_text(bid) + ". That is above your walk-away reminder."@
    } else {
        "You bid "@ + money_text(bid) + "."@
    }
}

/// Whether the player can still act in the room.
pub open spec fn player_can_bid(auction: Auction) -> bool {
    auction.status.is_none() && auction.is_player_active
}

/// The player's bid at the asking price as `place_player_bid` takes it.
pub open spec fn player_bid_taken(before: Auction, after: Auction) -> bool {
    &&& !player_can_bid(before) ==> after == before
    &&& player_can_bid(before) ==> {
        let bid = before.current_bid + before.bid_increment;
        exists|mid: Auction|
            #[trigger] reopened(player_raised(before, bid), mid) && logged(
                market_called(mid),
                after,
                player_bid_line(bid, before.player_walkaway_price as int),
            )
    }
}

/// The player raises the paddle at the asking price (one step above the
/// current bid): the player leads, a late bid reopens the calls, and the bid
/// is logged, flagged when it is above the walk-away; a bid that reaches
/// reserve has the home called on the market (see `market_called`). Once the
/// room is finished or the player has stopped, nothing changes. The room's
/// temperature is left as it was.
pub fn place_player_bid(auction: &mut Auction)
    requires
        old(auction).wf(),
        player_can_bid(*old(auction)) ==> {
            &&& old(auction).current_bid + old(auction).bid_increment <= i64::MAX
            &&& old(auction).player_bid_count < u8::MAX
            &&& old(auction).remaining_ms < 8_000 ==> old(auction).overtime_count < u8::MAX
        },
    ensures
        final(auction).wf(),
        player_bid_taken(*old(auction), *final(auction)),
{
    if !auction.is_running() || !auction.is_player_active {
        return;
    }
    let next_bid = auction.next_bid();
    auction.current_bid = next_bid;
    auction.since_bid_ms = 0;
    auction.last_room_read = None;
    auction.last_bidder = Some(BidderActor::Player);
    auction.player_bid_count = auction.player_bid_count + 1;
    extend_if_needed(auction);
    let mut text = String::from_str("You bid ");
    let money = format_money(next_bid);
    text.append(money.as_str());
    if next_bid > auction.player_walkaway_price {
        text.append(". That is above your walk-away reminder.");
    } else {
        text.append(".");
    }
    announce_on_market(auction);
    push_log(auction, text);
}

/// Reopening the calls touches only the overtime count, the clock and the log.
pub proof fn lemma_reopening_touches_only_the_clock(before: Auction, after: Auction)
    requires
        reopened(before, after),
    ensures
        after == (Auction {
            overtime_count: after.overtime_count,
            remaining_ms: after.remaining_ms,
            log: after.log,
            ..before
        }),
{
}

/// A player's bid puts the player in the lead at the asking price, counts the
/// bid, and makes the last room read stale; the rivals and the outcome are
/// untouched.
pub proof fn lemma_player_bid_leads(before: Auction, after: Auction)
    requires
        player_bid_taken(before, after),
        player_can_bid(before),
        i64::MIN <= before.current_bid + before.bid_increment <= i64::MAX,
        before.player_bid_count < u8::MAX,
    ensures
        after.current_bid == before.current_bid + before.bid_increment,
        after.last_bidder == Some(BidderActor::Player),
        after.last_room_read is None,
        after.player_bid_count == before.player_bid_count + 1,
        after.bidders == before.bidders,
        after.status == before.status,
        after.jump_bid_available == before.jump_bid_available,
{
    let bid = before.current_bid + before.bid_increment;
    let mid = choose|mid: Auction|
        #[trigger] reopened(player_raised(before, bid), mid) && logged(
            market_called(mid),
            after,
            player_bid_line(bid, before.player_walkaway_price as int),
        );
    lemma_reopening_touches_only_the_clock(player_raised(before, bid), mid);
}

/// Whether the jump's effect on `bidder` stays within the machine's numbers.
pub open spec fn jump_fits(bidder: Bidder, step: int) -> bool {
    bidder.active ==> match bidder.bidder_type {
        BidderType::Investor | BidderType::BargainHunter => {
            &&& bidder.max_price - step >= i64::MIN
            &&& bidder.reaction_timer_ms + 1_400 <= i64::MAX
        },
        BidderType::FirstHomeBuyer | BidderType::EgoBidder => bidder.max_price + step
            <= i64::MAX,
        BidderType::Renovator => bidder.reaction_timer_ms + 800 <= i64::MAX,
        BidderType::Developer => true,
    }
}

/// How a rival takes the player's jump of `step` above the asking price.
/// Investors and bargain hunters recalculate: their ceiling drops a step, they
/// slow by 1.4 s, cool by 18 (not below 10) and hesitate. First-home buyers and
/// ego bidders take it personally: their ceiling rises a step, they react
/// within 0.7 s, heat by 18 (up to 100) and stretch. Renovators recheck the
/// repairs: 0.8 s slower and 10 cooler (not below 15). Developers react within
/// 1 s. Each gets a new tell; rivals already out are untouched.
pub open spec fn jump_reaction(before: Bidder, after: Bidder, step: int) -> bool {
    if !before.active {
        after == before
    } else {
        match before.bidder_type {
            BidderType::Investor | BidderType::BargainHunter => {
                &&& after == (Bidder {
                    max_price: (before.max_price - step) as i64,
                    reaction_timer_ms: (before.reaction_timer_ms + 1_400) as i64,
                    heat: if before.heat - 18 >= 10 {
                        (before.heat - 18) as i32
                    } else {
                        10
                    },
                    mood: BidderMood::Hesitating,
                    tell: after.tell,
                    ..before
                })
                &&& after.tell@ == "The sudden jump forces a fresh calculation."@
            },
            BidderType::FirstHomeBuyer | BidderType::EgoBidder => {
                &&& after == (Bidder {
                    max_price: (before.max_price + step) as i64,
                    reaction_timer_ms: if before.reaction_timer_ms < 700 {
                        before.reaction_timer_ms
                    } else {
                        700
                    },
                    heat: if before.heat + 18 <= 100 {
                        (before.heat + 18) as i32
                    } else {
                        100
                    },
                    mood: BidderMood::Stretching,
                    tell: after.tell,
                    ..before
                })
                &&& after.tell@ == "The jump feels like a challenge."@
            },
            BidderType::Renovator => {
                &&& after == (Bidder {
                    reaction_timer_ms: (before.reaction_timer_ms + 800) as i64,
                    heat: if before.heat - 10 >= 15 {
                        (before.heat - 10) as i32
                    } else {
                        15
                    },
                    tell: after.tell,
                    ..before
                })
                &&& after.tell@ == "Rechecks the repair margin after your jump."@
            },
            BidderType::Developer => {
                &&& after == (Bidder {
                    reaction_timer_ms: if before.reaction_timer_ms < 1_000 {
                        before.reaction_timer_ms
                    } else {
                        1_000
                    },
                    tell: after.tell,
                    ..before
                })
                &&& after.tell@ == "Ignores the theatre and checks the land value."@
            },
        }
    }
}

/// A rival that the jump rattles: an active investor, bargain hunter or
/// renovator.
pub open spec fn rattled_by_jump(bidder: Bidder) -> bool {
    bidder.active && (bidder.bidder_type == BidderType::Investor || bidder.bidder_type
        == BidderType::BargainHunter || bidder.bidder_type == BidderType::Renovator)
}

/// A rival that the jump provokes: an active first-home buyer or ego bidder.
pub open spec fn provoked_by_jump(bidder: Bidder) -> bool {
    bidder.active && (bidder.bidder_type == BidderType::FirstHomeBuyer || bidder.bidder_type
        == BidderType::EgoBidder)
}

/// Whether any of the first `n` rivals is rattled by the jump.
pub open spec fn any_rattled(bidders: Seq<Bidder>, n: int) -> bool
    decreases n,
{
    n > 0 && (rattled_by_jump(bidders[n - 1]) || any_rattled(bidders, n - 1))
}

/// Whether any of the first `n` rivals is provoked by the jump.
pub open spec fn any_provoked(bidders: Seq<Bidder>, n: int) -> bool
    decreases n,
{
    n > 0 && (provoked_by_jump(bidders[n - 1]) || any_provoked(bidders, n - 1))
}

/// How the room as a whole takes the jump.
pub open spec fn jump_effect(bidders: Seq<Bidder>) -> Seq<char> {
    let rattled = any_rattled(bidders, bidders.len() as int);
    let provoked = any_provoked(bidders, bidders.len() as int);
    if !rattled && !provoked {
        "The room barely reacts."@
    } else if !provoked {
        "The jump rattles the room."@
    } else if !rattled {
        "The jump provokes the emotional bidders."@
    } else {
        "Some bidders recoil; emotional buyers take it personally."@
    }
}

/// The jump is once per room: after a jump, a second jump changes nothing and
/// says that the jump is no longer available.
pub proof fn lemma_jump_is_once_per_room(
    before: Auction,
    after: Auction,
    message: Seq<char>,
    again: Auction,
    second: Seq<char>,
)
    requires
        jump_taken(before, after, message),
        jump_taken(after, again, second),
    ensures
        again == after,
        second == "The assertive jump is no longer available."@,
{
    if player_can_bid(before) && before.jump_bid_available {
        let bid = before.current_bid + 2 * before.bid_increment;
        let mid = choose|mid: Auction|
            #[trigger] reopened(player_jumped(before, bid), mid) && logged(
                Auction { bidders: after.bidders, ..market_called(mid) },
                after,
                message,
            );
        lemma_reopening_touches_only_the_clock(player_jumped(before, bid), mid);
        assert(!after.jump_bid_available);
    }
}

/// What the jump of `step` must do to one rival: an active first-home buyer
/// or ego bidder raises its ceiling by one step, stretches and runs hotter (up
/// to 100); an active investor or bargain hunter lowers its ceiling by one
/// step, hesitates and cools (not below 10); renovators, developers and
/// rivals already out keep their ceilings; a rival already out is untouched;
/// nobody leaves, joins or changes name.
pub open spec fn ceiling_moved(old_rival: Bidder, new_rival: Bidder, step: int) -> bool {
    let kind = old_rival.bidder_type;
    &&& new_rival.active == old_rival.active
    &&& new_rival.name == old_rival.name
    &&& old_rival.active && (kind == BidderType::FirstHomeBuyer || kind == BidderType::EgoBidder)
        ==> {
        &&& new_rival.max_price == old_rival.max_price + step
        &&& new_rival.mood == BidderMood::Stretching
        &&& new_rival.heat == if old_rival.heat + 18 <= 100 {
            old_rival.heat + 18
        } else {
            100
        }
    }
    &&& old_rival.active && (kind == BidderType::Investor || kind == BidderType::BargainHunter)
        ==> {
        &&& new_rival.max_price == old_rival.max_price - step
        &&& new_rival.mood == BidderMood::Hesitating
        &&& new_rival.heat == if old_rival.heat - 18 >= 10 {
            old_rival.heat - 18
        } else {
            10
        }
    }
    &&& !old_rival.active || kind == BidderType::Renovator || kind == BidderType::Developer
        ==> new_rival.max_price == old_rival.max_price
    &&& !old_rival.active ==> new_rival == old_rival
}

/// One rival's reaction to the jump moves its ceiling as `ceiling_moved` says.
proof fn lemma_reaction_moves_ceiling(old_rival: Bidder, new_rival: Bidder, step: int)
    requires
        jump_reaction(old_rival, new_rival, step),
        jump_fits(old_rival, step),
        step > 0,
    ensures
        ceiling_moved(old_rival, new_rival, step),
{
}

/// How the jump moves the room: for a jump that fits the machine's numbers
/// (as `place_player_jump_bid` requires), the paddle stands two steps above
/// the old bid, the jump is spent, and every rival's ceiling and temper move
/// as `ceiling_moved` says for one bid step.
pub proof fn lemma_jump_moves_ceilings(before: Auction, after: Auction, message: Seq<char>)
    requires
        before.wf(),
        jump_taken(before, after, message),
        player_can_bid(before),
        before.jump_bid_available,
        before.current_bid + 2 * before.bid_increment <= i64::MAX,
        before.current_bid + 2 * before.bid_increment >= i64::MIN,
        forall|i: int|
            0 <= i < before.bidders@.len() ==> jump_fits(
                #[trigger] before.bidders@[i],
                before.bid_increment as int,
            ),
    ensures
        after.current_bid == before.current_bid + 2 * before.bid_increment,
        after.last_bidder == Some(BidderActor::Player),
        !after.jump_bid_available,
        after.bidders@.len() == before.bidders@.len(),
        forall|i: int|
            0 <= i < before.bidders@.len() ==> ceiling_moved(
                #[trigger] before.bidders@[i],
                after.bidders@[i],
                before.bid_increment as int,
            ),
{
    let bid = before.current_bid + 2 * before.bid_increment;
    let mid = choose|mid: Auction|
        #[trigger] reopened(player_jumped(before, bid), mid) && logged(
            Auction { bidders: after.bidders, ..market_called(mid) },
            after,
            message,
        );
    lemma_reopening_touches_only_the_clock(player_jumped(before, bid), mid);
    assert forall|i: int| 0 <= i < before.bidders@.len() implies ceiling_moved(
        #[trigger] before.bidders@[i],
        after.bidders@[i],
        before.bid_increment as int,
    ) by {
        lemma_reaction_moves_ceiling(
            before.bidders@[i],
            after.bidders@[i],
            before.bid_increment as int,
        );
    }
}

/// Discipline is credited only when a rival bought the home after the player
/// stopped, above the player's walk-away: a room that passed in, was bought
/// by the player or is still running earns nothing, nor does one the player
/// never left, nor one a rival bought at or below the walk-away. Any room a
/// rival bought above the walk-away after the player stopped earns it.
pub proof fn lemma_discipline_needs_a_rival_sale(auction: Auction)
    ensures
        disciplined_exit(auction) ==> auction.status matches Some(AuctionStatus::SoldToNpc(_)),
        auction.status is None ==> !disciplined_exit(auction),
        auction.status == Some(AuctionStatus::PassedIn) ==> !disciplined_exit(auction),
        auction.status == Some(AuctionStatus::SoldToPlayer) ==> !disciplined_exit(auction),
        auction.player_exit_bid is None ==> !disciplined_exit(auction),
        auction.current_bid <= auction.player_walkaway_price ==> !disciplined_exit(auction),
        (auction.status matches Some(AuctionStatus::SoldToNpc(_)))
            && auction.player_exit_bid is Some && auction.current_bid
            > auction.player_walkaway_price ==> disciplined_exit(auction),
{
}

/// One rival takes the jump of `step` (see `jump_reaction`); returns whether
/// it was rattled and whether it was provoked.
fn react_to_jump(bidder: &mut Bidder, step: i64) -> (reaction: (bool, bool))
    requires
        step > 0,
        jump_fits(*old(bidder), step as int),
    ensures
        jump_reaction(*old(bidder), *final(bidder), step as int),
        reaction.0 == rattled_by_jump(*old(bidder)),
        reaction.1 == provoked_by_jump(*old(bidder)),
{
    if !bidder.active {
        return (false, false);
    }
    match bidder.bidder_type {
        BidderType::Investor | BidderType::BargainHunter => {
            bidder.max_price = bidder.max_price - step;
            bidder.reaction_timer_ms = bidder.reaction_timer_ms + 1_400;
            let cooled: i64 = bidder.heat as i64 - 18;
            bidder.heat = if cooled >= 10 {
                cooled as i32
            } else {
                10
            };
            bidder.mood = BidderMood::Hesitating;
            bidder.tell = String::from_str("The sudden jump forces a fresh calculation.");
            (true, false)
        },
        BidderType::FirstHomeBuyer | BidderType::EgoBidder => {
            bidder.max_price = bidder.max_price + step;
            if bidder.reaction_timer_ms > 700 {
                bidder.reaction_timer_ms = 700;
            }
            let heated: i64 = bidder.heat as i64 + 18;
            bidder.heat = if heated <= 100 {
                heated as i32
            } else {
                100
            };
            bidder.mood = BidderMood::Stretching;
            bidder.tell = String::from_str("The jump feels like a challenge.");
            (false, true)
        },
        BidderType::Renovator => {
            bidder.reaction_timer_ms = bidder.reaction_timer_ms + 800;
            let cooled: i64 = bidder.heat as i64 - 10;
            bidder.heat = if cooled >= 15 {
                cooled as i32
            } else {
                15
            };
            bidder.tell = String::from_str("Rechecks the repair margin after your jump.");
            (true, false)
        },
        BidderType::Developer => {
            if bidder.reaction_timer_ms > 1_000 {
                bidder.reaction_timer_ms = 1_000;
            }
            bidder.tell = String::from_str("Ignores the theatre and checks the land value.");
            (false, false)
        },
    }
}

/// The player's jump as `place_player_jump_bid` takes it, with the message
/// it returns.
pub open spec fn jump_taken(before: Auction, after: Auction, message: Seq<char>) -> bool {
    &&& !(player_can_bid(before) && before.jump_bid_available) ==> {
        &&& after == before
        &&& message == "The assertive jump is no longer available."@
    }
    &&& player_can_bid(before) && before.jump_bid_available ==> {
        let bid = before.current_bid + 2 * before.bid_increment;
        &&& message == "You assert "@ + money_text(bid) + ". "@ + jump_effect(
            before.bidders@,
        )
        &&& after.bidders@.len() == before.bidders@.len()
        &&& forall|i: int|
            0 <= i < before.bidders@.len() ==> jump_reaction(
                before.bidders@[i],
                #[trigger] after.bidders@[i],
                before.bid_increment as int,
            )
        &&& exists|mid: Auction|
            #[trigger] reopened(player_jumped(before, bid), mid) && logged(
                Auction { bidders: after.bidders, ..market_called(mid) },
                after,
                message,
            )
    }
}

/// The player's once-per-room assertive jump: the paddle takes two steps above
/// the current bid, the jump is spent, a late bid reopens the calls, every
/// active rival reacts by its type (see `jump_reaction`), and the message
/// "You assert $X. <effect>" is logged and returned; a jump that reaches
/// reserve has the home called on the market. When the room is
/// finished, the player has stopped or the jump is spent, nothing changes and
/// the message says the jump is no longer available. The room's temperature
/// is left as it was.
pub fn place_player_jump_bid(auction: &mut Auction) -> (message: String)
    requires
        old(auction).wf(),
        player_can_bid(*old(auction)) && old(auction).jump_bid_available ==> {
            &&& 2 * old(auction).bid_increment <= i64::MAX
            &&& old(auction).current_bid + 2 * old(auction).bid_increment <= i64::MAX
            &&& old(auction).player_bid_count < u8::MAX
            &&& old(auction).remaining_ms < 8_000 ==> old(auction).overtime_count < u8::MAX
            &&& forall|i: int|
                0 <= i < old(auction).bidders@.len() ==> jump_fits(
                    #[trigger] old(auction).bidders@[i],
                    old(auction).bid_increment as int,
                )
        },
    ensures
        final(auction).wf(),
        jump_taken(*old(auction), *final(auction), message@),
{
    if !auction.is_running() || !auction.is_player_active || !auction.jump_bid_available {
        return String::from_str("The assertive jump is no longer available.");
    }
    let jump_bid = auction.jump_bid();
    auction.current_bid = jump_bid;
    auction.since_bid_ms = 0;
    auction.last_room_read = None;
    auction.last_bidder = Some(BidderActor::Player);
    auction.jump_bid_available = false;
    auction.player_bid_count = auction.player_bid_count + 1;
    extend_if_needed(auction);
    let ghost mid = *auction;
    let step = auction.bid_increment;
    let mut rattled = false;
    let mut provoked = false;
    let mut i: usize = 0;
    while i < auction.bidders.len()
        invariant
            i <= auction.bidders@.len(),
            auction.bidders@.len() == mid.bidders@.len(),
            step == mid.bid_increment,
            step > 0,
            *auction == (Auction { bidders: auction.bidders, ..mid }),
            forall|k: int|
                0 <= k < mid.bidders@.len() ==> jump_fits(#[trigger] mid.bidders@[k], step as int),
            forall|k: int|
                0 <= k < i ==> jump_reaction(
                    mid.bidders@[k],
                    #[trigger] auction.bidders@[k],
                    step as int,
                ),
            forall|k: int|
                i <= k < auction.bidders@.len() ==> #[trigger] auction.bidders@[k]
                    == mid.bidders@[k],
            rattled == any_rattled(mid.bidders@, i as int),
            provoked == any_provoked(mid.bidders@, i as int),
        decreases auction.bidders@.len() - i,
    {
        let (was_rattled, was_provoked) = react_to_jump(&mut auction.bidders[i], step);
        rattled = rattled || was_rattled;
        provoked = provoked || was_provoked;
        i += 1;
    }
    let effect: &str = if !rattled && !provoked {
        "The room barely reacts."
    } else if !provoked {
        "The jump rattles the room."
    } else if !rattled {
        "The jump provokes the emotional bidders."
    } else {
        "Some bidders recoil; emotional buyers take it personally."
    };
    let mut message = String::from_str("You assert ");
    let money = format_money(jump_bid);
    message.append(money.as_str());
    message.append(". ");
    message.append(effect);
    announce_on_market(auction);
    push_log(auction, message.clone());
    message
}

/// A rival's bid as the room's bidding model decides it: which rival bids,
/// the amount, the tell the rival shows with it, and how long (in
/// milliseconds) until it may react again.
#[derive(Clone, Debug)]
pub struct RivalBid {
    pub index: usize,
    pub amount: i64,
    pub tell: String,
    pub reaction_ms: i64,
}

/// Whether `bid` is a stretch: above the rival's own ceiling.
pub open spec fn is_stretch(auction: Auction, bid: RivalBid) -> bool {
    bid.amount > auction.bidders@[bid.index as int].max_price
}

/// The rival after placing `bid`: no longer preparing, its paddle flashing for
/// 1.1 s, one more bid counted, 12 hotter (up to 100), stretching when the bid
/// is above its ceiling (which spends its stretch) and interested otherwise,
/// showing the bid's tell and waiting the bid's reaction time.
pub open spec fn bid_placed(before: Bidder, after: Bidder, bid: RivalBid) -> bool {
    after == bidder_after_bid(before, bid)
}

/// The rival once it has placed `bid` (see `bid_placed`).
pub open spec fn bidder_after_bid(before: Bidder, bid: RivalBid) -> Bidder {
    let stretch = bid.amount > before.max_price;
    Bidder {
        preparing_bid: false,
        bid_flash_ms: 1_100,
        bid_count: (before.bid_count + 1) as u8,
        heat: if before.heat + 12 <= 100 {
            (before.heat + 12) as i32
        } else {
            100
        },
        stretch_bid_used: if stretch {
            true
        } else {
            before.stretch_bid_used
        },
        mood: if stretch {
            BidderMood::Stretching
        } else {
            BidderMood::Interested
        },
        tell: bid.tell,
        reaction_timer_ms: bid.reaction_ms,
        ..before
    }
}

/// The room once a rival's bid is taken, before the clock is checked.
pub open spec fn rival_raised(auction: Auction, bid: RivalBid) -> Auction {
    Auction {
        current_bid: bid.amount,
        since_bid_ms: 0,
        last_room_read: None,
        last_bidder: Some(BidderActor::Npc(bid.index)),
        ..auction
    }
}

/// The rival's own side of placing `bid` (see `bid_placed`).
fn take_bid(bidder: &mut Bidder, bid: &RivalBid)
    requires
        old(bidder).bid_count < u8::MAX,
    ensures
        bid_placed(*old(bidder), *final(bidder), *bid),
{
    let was_stretch = bid.amount > bidder.max_price;
    bidder.preparing_bid = false;
    bidder.bid_flash_ms = 1_100;
    bidder.bid_count = bidder.bid_count + 1;
    let heated: i64 = bidder.heat as i64 + 12;
    bidder.heat = if heated <= 100 {
        heated as i32
    } else {
        100
    };
    if was_stretch {
        bidder.stretch_bid_used = true;
        bidder.mood = BidderMood::Stretching;
    } else {
        bidder.mood = BidderMood::Interested;
    }
    bidder.tell = bid.tell.clone();
    bidder.reaction_timer_ms = bid.reaction_ms;
}

/// The log line of a rival's bid: "<name> stretches to $X." for a stretch,
/// "jumps to" for a bid more than a step above the last, "bids" otherwise.
pub open spec fn rival_bid_line(auction: Auction, bid: RivalBid) -> Seq<char> {
    let name = auction.bidders@[bid.index as int].name@;
    let action = if is_stretch(auction, bid) {
        " stretches to "@
    } else if bid.amount - auction.current_bid > auction.bid_increment {
        " jumps to "@
    } else {
        " bids "@
    };
    name + action + money_text(bid.amount as int) + "."@
}

/// A rival's bid `bid` as `place_npc_bid` takes it.
pub open spec fn npc_bid_taken(before: Auction, after: Auction, bid: RivalBid) -> bool {
    &&& after.bidders@.len() == before.bidders@.len()
    &&& bid_placed(
        before.bidders@[bid.index as int],
        after.bidders@[bid.index as int],
        bid,
    )
    &&& forall|i: int|
        0 <= i < before.bidders@.len() && i != bid.index
            ==> #[trigger] after.bidders@[i] == before.bidders@[i]
    &&& exists|mid: Auction|
        #[trigger] reopened(rival_raised(before, bid), mid) && logged(
            Auction { bidders: after.bidders, ..market_called(mid) },
            after,
            rival_bid_line(before, bid),
        )
}

/// A rival places the bid its model decided: it leads at the bid's amount,
/// its own state changes as `bid_placed` says, a late bid reopens the calls,
/// and the bid is logged; a bid that reaches reserve has the home called on
/// the market. The room's temperature is left as it was.
#[verifier::spinoff_prover]
#[verifier::rlimit(40)]
pub fn place_npc_bid(auction: &mut Auction, bid: &RivalBid)
    requires
        old(auction).wf(),
        bid.index < old(auction).bidders@.len(),
        old(auction).bidders@[bid.index as int].bid_count < u8::MAX,
        old(auction).remaining_ms < 8_000 ==> old(auction).overtime_count < u8::MAX,
    ensures
        final(auction).wf(),
        npc_bid_taken(*old(auction), *final(auction), *bid),
{
    let index = bid.index;
    let previous_bid = auction.current_bid;
    let was_stretch = bid.amount > auction.bidders[index].max_price;
    auction.current_bid = bid.amount;
    auction.since_bid_ms = 0;
    auction.last_room_read = None;
    auction.last_bidder = Some(BidderActor::Npc(index));
    extend_if_needed(auction);
    take_bid(&mut auction.bidders[index], bid);
    let name = auction.bidders[index].name.clone();
    let mut text = String::from_str(name.as_str());
    if was_stretch {
        text.append(" stretches to ");
    } else if bid.amount as i128 - previous_bid as i128 > auction.bid_increment as i128 {
        text.append(" jumps to ");
    } else {
        text.append(" bids ");
    }
    let money = format_money(bid.amount);
    text.append(money.as_str());
    text.append(".");
    announce_on_market(auction);
    push_log(auction, text);
}

/// The bids of a quick resolution that are actually placed: at most twelve.
pub open spec fn resolving_bids(bids: Seq<RivalBid>) -> int {
    if bids.len() < 12 {
        bids.len() as int
    } else {
        12
    }
}

/// Rival `i` after the first `n` of `bids`: each bid of this rival, in order,
/// as `bid_placed` says.
pub open spec fn rival_after_bids(rival: Bidder, i: int, bids: Seq<RivalBid>, n: int) -> Bidder
    decreases n,
{
    if n <= 0 {
        rival
    } else {
        let earlier = rival_after_bids(rival, i, bids, n - 1);
        if bids[n - 1].index == i {
            bidder_after_bid(earlier, bids[n - 1])
        } else {
            earlier
        }
    }
}

/// Bidding never changes a rival's name or own ceiling, and each bid counts
/// once: after `n` bids of a quick resolution a rival has counted at most `n`
/// more.
pub proof fn lemma_rival_after_bids_keeps(rival: Bidder, i: int, bids: Seq<RivalBid>, n: int)
    requires
        0 <= n,
        rival.bid_count + n <= u8::MAX,
    ensures
        rival_after_bids(rival, i, bids, n).name == rival.name,
        rival_after_bids(rival, i, bids, n).max_price == rival.max_price,
        rival_after_bids(rival, i, bids, n).bid_count <= rival.bid_count + n,
    decreases n,
{
    if n > 0 {
        lemma_rival_after_bids_keeps(rival, i, bids, n - 1);
    }
}

/// The price the `k`-th bid of a quick resolution answers.
pub open spec fn answered_price(before: Auction, bids: Seq<RivalBid>, k: int) -> int {
    if k == 0 {
        before.current_bid as int
    } else {
        bids[k - 1].amount as int
    }
}

/// Whether the home is on the market after the first `k` bids of a quick
/// resolution: it was already, or one of those bids reached reserve.
pub open spec fn market_after(before: Auction, bids: Seq<RivalBid>, k: int) -> bool
    decreases k,
{
    if k <= 0 {
        before.on_market_announced
    } else {
        market_after(before, bids, k - 1) || bids[k - 1].amount >= before.reserve_price
    }
}

/// The bid step after the first `k` bids of a quick resolution: $5,000 from
/// the bid that called the home on the market, the room's own step before.
pub open spec fn step_after(before: Auction, bids: Seq<RivalBid>, k: int) -> i64
    decreases k,
{
    if k <= 0 {
        before.bid_increment
    } else if !market_after(before, bids, k - 1) && bids[k - 1].amount >= before.reserve_price {
        ON_MARKET_INCREMENT
    } else {
        step_after(before, bids, k - 1)
    }
}

/// The log line of the `k`-th bid of a quick resolution (see
/// `rival_bid_line`).
pub open spec fn resolution_line(before: Auction, bids: Seq<RivalBid>, k: int) -> Seq<char> {
    let bid = bids[k];
    let rival = before.bidders@[bid.index as int];
    rival.name@ + (if bid.amount > rival.max_price {
        " stretches to "@
    } else if bid.amount - answered_price(before, bids, k) > step_after(before, bids, k) {
        " jumps to "@
    } else {
        " bids "@
    }) + money_text(bid.amount as int) + "."@
}

/// The log lines of the first `n` bids of a quick resolution.
pub open spec fn resolution_lines(before: Auction, bids: Seq<RivalBid>, n: int) -> Seq<Seq<char>> {
    Seq::new(n as nat, |k: int| resolution_line(before, bids, k))
}

/// The texts of a log.
pub open spec fn log_texts(log: Seq<BidLog>) -> Seq<Seq<char>> {
    Seq::new(log.len(), |i: int| log[i].text@)
}

/// The last twelve lines, as the log keeps them.
pub open spec fn trimmed(lines: Seq<Seq<char>>) -> Seq<Seq<char>> {
    if lines.len() > MAX_LOG_ENTRIES {
        lines.subrange(lines.len() - MAX_LOG_ENTRIES, lines.len() as int)
    } else {
        lines
    }
}

/// Logging a line keeps the last twelve lines of everything said.
proof fn lemma_logged_texts(old: Auction, new: Auction, text: Seq<char>, said: Seq<Seq<char>>)
    requires
        logged(old, new, text),
        old.log@.len() <= MAX_LOG_ENTRIES,
        log_texts(old.log@) == trimmed(said),
    ensures
        log_texts(new.log@) == trimmed(said.push(text)),
{
    let before = log_texts(old.log@);
    let after = log_texts(new.log@);
    let kept = if old.log@.len() >= MAX_LOG_ENTRIES {
        old.log@.drop_first()
    } else {
        old.log@
    };
    assert(new.log@.drop_last() == kept);
    assert forall|j: int| 0 <= j < new.log@.len() - 1 implies new.log@[j] == kept[j] by {
        assert(new.log@.drop_last()[j] == new.log@[j]);
    }
    assert(before.len() == old.log@.len());
    assert(after.len() == new.log@.len());
    assert(after[after.len() - 1] == text);
    let target = trimmed(said.push(text));
    if said.len() > MAX_LOG_ENTRIES {
        assert(before.len() == MAX_LOG_ENTRIES);
    }
    if old.log@.len() >= MAX_LOG_ENTRIES {
        assert(old.log@.len() == MAX_LOG_ENTRIES);
        assert(said.len() >= MAX_LOG_ENTRIES);
        assert(target.len() == MAX_LOG_ENTRIES);
        assert(after.len() == MAX_LOG_ENTRIES);
        assert forall|j: int| 0 <= j < MAX_LOG_ENTRIES - 1 implies after[j] == target[j] by {
            assert(new.log@.drop_last()[j] == new.log@[j]);
            assert(kept == old.log@.drop_first());
            assert(old.log@.drop_first()[j] == old.log@[j + 1]);
            assert(new.log@[j] == old.log@[j + 1]);
            assert(before[j + 1] == trimmed(said)[j + 1]);
            if said.len() > MAX_LOG_ENTRIES {
                assert(trimmed(said)[j + 1] == said[said.len() - MAX_LOG_ENTRIES + j + 1]);
            }
        }
        assert(after =~= target);
    } else {
        assert(said.len() < MAX_LOG_ENTRIES);
        assert(before =~= said);
        assert forall|j: int| 0 <= j < after.len() - 1 implies after[j] == target[j] by {
            assert(new.log@.drop_last()[j] == new.log@[j]);
            assert(new.log@[j] == old.log@[j]);
        }
        assert(after =~= target);
    }
}

/// The quick resolution of a room by the rivals' `bids`, as
/// `quick_resolve_auction` performs it: the first twelve bids are placed in
/// order, each on its rival as `bid_placed` says and logged as
/// `resolution_line` says (the clock is kept at 10 s or more, so no bid
/// reopens the calls), the first bid at reserve calling the home on the
/// market (see `market_after` and `step_after`); the clock runs out, the room is at its final call, and
/// the hammer falls on the last bid. The log keeps its last twelve lines.
pub open spec fn room_resolved(before: Auction, after: Auction, bids: Seq<RivalBid>) -> bool {
    if !(before.status.is_none() && !before.is_player_active) {
        after == before
    } else {
        let n = resolving_bids(bids);
        let last_bid = answered_price(before, bids, n);
        let leader = if n == 0 {
            before.last_bidder
        } else {
            Some(BidderActor::Npc(bids[n - 1].index))
        };
        let hammer = Auction { current_bid: last_bid as i64, last_bidder: leader, ..before };
        &&& after == (Auction {
            current_bid: last_bid as i64,
            last_bidder: leader,
            since_bid_ms: if n == 0 {
                before.since_bid_ms
            } else {
                0
            },
            last_room_read: if n == 0 {
                before.last_room_read
            } else {
                None
            },
            remaining_ms: 0,
            temperature: AuctionTemperature::FinalCall,
            on_market_announced: market_after(before, bids, n),
            bid_increment: step_after(before, bids, n),
            status: Some(hammer_status(hammer)),
            bidders: after.bidders,
            log: after.log,
            ..before
        })
        &&& after.bidders@.len() == before.bidders@.len()
        &&& forall|i: int|
            0 <= i < before.bidders@.len() ==> #[trigger] after.bidders@[i] == rival_after_bids(
                before.bidders@[i],
                i,
                bids,
                n,
            )
        &&& log_texts(after.log@) == trimmed(
            log_texts(before.log@).push(
                "You stay out. The remaining bidders resolve the room quickly."@,
            ) + resolution_lines(before, bids, n) + seq![hammer_line(hammer)],
        )
    }
}

/// The player, already out, lets the rivals settle the room at once: after a
/// line saying so, up to twelve rival bids decided by the room's bidding model
/// (`bids`, in order, each above the price it answers) are placed with at
/// least 10 s on the clock, then the clock runs out, the room is at its final
/// call and the hammer falls on the last bid. A finished room, or one the
/// player is still in, is left as it is.
#[verifier::rlimit(60)]
pub fn quick_resolve_auction(auction: &mut Auction, bids: &Vec<RivalBid>)
    requires
        old(auction).wf(),
        forall|k: int|
            0 <= k < bids@.len() ==> #[trigger] bids@[k].index < old(auction).bidders@.len(),
        forall|i: int|
            0 <= i < old(auction).bidders@.len() ==> #[trigger] old(auction).bidders@[i].bid_count
                <= u8::MAX - 12,
        forall|k: int|
            0 <= k < resolving_bids(bids@) ==> #[trigger] bids@[k].amount > answered_price(
                *old(auction),
                bids@,
                k,
            ),
    ensures
        final(auction).wf(),
        room_resolved(*old(auction), *final(auction), bids@),
        final(auction).current_bid >= old(auction).current_bid,
{
    if !auction.is_running() || auction.is_player_active {
        return;
    }
    let ghost start = *auction;
    let ghost stay = "You stay out. The remaining bidders resolve the room quickly."@;
    let line = String::from_str("You stay out. The remaining bidders resolve the room quickly.");
    assert(line@ == stay);
    push_log(auction, line);
    proof {
        assert(trimmed(log_texts(start.log@)) == log_texts(start.log@));
        lemma_logged_texts(start, *auction, stay, log_texts(start.log@));
        assert(log_texts(start.log@).push(stay) =~= log_texts(start.log@).push(stay)
            + resolution_lines(start, bids@, 0));
    }
    let count: usize = if bids.len() < 12 {
        bids.len()
    } else {
        12
    };
    let mut k: usize = 0;
    while k < count
        invariant
            start == *old(auction),
            count == resolving_bids(bids@),
            count <= bids@.len(),
            k <= count,
            count <= 12,
            auction.wf(),
            *auction == (Auction {
                current_bid: answered_price(start, bids@, k as int) as i64,
                last_bidder: if k == 0 {
                    start.last_bidder
                } else {
                    Some(BidderActor::Npc(bids@[k - 1].index))
                },
                since_bid_ms: if k == 0 {
                    start.since_bid_ms
                } else {
                    0
                },
                last_room_read: if k == 0 {
                    start.last_room_read
                } else {
                    None
                },
                remaining_ms: auction.remaining_ms,
                on_market_announced: market_after(start, bids@, k as int),
                bid_increment: step_after(start, bids@, k as int),
                bidders: auction.bidders,
                log: auction.log,
                ..start
            }),
            auction.bidders@.len() == start.bidders@.len(),
            forall|i: int|
                0 <= i < start.bidders@.len() ==> #[trigger] auction.bidders@[i]
                    == rival_after_bids(start.bidders@[i], i, bids@, k as int),
            log_texts(auction.log@) == trimmed(
                log_texts(start.log@).push(stay) + resolution_lines(start, bids@, k as int),
            ),
            forall|j: int|
                0 <= j < bids@.len() ==> #[trigger] bids@[j].index < start.bidders@.len(),
            forall|i: int|
                0 <= i < start.bidders@.len() ==> #[trigger] start.bidders@[i].bid_count
                    <= u8::MAX - 12,
        decreases count - k,
    {
        if auction.remaining_ms < 10_000 {
            auction.remaining_ms = 10_000;
        }
        let ghost pre = *auction;
        let ghost bid = bids@[k as int];
        let ghost index = bid.index as int;
        proof {
            lemma_rival_after_bids_keeps(start.bidders@[index], index, bids@, k as int);
        }
        place_npc_bid(auction, &bids[k]);
        proof {
            let mid = choose|mid: Auction|
                #[trigger] reopened(rival_raised(pre, bid), mid) && logged(
                    Auction { bidders: auction.bidders, ..market_called(mid) },
                    *auction,
                    rival_bid_line(pre, bid),
                );
            assert(mid == rival_raised(pre, bid));
            assert(rival_bid_line(pre, bid) == resolution_line(start, bids@, k as int));
            assert(market_after(start, bids@, k + 1) == market_called(mid).on_market_announced);
            assert(step_after(start, bids@, k + 1) == market_called(mid).bid_increment);
            let said = log_texts(start.log@).push(stay) + resolution_lines(start, bids@, k as int);
            lemma_logged_texts(
                Auction { bidders: auction.bidders, ..market_called(mid) },
                *auction,
                rival_bid_line(pre, bid),
                said,
            );
            assert(said.push(resolution_line(start, bids@, k as int)) =~= log_texts(
                start.log@,
            ).push(stay) + resolution_lines(start, bids@, k + 1));
            assert forall|i: int| 0 <= i < start.bidders@.len() implies #[trigger] auction.bidders@[i]
                == rival_after_bids(start.bidders@[i], i, bids@, k + 1) by {
                if i != index {
                    assert(auction.bidders@[i] == pre.bidders@[i]);
                }
            }
        }
        k += 1;
    }
    auction.remaining_ms = 0;
    auction.temperature = AuctionTemperature::FinalCall;
    let ghost before_hammer = *auction;
    finish_auction(auction);
    proof {
        let n = resolving_bids(bids@);
        let leader = if n == 0 {
            start.last_bidder
        } else {
            Some(BidderActor::Npc(bids@[n - 1].index))
        };
        let hammer = Auction {
            current_bid: answered_price(start, bids@, n) as i64,
            last_bidder: leader,
            ..start
        };
        if let Some(BidderActor::Npc(idx)) = leader {
            lemma_rival_after_bids_keeps(start.bidders@[idx as int], idx as int, bids@, n);
        }
        assert(hammer_status(before_hammer) == hammer_status(hammer));
        assert(hammer_line(before_hammer) == hammer_line(hammer));
        let said = log_texts(start.log@).push(stay) + resolution_lines(start, bids@, n);
        lemma_logged_texts(
            Auction { status: Some(hammer_status(before_hammer)), ..before_hammer },
            *auction,
            hammer_line(before_hammer),
            said,
        );
        assert(said.push(hammer_line(hammer)) =~= log_texts(start.log@).push(stay)
            + resolution_lines(start, bids@, n) + seq![hammer_line(hammer)]);
        if n > 0 {
            assert(bids@[n - 1].amount > answered_price(start, bids@, n - 1));
        }
    }
}

/// What the auctioneer says at a routine call, given the time left, the
/// reserve, the on-market call, the room's temperature and who leads.
pub open spec fn auctioneer_text(auction: Auction) -> Seq<char> {
    if auction.remaining_ms < 8_000 && auction.overtime_count >= 3 {
        "Last warning. The next silence ends it."@
    } else if auction.remaining_ms < 8_000 {
        "Final call at "@ + money_text(auction.current_bid as int) + ". Any better offer?"@
    } else if auction.remaining_ms < 18_000 {
        "Pressure rises. The next call is "@ + money_text(
            auction.current_bid + auction.bid_increment,
        ) + "."@
    } else if auction.current_bid < auction.reserve_price {
        "Still looking for a bid that meets reserve."@
    } else if auction.on_market_announced {
        "We are selling. The next silence can own the home."@
    } else if auction.temperature == AuctionTemperature::FomoSpiral {
        "The room is chasing the room now, not the house."@
    } else if auction.last_bidder == Some(BidderActor::Player) {
        "You are holding the top bid. Stay disciplined."@
    } else {
        "Auctioneer asks for "@ + money_text(auction.current_bid + auction.bid_increment) + "."@
    }
}

/// The auctioneer's routine call for the room as it stands.
pub fn auctioneer_line(auction: &Auction) -> (line: String)
    requires
        i64::MIN <= auction.current_bid + auction.bid_increment <= i64::MAX,
    ensures
        line@ == auctioneer_text(*auction),
{
    if auction.remaining_ms < 8_000 && auction.overtime_count >= 3 {
        String::from_str("Last warning. The next silence ends it.")
    } else if auction.remaining_ms < 8_000 {
        let mut text = String::from_str("Final call at ");
        let money = format_money(auction.current_bid);
        text.append(money.as_str());
        text.append(". Any better offer?");
        text
    } else if auction.remaining_ms < 18_000 {
        let mut text = String::from_str("Pressure rises. The next call is ");
        let money = format_money(auction.next_bid());
        text.append(money.as_str());
        text.append(".");
        text
    } else if auction.current_bid < auction.reserve_price {
        String::from_str("Still looking for a bid that meets reserve.")
    } else if auction.on_market_announced {
        String::from_str("We are selling. The next silence can own the home.")
    } else if auction.temperature == AuctionTemperature::FomoSpiral {
        String::from_str("The room is chasing the room now, not the house.")
    } else if auction.last_bidder == Some(BidderActor::Player) {
        String::from_str("You are holding the top bid. Stay disciplined.")
    } else {
        let mut text = String::from_str("Auctioneer asks for ");
        let money = format_money(auction.next_bid());
        text.append(money.as_str());
        text.append(".");
        text
    }
}

/// Among the first `n` rivals, the active one with the least headroom between
/// its effective ceiling and the next bid, with that headroom; the earlier
/// rival wins a tie.
pub open spec fn tightest_rival(
    bidders: Seq<Bidder>,
    ceilings: Seq<i64>,
    next_bid: int,
    n: nat,
) -> Option<(int, int)>
    decreases n,
{
    if n == 0 {
        None
    } else {
        let earlier = tightest_rival(bidders, ceilings, next_bid, (n - 1) as nat);
        let i = n - 1;
        if !bidders[i].active {
            earlier
        } else {
            let headroom = ceilings[i] - next_bid;
            match earlier {
                None => Some((i, headroom)),
                Some((j, best)) => if headroom < best {
                    Some((i, headroom))
                } else {
                    earlier
                },
            }
        }
    }
}

/// What waiting with the paddle down reveals about the tightest rival, as
/// precisely as the player's research allows: the rival's tell from a street
/// scan, comfort at the next call from an agent pack, and from an inspection
/// on, whether the rival is priced out or near its ceiling, or how its
/// personality reacts.
pub open spec fn room_read_text(auction: Auction, ceilings: Seq<i64>) -> Seq<char> {
    let next_bid = auction.current_bid + auction.bid_increment;
    match tightest_rival(auction.bidders@, ceilings, next_bid, auction.bidders@.len()) {
        None => "No active bidder wants the next bid."@,
        Some((index, headroom)) => {
            let bidder = auction.bidders@[index];
            let name = bidder.name@;
            if auction.player_research_level == ResearchLevel::StreetScan {
                name + ": "@ + bidder.tell@
            } else if auction.player_research_level == ResearchLevel::AgentPack {
                if headroom <= 2 * auction.bid_increment {
                    name + " looks uncomfortable at the next call."@
                } else {
                    name + " still looks composed; the ceiling is unclear."@
                }
            } else if headroom < 0 {
                name + " is priced out if the room asks again."@
            } else if headroom <= auction.bid_increment {
                name + " is near ceiling; holding may flush them."@
            } else if bidder.bidder_type == BidderType::EgoBidder && auction.last_bidder == Some(
                BidderActor::Player,
            ) {
                name + " reacts to your paddle; slower bidding reduces the bait."@
            } else if bidder.bidder_type == BidderType::Investor {
                name + " is rational; pressure is less dangerous than price."@
            } else if bidder.bidder_type == BidderType::BargainHunter {
                name + " needs value; reserve pressure can push them out."@
            } else {
                name + " still has room, but their tell matters more than speed."@
            }
        },
    }
}

fn find_tightest_rival(auction: &Auction, ceilings: &Vec<i64>, next_bid: i64) -> (found: Option<
    (usize, i128),
>)
    requires
        ceilings@.len() == auction.bidders@.len(),
    ensures
        match found {
            Some((index, headroom)) => index < auction.bidders@.len() && tightest_rival(
                auction.bidders@,
                ceilings@,
                next_bid as int,
                auction.bidders@.len(),
            ) == Some((index as int, headroom as int)),
            None => tightest_rival(
                auction.bidders@,
                ceilings@,
                next_bid as int,
                auction.bidders@.len(),
            ) is None,
        },
{
    let mut best: Option<(usize, i128)> = None;
    let mut i: usize = 0;
    while i < auction.bidders.len()
        invariant
            ceilings@.len() == auction.bidders@.len(),
            i <= auction.bidders@.len(),
            match best {
                Some((index, headroom)) => index < i && tightest_rival(
                    auction.bidders@,
                    ceilings@,
                    next_bid as int,
                    i as nat,
                ) == Some((index as int, headroom as int)),
                None => tightest_rival(auction.bidders@, ceilings@, next_bid as int, i as nat)
                    is None,
            },
        decreases auction.bidders@.len() - i,
    {
        if auction.bidders[i].active {
            let headroom = ceilings[i] as i128 - next_bid as i128;
            match best {
                None => {
                    best = Some((i, headroom));
                },
                Some((_, best_headroom)) => {
                    if headroom < best_headroom {
                        best = Some((i, headroom));
                    }
                },
            }
        }
        i += 1;
    }
    best
}

/// What waiting reveals about the room. `ceilings` holds each rival's
/// effective ceiling as the room's bidding behaviour computes it, in the order
/// of the room's bidders.
pub fn room_read(auction: &Auction, ceilings: &Vec<i64>) -> (read: String)
    requires
        ceilings@.len() == auction.bidders@.len(),
        i64::MIN <= auction.current_bid + auction.bid_increment <= i64::MAX,
        i64::MIN <= 2 * auction.bid_increment <= i64::MAX,
    ensures
        read@ == room_read_text(*auction, ceilings@),
{
    let next_bid = auction.next_bid();
    let (index, headroom) = match find_tightest_rival(auction, ceilings, next_bid) {
        None => return String::from_str("No active bidder wants the next bid."),
        Some(found) => found,
    };
    let bidder = &auction.bidders[index];
    let mut read = String::from_str(bidder.name.as_str());
    if auction.player_research_level == ResearchLevel::StreetScan {
        read.append(": ");
        read.append(bidder.tell.as_str());
        return read;
    }
    let increment = auction.bid_increment as i128;
    if auction.player_research_level == ResearchLevel::AgentPack {
        if headroom <= increment * 2 {
            read.append(" looks uncomfortable at the next call.");
        } else {
            read.append(" still looks composed; the ceiling is unclear.");
        }
        return read;
    }
    if headroom < 0 {
        read.append(" is priced out if the room asks again.");
    } else if headroom <= increment {
        read.append(" is near ceiling; holding may flush them.");
    } else if bidder.bidder_type == BidderType::EgoBidder && auction.last_bidder == Some(
        BidderActor::Player,
    ) {
        read.append(" reacts to your paddle; slower bidding reduces the bait.");
    } else if bidder.bidder_type == BidderType::Investor {
        read.append(" is rational; pressure is less dangerous than price.");
    } else if bidder.bidder_type == BidderType::BargainHunter {
        read.append(" needs value; reserve pressure can push them out.");
    } else {
        read.append(" still has room, but their tell matters more than speed.");
    }
    read
}

/// The pause a wait imposes on the next call and on every active rival, in
/// milliseconds.
pub const WAIT_PROMPT_MS: i64 = 450;

/// A rival after the player waits: an active rival reacts within 0.45 s.
pub open spec fn prompted(bidder: Bidder) -> Bidder {
    if bidder.active && bidder.reaction_timer_ms > WAIT_PROMPT_MS {
        Bidder { reaction_timer_ms: WAIT_PROMPT_MS, ..bidder }
    } else {
        bidder
    }
}

/// The player's wait as `hold_player_position` takes it, with the message
/// it returns.
pub open spec fn position_held(before: Auction, after: Auction, ceilings: Seq<i64>, message: Seq<char>) -> bool {
    if before.status.is_some() || !before.is_player_active {
        &&& after == before
        &&& message == "The room has already moved past your paddle."@
    } else {
        &&& message == room_read_text(before, ceilings)
        &&& after.last_room_read matches Some(read) && read@ == message
        &&& after.call_timer_ms == (if before.call_timer_ms < WAIT_PROMPT_MS {
            before.call_timer_ms
        } else {
            WAIT_PROMPT_MS
        })
        &&& after.bidders@.len() == before.bidders@.len()
        &&& forall|i: int|
            0 <= i < before.bidders@.len() ==> #[trigger] after.bidders@[i]
                == prompted(before.bidders@[i])
        &&& logged(
            Auction {
                last_room_read: after.last_room_read,
                call_timer_ms: after.call_timer_ms,
                bidders: after.bidders,
                ..before
            },
            after,
            "You wait with the paddle down. "@ + message,
        )
    }
}

/// The player waits with the paddle down: the room read is recorded and
/// logged, and the next call and every active rival are prompted within
/// 0.45 s. Returns the read, or a refusal when the player can no longer act.
pub fn hold_player_position(auction: &mut Auction, ceilings: &Vec<i64>) -> (message: String)
    requires
        old(auction).wf(),
        ceilings@.len() == old(auction).bidders@.len(),
        i64::MIN <= old(auction).current_bid + old(auction).bid_increment <= i64::MAX,
        i64::MIN <= 2 * old(auction).bid_increment <= i64::MAX,
    ensures
        final(auction).wf(),
        position_held(*old(auction), *final(auction), ceilings@, message@),
{
    if !auction.is_running() || !auction.is_player_active {
        return String::from_str("The room has already moved past your paddle.");
    }
    let read = room_read(auction, ceilings);
    auction.last_room_read = Some(read.clone());
    let mut line = String::from_str("You wait with the paddle down. ");
    line.append(read.as_str());
    push_log(auction, line);
    if auction.call_timer_ms > WAIT_PROMPT_MS {
        auction.call_timer_ms = WAIT_PROMPT_MS;
    }
    let ghost logged_state = *auction;
    let mut i: usize = 0;
    while i < auction.bidders.len()
        invariant
            i <= auction.bidders@.len(),
            auction.bidders@.len() == logged_state.bidders@.len(),
            *auction == (Auction { bidders: auction.bidders, ..logged_state }),
            forall|k: int| 0 <= k < i ==> #[trigger] auction.bidders@[k] == prompted(
                logged_state.bidders@[k],
            ),
            forall|k: int|
                i <= k < auction.bidders@.len() ==> #[trigger] auction.bidders@[k]
                    == logged_state.bidders@[k],
        decreases auction.bidders@.len() - i,
    {
        if auction.bidders[i].active && auction.bidders[i].reaction_timer_ms > WAIT_PROMPT_MS {
            auction.bidders[i].reaction_timer_ms = WAIT_PROMPT_MS;
        }
        i += 1;
    }
    read
}

} // verus!
