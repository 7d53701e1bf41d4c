use vstd::prelude::*;
use crate::model::auction::{Auction, AuctionTemperature, BidderActor};
use crate::model::bidder::{Bidder, BidderMood};
use crate::sim::auction_sim::{
    auctioneer_line, auctioneer_text, finish_auction, hammer_fell, logged, npc_bid_taken,
    place_npc_bid, push_log, RivalBid,
};

verus! {

/// The longest stretch of time one tick of the room may cover, in
/// milliseconds; a longer frame (a suspended tab) is cut to this.
pub const MAX_TICK_MS: i64 = 100;

/// What the room's bidding model works out for one rival this tick: its
/// effective ceiling, whether its chance roll commits it to a bid, the reaction
/// time drawn should it hesitate, the tells it shows in each mood and as it
/// leaves, the table clues logged when it turns interested or hesitant, and
/// the bid it makes if it places one (amount, tell, reaction time).
pub struct RivalTick {
    pub ceiling: i64,
    pub commits: bool,
    pub hesitation_ms: i64,
    pub watching_tell: String,
    pub interested_tell: String,
    pub hesitating_tell: String,
    pub stretching_tell: String,
    pub exit_tell: String,
    pub interested_clue: String,
    pub hesitating_clue: String,
    pub bid_amount: i64,
    pub bid_tell: String,
    pub bid_reaction_ms: i64,
}

/// A declared vendor bid the room's model wants to place, with the
/// auctioneer's line announcing it.
pub struct VendorBid {
    pub amount: i64,
    pub line: String,
}

/// What the room's model decides for the auctioneer's next call: the delay
/// drawn until the call after it, and a vendor bid to declare instead of the
/// routine call, if any.
pub struct RoomCall {
    pub next_call_ms: i64,
    pub vendor_bid: Option<VendorBid>,
}

/// The time a tick covers: the frame time, cut to 0..=100 ms.
pub open spec fn tick_length(dt_ms: int) -> int {
    if dt_ms < 0 {
        0
    } else if dt_ms > MAX_TICK_MS {
        MAX_TICK_MS as int
    } else {
        dt_ms
    }
}

/// `t` is `s` with rival `i` replaced by `rival`.
pub open spec fn rival_set(s: Auction, t: Auction, i: int, rival: Bidder) -> bool {
    &&& t == (Auction { bidders: t.bidders, ..s })
    &&& t.bidders@ == s.bidders@.update(i, rival)
}

/// The machine limits one tick stays within: the clocks and timers can run
/// down by a full tick, a rival can count one more bid, the calls can reopen
/// once more, and the asking price fits in a dollar amount.
pub open spec fn tick_fits(auction: Auction) -> bool {
    &&& auction.call_timer_ms >= i64::MIN + MAX_TICK_MS
    &&& auction.since_bid_ms <= i64::MAX - MAX_TICK_MS
    &&& auction.current_bid + auction.bid_increment <= i64::MAX
    &&& auction.overtime_count < u8::MAX
    &&& forall|j: int|
        0 <= j < auction.bidders@.len() ==> {
            &&& (#[trigger] auction.bidders@[j]).reaction_timer_ms >= i64::MIN + MAX_TICK_MS
            &&& auction.bidders@[j].bid_count < u8::MAX
        }
}

/// A rival's bid flash after `dt` ms: it fades, never below zero.
pub open spec fn faded(rival: Bidder, dt: int) -> Bidder {
    Bidder {
        bid_flash_ms: if rival.bid_flash_ms > dt {
            (rival.bid_flash_ms - dt) as i64
        } else {
            0
        },
        ..rival
    }
}

/// The clock part of a tick of `dt` ms: the room's temperature is refreshed,
/// the clock runs down (never below zero), the call timer runs down, the
/// silence since the last bid grows, and every bid flash fades.
pub open spec fn clock_advanced(
    s: Auction,
    t: Auction,
    dt: int,
    temperature: AuctionTemperature,
) -> bool {
    &&& t == (Auction {
        temperature,
        remaining_ms: if s.remaining_ms > dt {
            (s.remaining_ms - dt) as i64
        } else {
            0
        },
        call_timer_ms: (s.call_timer_ms - dt) as i64,
        since_bid_ms: (s.since_bid_ms + dt) as i64,
        bidders: t.bidders,
        ..s
    })
    &&& t.bidders@.len() == s.bidders@.len()
    &&& forall|j: int|
        0 <= j < s.bidders@.len() ==> #[trigger] t.bidders@[j] == faded(s.bidders@[j], dt)
}

/// Whether the vendor bid may be declared: the vendor has not bid yet, and
/// the bid rises above the current bid while staying below the reserve, so
/// it can never sell the home or put it on the market.
pub open spec fn vendor_allowed(s: Auction, amount: int) -> bool {
    &&& !s.vendor_bid_used
    &&& s.current_bid < amount < s.reserve_price
}

/// The room once the vendor's declared bid leads.
pub open spec fn vendor_raised(s: Auction, amount: i64) -> Auction {
    Auction {
        current_bid: amount,
        last_bidder: Some(BidderActor::Vendor),
        vendor_bid_used: true,
        since_bid_ms: 0,
        last_room_read: None,
        ..s
    }
}

/// The room as the call leaves it, before the call timer is reset.
pub open spec fn call_state(s: Auction, call: RoomCall) -> Auction {
    match call.vendor_bid {
        Some(v) => if vendor_allowed(s, v.amount as int) {
            vendor_raised(s, v.amount)
        } else {
            s
        },
        None => s,
    }
}

/// What the call says.
pub open spec fn call_line(s: Auction, call: RoomCall) -> Seq<char> {
    match call.vendor_bid {
        Some(v) => if vendor_allowed(s, v.amount as int) {
            v.line@
        } else {
            auctioneer_text(s)
        },
        None => auctioneer_text(s),
    }
}

/// The call part of a tick: nothing until the call timer runs out; then the
/// vendor's declared bid when the model asks for one and it is allowed,
/// otherwise the auctioneer's routine call, is logged, and the timer is reset
/// to the delay the model drew.
pub open spec fn call_made(s: Auction, t: Auction, call: RoomCall) -> bool {
    if s.call_timer_ms > 0 {
        t == s
    } else {
        exists|mid: Auction|
            #[trigger] logged(call_state(s, call), mid, call_line(s, call)) && t == (Auction {
                call_timer_ms: call.next_call_ms,
                ..mid
            })
    }
}

/// The mood a rival is read in when its turn comes: stretching past its own
/// ceiling, hesitant within a step of its effective ceiling, interested when
/// the player leads, watching otherwise.
pub open spec fn read_mood(s: Auction, i: int, ceiling: int) -> BidderMood {
    let next = s.current_bid + s.bid_increment;
    if next > s.bidders@[i].max_price {
        BidderMood::Stretching
    } else if ceiling - next <= s.bid_increment {
        BidderMood::Hesitating
    } else if s.last_bidder == Some(BidderActor::Player) {
        BidderMood::Interested
    } else {
        BidderMood::Watching
    }
}

/// The heat that goes with a mood.
pub open spec fn mood_heat(mood: BidderMood) -> i32 {
    match mood {
        BidderMood::Watching => 35,
        BidderMood::Interested => 62,
        BidderMood::Hesitating => 44,
        BidderMood::Stretching => 86,
        BidderMood::Out => 0,
    }
}

/// The tell the model gives for a mood.
pub open spec fn mood_tell(tick: RivalTick, mood: BidderMood) -> String {
    match mood {
        BidderMood::Watching => tick.watching_tell,
        BidderMood::Interested => tick.interested_tell,
        BidderMood::Hesitating => tick.hesitating_tell,
        _ => tick.stretching_tell,
    }
}

/// Rival `i` as it is read.
pub open spec fn read_rival(s: Auction, i: int, tick: RivalTick) -> Bidder {
    let mood = read_mood(s, i, tick.ceiling as int);
    Bidder { mood, heat: mood_heat(mood), tell: mood_tell(tick, mood), ..s.bidders@[i] }
}

/// Whether reading rival `i` is worth a table clue: it turns interested or
/// hesitant.
pub open spec fn read_logs_clue(s: Auction, i: int, tick: RivalTick) -> bool {
    let mood = read_mood(s, i, tick.ceiling as int);
    s.bidders@[i].mood != mood && (mood == BidderMood::Interested || mood
        == BidderMood::Hesitating)
}

/// The table clue logged when rival `i` is read.
pub open spec fn clue_line(s: Auction, i: int, tick: RivalTick) -> Seq<char> {
    s.bidders@[i].name@ + " "@ + if read_mood(s, i, tick.ceiling as int)
        == BidderMood::Interested {
        tick.interested_clue@
    } else {
        tick.hesitating_clue@
    }
}

/// Rival `i` is read: its mood, heat and tell follow `read_mood`; turning
/// interested or hesitant logs the rival's name and table clue.
pub open spec fn rival_read(s: Auction, t: Auction, i: int, tick: RivalTick) -> bool {
    if read_logs_clue(s, i, tick) {
        exists|mid: Auction|
            #[trigger] rival_set(s, mid, i, read_rival(s, i, tick)) && logged(
                mid,
                t,
                clue_line(s, i, tick),
            )
    } else {
        rival_set(s, t, i, read_rival(s, i, tick))
    }
}

/// Rival `i` once it withdraws.
pub open spec fn retired_rival(s: Auction, i: int, tick: RivalTick) -> Bidder {
    Bidder {
        active: false,
        preparing_bid: false,
        bid_flash_ms: 0,
        mood: BidderMood::Out,
        heat: 0,
        tell: tick.exit_tell,
        has_logged_exit: true,
        ..s.bidders@[i]
    }
}

/// Rival `i` withdraws: out, paddle down, its exit tell shown; the first time
/// it leaves, the room hears that it folds.
pub open spec fn rival_retired(s: Auction, t: Auction, i: int, tick: RivalTick) -> bool {
    if s.bidders@[i].has_logged_exit {
        rival_set(s, t, i, retired_rival(s, i, tick))
    } else {
        exists|mid: Auction|
            #[trigger] rival_set(s, mid, i, retired_rival(s, i, tick)) && logged(
                mid,
                t,
                s.bidders@[i].name@ + " folds at the current price."@,
            )
    }
}

/// Whether rival `i`'s turn ends the scan with a bid: it is in, not leading,
/// its reaction timer runs out this tick, the asking price is within its
/// effective ceiling, and it was already preparing a bid.
pub open spec fn turn_places_bid(s: Auction, i: int, tick: RivalTick, dt: int) -> bool {
    let rival = s.bidders@[i];
    &&& rival.active
    &&& s.last_bidder != Some(BidderActor::Npc(i as usize))
    &&& rival.reaction_timer_ms - dt <= 0
    &&& s.current_bid + s.bid_increment <= tick.ceiling
    &&& rival.preparing_bid
}

/// Rival `i`'s turn in a tick of `dt` ms. A rival that is out does nothing. The
/// leading rival calms from interested to watching once its flash has faded.
/// Any other rival's timer runs down; when it runs out the rival is read, and
/// then withdraws if the asking price is above its effective ceiling, stays
/// ready to bid if it was preparing, starts preparing (0.65 s, or 1 s when
/// hesitant) if its chance roll commits, and otherwise hesitates with the
/// hesitation time drawn.
pub open spec fn rival_turn(s: Auction, t: Auction, i: int, tick: RivalTick, dt: int) -> bool {
    let rival = s.bidders@[i];
    if !rival.active {
        t == s
    } else if s.last_bidder == Some(BidderActor::Npc(i as usize)) {
        rival_set(s, t, i, calmed_rival(rival))
    } else if rival.reaction_timer_ms - dt > 0 {
        rival_set(s, t, i, Bidder { reaction_timer_ms: (rival.reaction_timer_ms - dt) as i64, ..rival })
    } else {
        exists|waited: Auction, read: Auction|
            rival_set(
                s,
                waited,
                i,
                Bidder { reaction_timer_ms: (rival.reaction_timer_ms - dt) as i64, ..rival },
            ) && #[trigger] rival_read(waited, read, i, tick) && {
                let now = read.bidders@[i];
                if s.current_bid + s.bid_increment > tick.ceiling {
                    rival_retired(read, t, i, tick)
                } else if rival.preparing_bid {
                    t == read
                } else {
                    rival_set(read, t, i, decided_rival(now, tick))
                }
            }
    }
}

/// The rivals' scan, as a chain of room states: each rival takes its turn in
/// order, until the first one ready to bid (`placed`) or the end of the table.
pub open spec fn scan_chain(
    states: Seq<Auction>,
    s: Auction,
    t: Auction,
    rivals: Seq<RivalTick>,
    dt: int,
    placed: Option<usize>,
) -> bool {
    &&& states.len() >= 1
    &&& states[0] == s
    &&& states.last() == t
    &&& forall|j: int|
        #![trigger states[j]]
        0 <= j < states.len() - 1 ==> rival_turn(states[j], states[j + 1], j, rivals[j], dt)
    &&& match placed {
        Some(p) => {
            &&& states.len() == p + 2
            &&& turn_places_bid(states[p as int], p as int, rivals[p as int], dt)
            &&& forall|j: int|
                #![trigger states[j]]
                0 <= j < p ==> !turn_places_bid(states[j], j, rivals[j], dt)
        },
        None => {
            &&& states.len() == rivals.len() + 1
            &&& forall|j: int|
                #![trigger states[j]]
                0 <= j < rivals.len() ==> !turn_places_bid(states[j], j, rivals[j], dt)
        },
    }
}

/// The bid rival `p` places from its tick.
pub open spec fn tick_bid(p: usize, tick: RivalTick) -> RivalBid {
    RivalBid {
        index: p,
        amount: tick.bid_amount,
        tell: tick.bid_tell,
        reaction_ms: tick.bid_reaction_ms,
    }
}

/// The whole tick as a chain of room states: the clock, the call, the rivals'
/// scan, the bid of the rival that was ready (if any), the temperature, and
/// the hammer when the clock has run out.
pub open spec fn tick_chain(
    old: Auction,
    clocked: Auction,
    called: Auction,
    scanned: Auction,
    placed: Option<usize>,
    states: Seq<Auction>,
    bid: Auction,
    new: Auction,
    dt: int,
    rivals: Seq<RivalTick>,
    call: RoomCall,
    temperature: AuctionTemperature,
) -> bool {
    let settled = Auction { temperature, ..bid };
    &&& clock_advanced(old, clocked, dt, temperature)
    &&& call_made(clocked, called, call)
    &&& scan_chain(states, called, scanned, rivals, dt, placed)
    &&& match placed {
        Some(p) => npc_bid_taken(scanned, bid, tick_bid(p, rivals[p as int])),
        None => bid == scanned,
    }
    &&& if settled.remaining_ms <= 0 {
        hammer_fell(settled, new)
    } else {
        new == settled
    }
}

/// One tick of a live room (see `update_auction`).
pub open spec fn room_ticked(
    old: Auction,
    new: Auction,
    dt_ms: int,
    rivals: Seq<RivalTick>,
    call: RoomCall,
    temperature: AuctionTemperature,
) -> bool {
    if old.status.is_some() || !old.has_started {
        new == old
    } else {
        exists|
            clocked: Auction,
            called: Auction,
            scanned: Auction,
            placed: Option<usize>,
            states: Seq<Auction>,
            bid: Auction,
        |
            #[trigger] tick_chain(
                old,
                clocked,
                called,
                scanned,
                placed,
                states,
                bid,
                new,
                tick_length(dt_ms),
                rivals,
                call,
                temperature,
            )
    }
}

/// What a rival's turn or the call leaves as it was: the price, the step, the
/// leader (for a turn), the clock, the overtime, the outcome, and every
/// rival's bid count.
pub open spec fn turn_frame(s: Auction, t: Auction) -> bool {
    &&& t.current_bid == s.current_bid
    &&& t.bid_increment == s.bid_increment
    &&& t.last_bidder == s.last_bidder
    &&& t.remaining_ms == s.remaining_ms
    &&& t.overtime_count == s.overtime_count
    &&& t.status == s.status
    &&& t.has_started == s.has_started
    &&& t.bidders@.len() == s.bidders@.len()
    &&& forall|j: int|
        0 <= j < s.bidders@.len() ==> (#[trigger] t.bidders@[j]).bid_count
            == s.bidders@[j].bid_count
}

/// Fades a rival's bid flash by `dt` ms.
fn fade(rival: &mut Bidder, dt: i64)
    requires
        dt >= 0,
    ensures
        *final(rival) == faded(*old(rival), dt as int),
{
    if rival.bid_flash_ms > dt {
        rival.bid_flash_ms = rival.bid_flash_ms - dt;
    } else {
        rival.bid_flash_ms = 0;
    }
}

/// Runs the room's clocks down by `dt` ms and refreshes the temperature.
fn advance_clock(auction: &mut Auction, dt: i64, temperature: AuctionTemperature)
    requires
        old(auction).wf(),
        0 <= dt <= MAX_TICK_MS,
        old(auction).call_timer_ms >= i64::MIN + MAX_TICK_MS,
        old(auction).since_bid_ms <= i64::MAX - MAX_TICK_MS,
    ensures
        final(auction).wf(),
        clock_advanced(*old(auction), *final(auction), dt as int, temperature),
{
    auction.temperature = temperature;
    auction.remaining_ms = if auction.remaining_ms > dt {
        auction.remaining_ms - dt
    } else {
        0
    };
    auction.call_timer_ms = auction.call_timer_ms - dt;
    auction.since_bid_ms = auction.since_bid_ms + dt;
    let ghost clocked = *auction;
    let mut j: usize = 0;
    while j < auction.bidders.len()
        invariant
            j <= auction.bidders@.len(),
            auction.bidders@.len() == clocked.bidders@.len(),
            *auction == (Auction { bidders: auction.bidders, ..clocked }),
            0 <= dt <= MAX_TICK_MS,
            forall|k: int|
                0 <= k < j ==> #[trigger] auction.bidders@[k] == faded(
                    clocked.bidders@[k],
                    dt as int,
                ),
            forall|k: int|
                j <= k < auction.bidders@.len() ==> #[trigger] auction.bidders@[k]
                    == clocked.bidders@[k],
        decreases auction.bidders@.len() - j,
    {
        fade(&mut auction.bidders[j], dt);
        j += 1;
    }
}

/// Declares the vendor's bid of `amount`, announced by `line`.
fn declare_vendor_bid(auction: &mut Auction, amount: i64, line: String)
    requires
        old(auction).wf(),
    ensures
        final(auction).wf(),
        logged(vendor_raised(*old(auction), amount), *final(auction), line@),
{
    auction.current_bid = amount;
    auction.last_bidder = Some(BidderActor::Vendor);
    auction.vendor_bid_used = true;
    auction.since_bid_ms = 0;
    auction.last_room_read = None;
    push_log(auction, line);
}

/// Logs the auctioneer's routine call.
fn routine_call(auction: &mut Auction)
    requires
        old(auction).wf(),
        old(auction).current_bid + old(auction).bid_increment <= i64::MAX,
    ensures
        final(auction).wf(),
        logged(*old(auction), *final(auction), auctioneer_text(*old(auction))),
{
    let line = auctioneer_line(auction);
    push_log(auction, line);
}

/// The auctioneer's call when the call timer has run out: the vendor's
/// declared bid if the model asks for one and it is allowed, otherwise the
/// routine call; then the timer is reset.
fn make_call(auction: &mut Auction, call: &RoomCall)
    requires
        old(auction).wf(),
        old(auction).current_bid + old(auction).bid_increment <= i64::MAX,
    ensures
        final(auction).wf(),
        call_made(*old(auction), *final(auction), *call),
        final(auction).bidders == old(auction).bidders,
        final(auction).remaining_ms == old(auction).remaining_ms,
        final(auction).overtime_count == old(auction).overtime_count,
        final(auction).status == old(auction).status,
        final(auction).has_started == old(auction).has_started,
        final(auction).bid_increment == old(auction).bid_increment,
{
    if auction.call_timer_ms > 0 {
        return;
    }
    let ghost start = *auction;
    let next_call_ms = call.next_call_ms;
    match &call.vendor_bid {
        Some(vendor) => {
            if !auction.vendor_bid_used && auction.current_bid < vendor.amount && vendor.amount
                < auction.reserve_price {
                declare_vendor_bid(auction, vendor.amount, vendor.line.clone());
            } else {
                routine_call(auction);
            }
        },
        None => {
            routine_call(auction);
        },
    }
    let ghost mid = *auction;
    assert(logged(call_state(start, *call), mid, call_line(start, *call)));
    auction.call_timer_ms = next_call_ms;
}

/// The mood rival `i` is read in (see `read_mood`).
fn mood_now(auction: &Auction, i: usize, tick: &RivalTick) -> (mood: BidderMood)
    requires
        i < auction.bidders@.len(),
    ensures
        mood == read_mood(*auction, i as int, tick.ceiling as int),
{
    let next: i128 = auction.current_bid as i128 + auction.bid_increment as i128;
    if next > auction.bidders[i].max_price as i128 {
        BidderMood::Stretching
    } else if tick.ceiling as i128 - next <= auction.bid_increment as i128 {
        BidderMood::Hesitating
    } else if auction.last_bidder == Some(BidderActor::Player) {
        BidderMood::Interested
    } else {
        BidderMood::Watching
    }
}

/// Puts a rival in `mood`, with the mood's heat and tell.
fn set_mood(rival: &mut Bidder, mood: BidderMood, tick: &RivalTick)
    ensures
        *final(rival) == (Bidder {
            mood,
            heat: mood_heat(mood),
            tell: mood_tell(*tick, mood),
            ..*old(rival)
        }),
{
    rival.mood = mood;
    rival.heat = match mood {
        BidderMood::Watching => 35,
        BidderMood::Interested => 62,
        BidderMood::Hesitating => 44,
        BidderMood::Stretching => 86,
        BidderMood::Out => 0,
    };
    rival.tell = match mood {
        BidderMood::Watching => tick.watching_tell.clone(),
        BidderMood::Interested => tick.interested_tell.clone(),
        BidderMood::Hesitating => tick.hesitating_tell.clone(),
        _ => tick.stretching_tell.clone(),
    };
}

/// Reads rival `i` (see `rival_read`).
fn read_rival_now(auction: &mut Auction, i: usize, tick: &RivalTick)
    requires
        old(auction).wf(),
        i < old(auction).bidders@.len(),
    ensures
        final(auction).wf(),
        rival_read(*old(auction), *final(auction), i as int, *tick),
        turn_frame(*old(auction), *final(auction)),
        forall|j: int|
            0 <= j < old(auction).bidders@.len() && j != i
                ==> #[trigger] final(auction).bidders@[j] == old(auction).bidders@[j],
        final(auction).bidders@[i as int].preparing_bid
            == old(auction).bidders@[i as int].preparing_bid,
{
    let ghost start = *auction;
    let mood = mood_now(auction, i, tick);
    let previous = auction.bidders[i].mood;
    set_mood(&mut auction.bidders[i], mood, tick);
    assert(auction.bidders@ =~= start.bidders@.update(i as int, read_rival(start, i as int, *tick)));
    let ghost mid = *auction;
    assert(rival_set(start, mid, i as int, read_rival(start, i as int, *tick)));
    if previous != mood && (mood == BidderMood::Interested || mood == BidderMood::Hesitating) {
        let mut line = auction.bidders[i].name.clone();
        line.append(" ");
        if mood == BidderMood::Interested {
            line.append(tick.interested_clue.as_str());
        } else {
            line.append(tick.hesitating_clue.as_str());
        }
        assert(line@ == clue_line(start, i as int, *tick));
        push_log(auction, line);
    }
}

/// Rival `i` withdraws (see `rival_retired`).
fn retire_rival(auction: &mut Auction, i: usize, tick: &RivalTick)
    requires
        old(auction).wf(),
        i < old(auction).bidders@.len(),
    ensures
        final(auction).wf(),
        rival_retired(*old(auction), *final(auction), i as int, *tick),
        turn_frame(*old(auction), *final(auction)),
        forall|j: int|
            0 <= j < old(auction).bidders@.len() && j != i
                ==> #[trigger] final(auction).bidders@[j] == old(auction).bidders@[j],
{
    let ghost start = *auction;
    let logged_before = auction.bidders[i].has_logged_exit;
    auction.bidders[i].active = false;
    auction.bidders[i].preparing_bid = false;
    auction.bidders[i].bid_flash_ms = 0;
    auction.bidders[i].mood = BidderMood::Out;
    auction.bidders[i].heat = 0;
    auction.bidders[i].tell = tick.exit_tell.clone();
    auction.bidders[i].has_logged_exit = true;
    assert(auction.bidders@ =~= start.bidders@.update(i as int, retired_rival(start, i as int, *tick)));
    let ghost mid = *auction;
    assert(rival_set(start, mid, i as int, retired_rival(start, i as int, *tick)));
    if !logged_before {
        let mut line = auction.bidders[i].name.clone();
        line.append(" folds at the current price.");
        push_log(auction, line);
    }
}

/// The rival's state after it was read, in play and not preparing: it starts
/// preparing its bid if the chance roll commits it, otherwise it hesitates.
pub open spec fn decided_rival(now: Bidder, tick: RivalTick) -> Bidder {
    if tick.commits {
        Bidder {
            preparing_bid: true,
            reaction_timer_ms: if now.mood == BidderMood::Hesitating {
                1_000
            } else {
                650
            },
            ..now
        }
    } else {
        Bidder {
            mood: BidderMood::Hesitating,
            tell: tick.hesitating_tell,
            reaction_timer_ms: tick.hesitation_ms,
            ..now
        }
    }
}

/// Applies `decided_rival` to a rival.
fn decide(rival: &mut Bidder, tick: &RivalTick)
    ensures
        *final(rival) == decided_rival(*old(rival), *tick),
{
    if tick.commits {
        let hesitant = rival.mood == BidderMood::Hesitating;
        rival.preparing_bid = true;
        rival.reaction_timer_ms = if hesitant {
            1_000
        } else {
            650
        };
    } else {
        rival.mood = BidderMood::Hesitating;
        rival.tell = tick.hesitating_tell.clone();
        rival.reaction_timer_ms = tick.hesitation_ms;
    }
}

/// The leading rival calms from interested to watching once its flash faded.
pub open spec fn calmed_rival(rival: Bidder) -> Bidder {
    if rival.bid_flash_ms <= 0 && rival.mood == BidderMood::Interested {
        Bidder { mood: BidderMood::Watching, ..rival }
    } else {
        rival
    }
}

/// Applies `calmed_rival` to a rival.
fn calm(rival: &mut Bidder)
    ensures
        *final(rival) == calmed_rival(*old(rival)),
{
    if rival.bid_flash_ms <= 0 && rival.mood == BidderMood::Interested {
        rival.mood = BidderMood::Watching;
    }
}

/// Runs a rival's reaction timer down by `dt`; returns the time left.
fn count_down(rival: &mut Bidder, dt: i64) -> (left: i64)
    requires
        old(rival).reaction_timer_ms >= i64::MIN + MAX_TICK_MS,
        0 <= dt <= MAX_TICK_MS,
    ensures
        left == old(rival).reaction_timer_ms - dt,
        *final(rival) == (Bidder { reaction_timer_ms: left, ..*old(rival) }),
{
    rival.reaction_timer_ms = rival.reaction_timer_ms - dt;
    rival.reaction_timer_ms
}

/// Rival `i`'s turn (see `rival_turn`); returns whether the rival is ready to
/// place its prepared bid.
#[verifier::rlimit(60)]
#[verifier::spinoff_prover]
fn take_turn(auction: &mut Auction, i: usize, tick: &RivalTick, dt: i64) -> (places: bool)
    requires
        old(auction).wf(),
        i < old(auction).bidders@.len(),
        0 <= dt <= MAX_TICK_MS,
        old(auction).bidders@[i as int].reaction_timer_ms >= i64::MIN + MAX_TICK_MS,
    ensures
        final(auction).wf(),
        rival_turn(*old(auction), *final(auction), i as int, *tick, dt as int),
        places == turn_places_bid(*old(auction), i as int, *tick, dt as int),
        turn_frame(*old(auction), *final(auction)),
        forall|j: int|
            0 <= j < old(auction).bidders@.len() && j != i
                ==> #[trigger] final(auction).bidders@[j] == old(auction).bidders@[j],
{
    let ghost start = *auction;
    if !auction.bidders[i].active {
        return false;
    }
    if auction.last_bidder == Some(BidderActor::Npc(i)) {
        calm(&mut auction.bidders[i]);
        assert(auction.bidders@ =~= start.bidders@.update(i as int, auction.bidders@[i as int]));
        return false;
    }
    let timer = count_down(&mut auction.bidders[i], dt);
    assert(auction.bidders@ =~= start.bidders@.update(i as int, auction.bidders@[i as int]));
    if timer > 0 {
        return false;
    }
    let ghost waited = *auction;
    read_rival_now(auction, i, tick);
    let ghost read = *auction;
    let next: i128 = auction.current_bid as i128 + auction.bid_increment as i128;
    if next > tick.ceiling as i128 {
        retire_rival(auction, i, tick);
        return false;
    }
    if auction.bidders[i].preparing_bid {
        return true;
    }
    decide(&mut auction.bidders[i], tick);
    assert(auction.bidders@ =~= read.bidders@.update(i as int, auction.bidders@[i as int]));
    false
}

/// The rivals' turns in table order, up to the first one ready to bid.
pub open spec fn rivals_scanned(
    s: Auction,
    t: Auction,
    rivals: Seq<RivalTick>,
    dt: int,
    placed: Option<usize>,
) -> bool {
    exists|states: Seq<Auction>| #[trigger] scan_chain(states, s, t, rivals, dt, placed)
}

/// Gives every rival its turn (see `rival_turn`) until one is ready to place
/// its prepared bid; returns that rival.
fn scan_rivals(auction: &mut Auction, rivals: &Vec<RivalTick>, dt: i64) -> (placed: Option<
    usize,
>)
    requires
        old(auction).wf(),
        rivals@.len() == old(auction).bidders@.len(),
        0 <= dt <= MAX_TICK_MS,
        forall|j: int|
            0 <= j < old(auction).bidders@.len()
                ==> (#[trigger] old(auction).bidders@[j]).reaction_timer_ms >= i64::MIN
                + MAX_TICK_MS,
    ensures
        final(auction).wf(),
        rivals_scanned(*old(auction), *final(auction), rivals@, dt as int, placed),
        turn_frame(*old(auction), *final(auction)),
        placed matches Some(p) ==> p < old(auction).bidders@.len(),
{
    let ghost start = *auction;
    let ghost mut states: Seq<Auction> = seq![*auction];
    let mut i: usize = 0;
    while i < auction.bidders.len()
        invariant
            start == *old(auction),
            auction.wf(),
            i <= auction.bidders@.len(),
            rivals@.len() == start.bidders@.len(),
            0 <= dt <= MAX_TICK_MS,
            turn_frame(start, *auction),
            states.len() == i + 1,
            states[0] == start,
            states.last() == *auction,
            forall|j: int|
                #![trigger states[j]]
                0 <= j < i ==> rival_turn(states[j], states[j + 1], j, rivals@[j], dt as int),
            forall|j: int|
                #![trigger states[j]]
                0 <= j < i ==> !turn_places_bid(states[j], j, rivals@[j], dt as int),
            forall|j: int|
                i <= j < start.bidders@.len() ==> #[trigger] auction.bidders@[j]
                    == start.bidders@[j],
            forall|j: int|
                0 <= j < start.bidders@.len() ==> (#[trigger] start.bidders@[j]).reaction_timer_ms
                    >= i64::MIN + MAX_TICK_MS,
        decreases auction.bidders@.len() - i,
    {
        let ghost before = *auction;
        let places = take_turn(auction, i, &rivals[i], dt);
        proof {
            states = states.push(*auction);
            assert(states[i as int] == before);
        }
        if places {
            proof {
                assert(scan_chain(states, start, *auction, rivals@, dt as int, Some(i)));
            }
            return Some(i);
        }
        i += 1;
    }
    proof {
        assert(scan_chain(states, start, *auction, rivals@, dt as int, None));
    }
    None
}

/// One tick of a live room, `dt_ms` of game time (cut to 0..=100 ms), with
/// what the room's model worked out for this tick: each rival's `RivalTick`
/// (in table order), the auctioneer's `call`, and the room's `temperature`.
/// A finished room, or one whose calls have not opened, is left as it is.
/// Otherwise the clocks run down and the bid flashes fade; when the call timer
/// has run out the auctioneer calls (or the vendor declares its bid); every
/// rival takes its turn (see `rival_turn`) until the first one ready to bid,
/// who then bids; and when the clock has run out the hammer falls.
#[verifier::rlimit(80)]
#[verifier::spinoff_prover]
pub fn update_auction(
    auction: &mut Auction,
    dt_ms: i64,
    rivals: &Vec<RivalTick>,
    call: RoomCall,
    temperature: AuctionTemperature,
)
    requires
        old(auction).wf(),
        rivals@.len() == old(auction).bidders@.len(),
        tick_fits(*old(auction)),
    ensures
        final(auction).wf(),
        room_ticked(*old(auction), *final(auction), dt_ms as int, rivals@, call, temperature),
{
    if !auction.is_running() || !auction.has_started {
        return;
    }
    let dt: i64 = if dt_ms < 0 {
        0
    } else if dt_ms > MAX_TICK_MS {
        MAX_TICK_MS
    } else {
        dt_ms
    };
    let ghost start = *auction;
    advance_clock(auction, dt, temperature);
    let ghost clocked = *auction;
    make_call(auction, &call);
    let ghost called = *auction;
    assert forall|j: int| 0 <= j < called.bidders@.len() implies (
    #[trigger] called.bidders@[j]).reaction_timer_ms >= i64::MIN + MAX_TICK_MS by {
        assert(clocked.bidders@[j] == faded(start.bidders@[j], dt as int));
    }
    let placed = scan_rivals(auction, rivals, dt);
    let ghost scanned = *auction;
    match placed {
        Some(p) => {
            assert(auction.bidders@[p as int].bid_count == called.bidders@[p as int].bid_count);
            assert(clocked.bidders@[p as int] == faded(start.bidders@[p as int], dt as int));
            let bid = RivalBid {
                index: p,
                amount: rivals[p].bid_amount,
                tell: rivals[p].bid_tell.clone(),
                reaction_ms: rivals[p].bid_reaction_ms,
            };
            place_npc_bid(auction, &bid);
        },
        None => {},
    }
    let ghost bid_state = *auction;
    auction.temperature = temperature;
    if auction.remaining_ms <= 0 {
        finish_auction(auction);
    }
    proof {
        let states = choose|states: Seq<Auction>|
            scan_chain(states, called, scanned, rivals@, dt as int, placed);
        assert(tick_length(dt_ms as int) == dt as int);
        assert(tick_chain(
            start,
            clocked,
            called,
            scanned,
            placed,
            states,
            bid_state,
            *auction,
            tick_length(dt_ms as int),
            rivals@,
            call,
            temperature,
        ));
    }
}

} // verus!
