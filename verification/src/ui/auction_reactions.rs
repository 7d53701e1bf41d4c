use vstd::prelude::*;
use crate::model::auction::{Auction, BidderActor};
use crate::model::bidder::{Bidder, BidderMood};
use crate::ui::auction_view::{
    fill_price_placeholders, fill_prices, phase_for, AuctionVoice, CallPhase, ReactionKey,
};
use crate::ui::text::{replace, replace_all};

verus! {

/// What a rival visibly shows at the table.
#[derive(Clone, Copy, Debug, PartialEq, Eq, Structural)]
pub enum Reaction {
    Watching,
    Calculating,
    Hesitant,
    Frustrated,
    Aggressive,
    Preparing,
    NearLimit,
    Withdrawn,
}

/// The visible state of a rival, read from its decisions: out, preparing a
/// bid, stretching (aggressive while its paddle flashes, else frustrated),
/// hesitating (near its limit when the next bid is within one step of its
/// ceiling), just bid, calculating (about to react or interested) or watching.
pub open spec fn reaction_of(bidder: Bidder, next_bid: int, increment: int) -> Reaction {
    if !bidder.active {
        Reaction::Withdrawn
    } else if bidder.preparing_bid {
        Reaction::Preparing
    } else if bidder.mood == BidderMood::Stretching {
        if bidder.bid_flash_ms > 0 {
            Reaction::Aggressive
        } else {
            Reaction::Frustrated
        }
    } else if bidder.mood == BidderMood::Hesitating {
        if next_bid >= bidder.max_price - increment {
            Reaction::NearLimit
        } else {
            Reaction::Hesitant
        }
    } else if bidder.bid_flash_ms > 0 {
        Reaction::Aggressive
    } else if bidder.reaction_timer_ms <= 1_000 || bidder.mood == BidderMood::Interested {
        Reaction::Calculating
    } else {
        Reaction::Watching
    }
}

/// The authored line that labels a reaction.
pub open spec fn reaction_key(reaction: Reaction) -> ReactionKey {
    match reaction {
        Reaction::Watching => ReactionKey::Watching,
        Reaction::Calculating => ReactionKey::Calculating,
        Reaction::Hesitant => ReactionKey::Hesitant,
        Reaction::Frustrated => ReactionKey::Frustrated,
        Reaction::Aggressive => ReactionKey::Aggressive,
        Reaction::Preparing => ReactionKey::Preparing,
        Reaction::NearLimit => ReactionKey::NearLimit,
        Reaction::Withdrawn => ReactionKey::Withdrawn,
    }
}

impl Reaction {
    /// The reaction a rival shows when the next bid is `next_bid`.
    pub fn for_bidder(bidder: &Bidder, next_bid: i64, increment: i64) -> (reaction: Self)
        requires
            i64::MIN <= bidder.max_price - increment <= i64::MAX,
        ensures
            reaction == reaction_of(*bidder, next_bid as int, increment as int),
            !bidder.active ==> reaction == Reaction::Withdrawn,
    {
        if !bidder.active {
            Self::Withdrawn
        } else if bidder.preparing_bid {
            Self::Preparing
        } else if bidder.mood == BidderMood::Stretching {
            if bidder.bid_flash_ms > 0 {
                Self::Aggressive
            } else {
                Self::Frustrated
            }
        } else if bidder.mood == BidderMood::Hesitating {
            if next_bid >= bidder.max_price - increment {
                Self::NearLimit
            } else {
                Self::Hesitant
            }
        } else if bidder.bid_flash_ms > 0 {
            Self::Aggressive
        } else if bidder.reaction_timer_ms <= 1_000 || bidder.mood == BidderMood::Interested {
            Self::Calculating
        } else {
            Self::Watching
        }
    }

    /// The reaction's label in the authored auction voice.
    pub fn label(self, voice: &AuctionVoice) -> (label: &str)
        ensures
            label@ == voice.reaction_line(reaction_key(self)),
    {
        let key = match self {
            Self::Watching => ReactionKey::Watching,
            Self::Calculating => ReactionKey::Calculating,
            Self::Hesitant => ReactionKey::Hesitant,
            Self::Frustrated => ReactionKey::Frustrated,
            Self::Aggressive => ReactionKey::Aggressive,
            Self::Preparing => ReactionKey::Preparing,
            Self::NearLimit => ReactionKey::NearLimit,
            Self::Withdrawn => ReactionKey::Withdrawn,
        };
        voice.reaction(key)
    }
}

/// Whether a rival's change between two ticks is an event of the given kind:
/// a withdrawal, a bid, a new hesitation, or a newly prepared bid.
pub open spec fn changed(kind: ReactionKey, previous: Bidder, bidder: Bidder) -> bool {
    match kind {
        ReactionKey::Withdrew => previous.active && !bidder.active,
        ReactionKey::Bid => bidder.bid_count > previous.bid_count,
        ReactionKey::Hesitated => bidder.active && bidder.mood == BidderMood::Hesitating
            && previous.mood != BidderMood::Hesitating,
        _ => !previous.preparing_bid && bidder.preparing_bid,
    }
}

/// The first of the first `n` rivals that changed with an event of `kind`.
pub open spec fn earliest_change(
    before: Seq<Bidder>,
    after: Seq<Bidder>,
    kind: ReactionKey,
    n: nat,
) -> Option<int>
    decreases n,
{
    if n == 0 {
        None
    } else {
        match earliest_change(before, after, kind, (n - 1) as nat) {
            Some(i) => Some(i),
            None => if changed(kind, before[n - 1], after[n - 1]) {
                Some(n - 1)
            } else {
                None
            },
        }
    }
}

/// The line announcing an event: a bid is a quick bid unless the rival
/// hesitated before or after it.
pub open spec fn event_key(kind: ReactionKey, previous: Bidder, bidder: Bidder) -> ReactionKey {
    if kind == ReactionKey::Bid && bidder.mood != BidderMood::Hesitating && previous.mood
        != BidderMood::Hesitating {
        ReactionKey::QuickBid
    } else {
        kind
    }
}

/// The announcement for the rival at `index`: the event's authored line with
/// `{name}` replaced by the rival's name.
pub open spec fn event_text(
    voice: AuctionVoice,
    kind: ReactionKey,
    previous: Bidder,
    bidder: Bidder,
) -> Seq<char> {
    replace_all(voice.reaction_line(event_key(kind, previous, bidder)), "{name}"@, bidder.name@)
}

/// The behavioural event of a tick, if any: withdrawals come before bids,
/// bids before hesitations and hesitations before prepared bids; within a
/// kind the first rival wins.
pub open spec fn behavioural_event_text(
    voice: AuctionVoice,
    before: Seq<Bidder>,
    after: Seq<Bidder>,
) -> Option<Seq<char>> {
    let n = if before.len() < after.len() {
        before.len()
    } else {
        after.len()
    };
    match earliest_change(before, after, ReactionKey::Withdrew, n) {
        Some(i) => Some(event_text(voice, ReactionKey::Withdrew, before[i], after[i])),
        None => match earliest_change(before, after, ReactionKey::Bid, n) {
            Some(i) => Some(event_text(voice, ReactionKey::Bid, before[i], after[i])),
            None => match earliest_change(before, after, ReactionKey::Hesitated, n) {
                Some(i) => Some(event_text(voice, ReactionKey::Hesitated, before[i], after[i])),
                None => match earliest_change(before, after, ReactionKey::Prepared, n) {
                    Some(i) => Some(event_text(voice, ReactionKey::Prepared, before[i], after[i])),
                    None => None,
                },
            },
        },
    }
}

proof fn lemma_earliest_change_settles(
    before: Seq<Bidder>,
    after: Seq<Bidder>,
    kind: ReactionKey,
    k: nat,
    n: nat,
)
    requires
        k <= n,
        earliest_change(before, after, kind, k) is Some,
    ensures
        earliest_change(before, after, kind, n) == earliest_change(before, after, kind, k),
        0 <= earliest_change(before, after, kind, n).unwrap() < k,
    decreases n - k,
{
    if k < n {
        lemma_earliest_change_settles(before, after, kind, k, (n - 1) as nat);
    } else {
        lemma_earliest_change_bounded(before, after, kind, k);
    }
}

proof fn lemma_earliest_change_bounded(
    before: Seq<Bidder>,
    after: Seq<Bidder>,
    kind: ReactionKey,
    n: nat,
)
    ensures
        earliest_change(before, after, kind, n) matches Some(i) ==> 0 <= i < n,
    decreases n,
{
    if n > 0 {
        lemma_earliest_change_bounded(before, after, kind, (n - 1) as nat);
    }
}

fn is_change(kind: ReactionKey, previous: &Bidder, bidder: &Bidder) -> (found: bool)
    ensures
        found == changed(kind, *previous, *bidder),
{
    match kind {
        ReactionKey::Withdrew => previous.active && !bidder.active,
        ReactionKey::Bid => bidder.bid_count > previous.bid_count,
        ReactionKey::Hesitated => bidder.active && bidder.mood == BidderMood::Hesitating
            && previous.mood != BidderMood::Hesitating,
        _ => !previous.preparing_bid && bidder.preparing_bid,
    }
}

fn find_change(before: &Vec<Bidder>, after: &Vec<Bidder>, kind: ReactionKey, n: usize) -> (found:
    Option<usize>)
    requires
        n <= before@.len(),
        n <= after@.len(),
    ensures
        match found {
            Some(i) => i < n && earliest_change(before@, after@, kind, n as nat) == Some(i as int),
            None => earliest_change(before@, after@, kind, n as nat) is None,
        },
{
    let mut i: usize = 0;
    while i < n
        invariant
            n <= before@.len(),
            n <= after@.len(),
            i <= n,
            earliest_change(before@, after@, kind, i as nat) is None,
        decreases n - i,
    {
        if is_change(kind, &before[i], &after[i]) {
            assert(earliest_change(before@, after@, kind, (i + 1) as nat) == Some(i as int));
            proof {
                lemma_earliest_change_settles(before@, after@, kind, (i + 1) as nat, n as nat);
            }
            return Some(i);
        }
        i += 1;
    }
    None
}

fn announce(voice: &AuctionVoice, kind: ReactionKey, previous: &Bidder, bidder: &Bidder) -> (text:
    String)
    ensures
        text@ == event_text(*voice, kind, *previous, *bidder),
{
    let key = if kind == ReactionKey::Bid && bidder.mood != BidderMood::Hesitating
        && previous.mood != BidderMood::Hesitating {
        ReactionKey::QuickBid
    } else {
        kind
    };
    proof {
        reveal_strlit("{name}");
    }
    replace(voice.reaction(key), "{name}", bidder.name.as_str())
}

/// The behavioural event between two ticks of a room, announced with the
/// rival's name; `before` holds the rivals as they were on the earlier tick.
pub fn behavioral_event(before: &Vec<Bidder>, auction: &Auction, voice: &AuctionVoice) -> (event:
    Option<String>)
    ensures
        event is Some == behavioural_event_text(*voice, before@, auction.bidders@) is Some,
        event matches Some(text) ==> text@ == behavioural_event_text(
            *voice,
            before@,
            auction.bidders@,
        ).unwrap(),
{
    let after = &auction.bidders;
    let n = if before.len() < after.len() {
        before.len()
    } else {
        after.len()
    };
    if let Some(i) = find_change(before, after, ReactionKey::Withdrew, n) {
        return Some(announce(voice, ReactionKey::Withdrew, &before[i], &after[i]));
    }
    if let Some(i) = find_change(before, after, ReactionKey::Bid, n) {
        return Some(announce(voice, ReactionKey::Bid, &before[i], &after[i]));
    }
    if let Some(i) = find_change(before, after, ReactionKey::Hesitated, n) {
        return Some(announce(voice, ReactionKey::Hesitated, &before[i], &after[i]));
    }
    if let Some(i) = find_change(before, after, ReactionKey::Prepared, n) {
        return Some(announce(voice, ReactionKey::Prepared, &before[i], &after[i]));
    }
    None
}

/// The authored call the room hears now: going twice or once in the urgent
/// phases; otherwise the vendor-bid call just after a vendor bid, the opening
/// call before any bid, the price call just after a bid, the selling call
/// once the home is on the market and the room has gone quiet or reached its
/// final calls, and else the call for an advance.
pub open spec fn live_call_key(auction: Auction) -> ReactionKey {
    let phase = phase_for(auction.remaining_ms as int, auction.last_bidder.is_some());
    if phase == CallPhase::Twice {
        ReactionKey::Twice
    } else if phase == CallPhase::Once {
        ReactionKey::Once
    } else if auction.last_bidder == Some(BidderActor::Vendor) && auction.since_bid_ms < 2_000 {
        ReactionKey::Vendor
    } else if auction.last_bidder.is_none() {
        ReactionKey::Opening
    } else if auction.since_bid_ms < 2_500 {
        ReactionKey::PriceCall
    } else if auction.on_market_announced && (auction.since_bid_ms >= 5_000 || phase
        == CallPhase::FinalCalls) {
        ReactionKey::Selling
    } else {
        ReactionKey::Advance
    }
}

/// The auctioneer's live call, with `{bid}` and `{next}` filled with the
/// current and next prices.
pub fn live_call(auction: &Auction, voice: &AuctionVoice) -> (call: String)
    requires
        i64::MIN <= auction.current_bid + auction.bid_increment <= i64::MAX,
    ensures
        call@ == fill_prices(
            voice.reaction_line(live_call_key(*auction)),
            auction.current_bid as int,
            auction.current_bid + auction.bid_increment,
        ),
{
    let phase = CallPhase::for_room(auction.remaining_ms, auction.last_bidder.is_some());
    let key = if phase == CallPhase::Twice {
        ReactionKey::Twice
    } else if phase == CallPhase::Once {
        ReactionKey::Once
    } else if auction.last_bidder == Some(BidderActor::Vendor) && auction.since_bid_ms < 2_000 {
        ReactionKey::Vendor
    } else if auction.last_bidder.is_none() {
        ReactionKey::Opening
    } else if auction.since_bid_ms < 2_500 {
        ReactionKey::PriceCall
    } else if auction.on_market_announced && (auction.since_bid_ms >= 5_000 || phase
        == CallPhase::FinalCalls) {
        ReactionKey::Selling
    } else {
        ReactionKey::Advance
    };
    fill_price_placeholders(voice.reaction(key), auction.current_bid, auction.next_bid())
}

/// In the last six seconds the auctioneer is always going once or twice,
/// whatever else is happening in the room.
pub proof fn lemma_final_seconds_call_the_hammer(auction: Auction)
    requires
        auction.remaining_ms <= 6_000,
    ensures
        live_call_key(auction) == ReactionKey::Once || live_call_key(auction)
            == ReactionKey::Twice,
{
}

} // verus!
