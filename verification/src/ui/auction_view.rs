use vstd::prelude::*;
use crate::ui::money::money_text;
use crate::ui::text::{replace, replace_all};
use crate::ui::format_money;

verus! {

/// Where the auctioneer's calls stand, from the opening to "going twice".
#[derive(Clone, Copy, Debug, PartialEq, Eq, Structural)]
pub enum CallPhase {
    Opening,
    Bidding,
    Slowing,
    FinalCalls,
    Once,
    Twice,
}

/// The call phase for the time left on the clock (in milliseconds): going
/// twice in the last 3 s, going once in the last 6 s, final calls in the last
/// 10 s, slowing in the last 18 s, and before that bidding once someone has
/// bid, else the opening.
pub open spec fn phase_for(remaining_ms: int, has_bid: bool) -> CallPhase {
    if remaining_ms <= 3_000 {
        CallPhase::Twice
    } else if remaining_ms <= 6_000 {
        CallPhase::Once
    } else if remaining_ms <= 10_000 {
        CallPhase::FinalCalls
    } else if remaining_ms <= 18_000 {
        CallPhase::Slowing
    } else if has_bid {
        CallPhase::Bidding
    } else {
        CallPhase::Opening
    }
}

/// How far the calls have escalated: 0 for the opening and bidding, up to 4
/// for going twice.
pub open spec fn escalation(phase: CallPhase) -> int {
    match phase {
        CallPhase::Opening | CallPhase::Bidding => 0,
        CallPhase::Slowing => 1,
        CallPhase::FinalCalls => 2,
        CallPhase::Once => 3,
        CallPhase::Twice => 4,
    }
}

/// Position of a phase in the voice's tables.
pub open spec fn phase_index(phase: CallPhase) -> int {
    match phase {
        CallPhase::Opening => 0,
        CallPhase::Bidding => 1,
        CallPhase::Slowing => 2,
        CallPhase::FinalCalls => 3,
        CallPhase::Once => 4,
        CallPhase::Twice => 5,
    }
}

impl CallPhase {
    /// The call phase of a room with `remaining_ms` left on its clock.
    pub fn for_room(remaining_ms: i64, has_bid: bool) -> (phase: Self)
        ensures
            phase == phase_for(remaining_ms as int, has_bid),
    {
        if remaining_ms <= 3_000 {
            Self::Twice
        } else if remaining_ms <= 6_000 {
            Self::Once
        } else if remaining_ms <= 10_000 {
            Self::FinalCalls
        } else if remaining_ms <= 18_000 {
            Self::Slowing
        } else if has_bid {
            Self::Bidding
        } else {
            Self::Opening
        }
    }

    /// Whether the precise clock should be shown: only while going once or twice.
    pub fn urgent(self) -> (urgent: bool)
        ensures
            urgent == (self == CallPhase::Once || self == CallPhase::Twice),
    {
        match self {
            Self::Once | Self::Twice => true,
            _ => false,
        }
    }

    fn index(self) -> (index: usize)
        ensures
            index == phase_index(self),
    {
        match self {
            Self::Opening => 0,
            Self::Bidding => 1,
            Self::Slowing => 2,
            Self::FinalCalls => 3,
            Self::Once => 4,
            Self::Twice => 5,
        }
    }

    /// The phase's label in the authored auction voice.
    pub fn label(self, voice: &AuctionVoice) -> (label: &str)
        ensures
            label@ == voice.phase_label(phase_index(self)),
    {
        proof {
            use_type_invariant(voice);
        }
        voice.phases[self.index()].as_str()
    }

    /// The auctioneer's line for this phase: the authored line chosen by the
    /// four-second slot of the clock, with `{bid}` and `{next}` filled with the
    /// current and next prices.
    pub fn call(self, remaining_ms: i64, bid: i64, next: i64, voice: &AuctionVoice) -> (line:
        String)
        ensures
            line@ == fill_prices(
                voice.call_line(phase_index(self), call_slot(remaining_ms as int)),
                bid as int,
                next as int,
            ),
    {
        proof {
            use_type_invariant(voice);
        }
        let lines = &voice.calls[self.index()];
        let clock: i64 = if remaining_ms < 0 {
            0
        } else {
            remaining_ms
        };
        assert(lines@.len() > 0);
        let slot = ((clock / 4_000) as u64 % lines.len() as u64) as usize;
        assert(slot == call_slot(remaining_ms as int) % (lines@.len() as int));
        let line = &lines[slot];
        assert(line@ == voice.call_line(phase_index(self), call_slot(remaining_ms as int)));
        fill_price_placeholders(line.as_str(), bid, next)
    }
}

/// The four-second slot of the clock that picks the auctioneer's line.
pub open spec fn call_slot(remaining_ms: int) -> int {
    if remaining_ms < 0 {
        0
    } else {
        remaining_ms / 4_000
    }
}

/// A template with `{bid}` and then `{next}` replaced by the two prices.
pub open spec fn fill_prices(template: Seq<char>, bid: int, next: int) -> Seq<char> {
    replace_all(replace_all(template, "{bid}"@, money_text(bid)), "{next}"@, money_text(next))
}

/// Fills the `{bid}` and `{next}` placeholders of a template.
pub fn fill_price_placeholders(template: &str, bid: i64, next: i64) -> (text: String)
    ensures
        text@ == fill_prices(template@, bid as int, next as int),
{
    proof {
        reveal_strlit("{bid}");
        reveal_strlit("{next}");
    }
    let bid_text = format_money(bid);
    let with_bid = replace(template, "{bid}", bid_text.as_str());
    let next_text = format_money(next);
    replace(with_bid.as_str(), "{next}", next_text.as_str())
}

/// The keys of the authored reaction and call lines.
#[derive(Clone, Copy, Debug, PartialEq, Eq, Structural)]
pub enum ReactionKey {
    Watching,
    Calculating,
    Hesitant,
    Frustrated,
    Aggressive,
    Preparing,
    NearLimit,
    Withdrawn,
    Withdrew,
    Bid,
    QuickBid,
    Hesitated,
    Prepared,
    Twice,
    Once,
    Vendor,
    Opening,
    PriceCall,
    Selling,
    Advance,
}

/// How many reaction keys the voice holds a line for.
pub const REACTION_KEY_COUNT: usize = 20;

/// Position of a reaction key in the voice's table.
pub open spec fn key_index(key: ReactionKey) -> int {
    match key {
        ReactionKey::Watching => 0,
        ReactionKey::Calculating => 1,
        ReactionKey::Hesitant => 2,
        ReactionKey::Frustrated => 3,
        ReactionKey::Aggressive => 4,
        ReactionKey::Preparing => 5,
        ReactionKey::NearLimit => 6,
        ReactionKey::Withdrawn => 7,
        ReactionKey::Withdrew => 8,
        ReactionKey::Bid => 9,
        ReactionKey::QuickBid => 10,
        ReactionKey::Hesitated => 11,
        ReactionKey::Prepared => 12,
        ReactionKey::Twice => 13,
        ReactionKey::Once => 14,
        ReactionKey::Vendor => 15,
        ReactionKey::Opening => 16,
        ReactionKey::PriceCall => 17,
        ReactionKey::Selling => 18,
        ReactionKey::Advance => 19,
    }
}

impl ReactionKey {
    /// The key's position in the voice's table of reaction lines.
    pub fn index(self) -> (index: usize)
        ensures
            index == key_index(self),
    {
        match self {
            ReactionKey::Watching => 0,
            ReactionKey::Calculating => 1,
            ReactionKey::Hesitant => 2,
            ReactionKey::Frustrated => 3,
            ReactionKey::Aggressive => 4,
            ReactionKey::Preparing => 5,
            ReactionKey::NearLimit => 6,
            ReactionKey::Withdrawn => 7,
            ReactionKey::Withdrew => 8,
            ReactionKey::Bid => 9,
            ReactionKey::QuickBid => 10,
            ReactionKey::Hesitated => 11,
            ReactionKey::Prepared => 12,
            ReactionKey::Twice => 13,
            ReactionKey::Once => 14,
            ReactionKey::Vendor => 15,
            ReactionKey::Opening => 16,
            ReactionKey::PriceCall => 17,
            ReactionKey::Selling => 18,
            ReactionKey::Advance => 19,
        }
    }

    /// The key under which the line is authored in the voice data.
    pub fn name(self) -> (name: &'static str)
        ensures
            name@ == match self {
                ReactionKey::Watching => "watching"@,
                ReactionKey::Calculating => "calculating"@,
                ReactionKey::Hesitant => "hesitant"@,
                ReactionKey::Frustrated => "frustrated"@,
                ReactionKey::Aggressive => "aggressive"@,
                ReactionKey::Preparing => "preparing"@,
                ReactionKey::NearLimit => "near_limit"@,
                ReactionKey::Withdrawn => "withdrawn"@,
                ReactionKey::Withdrew => "withdrew"@,
                ReactionKey::Bid => "bid"@,
                ReactionKey::QuickBid => "quick_bid"@,
                ReactionKey::Hesitated => "hesitated"@,
                ReactionKey::Prepared => "prepared"@,
                ReactionKey::Twice => "twice"@,
                ReactionKey::Once => "once"@,
                ReactionKey::Vendor => "vendor"@,
                ReactionKey::Opening => "opening"@,
                ReactionKey::PriceCall => "price_call"@,
                ReactionKey::Selling => "selling"@,
                ReactionKey::Advance => "advance"@,
            },
    {
        match self {
            ReactionKey::Watching => "watching",
            ReactionKey::Calculating => "calculating",
            ReactionKey::Hesitant => "hesitant",
            ReactionKey::Frustrated => "frustrated",
            ReactionKey::Aggressive => "aggressive",
            ReactionKey::Preparing => "preparing",
            ReactionKey::NearLimit => "near_limit",
            ReactionKey::Withdrawn => "withdrawn",
            ReactionKey::Withdrew => "withdrew",
            ReactionKey::Bid => "bid",
            ReactionKey::QuickBid => "quick_bid",
            ReactionKey::Hesitated => "hesitated",
            ReactionKey::Prepared => "prepared",
            ReactionKey::Twice => "twice",
            ReactionKey::Once => "once",
            ReactionKey::Vendor => "vendor",
            ReactionKey::Opening => "opening",
            ReactionKey::PriceCall => "price_call",
            ReactionKey::Selling => "selling",
            ReactionKey::Advance => "advance",
        }
    }
}

/// Why authored voice data was refused.
#[derive(Clone, Copy, Debug, PartialEq, Eq, Structural)]
pub enum VoiceError {
    /// Not exactly one label and one list of calls for each of the six phases,
    /// or not exactly one line for each reaction key.
    WrongShape,
    /// A phase label, a phase's list of calls, or one of its calls is empty.
    MissingText,
}

/// The authored words of the auction room: a label and a non-empty list of
/// calls for each call phase, and one line for each reaction key.
pub struct AuctionVoice {
    phases: Vec<String>,
    calls: Vec<Vec<String>>,
    reactions: Vec<String>,
}

/// Whether the phase labels and calls have the shape and content the room
/// needs: six non-empty labels, and six non-empty lists of non-empty calls.
pub open spec fn voice_text_complete(phases: Seq<String>, calls: Seq<Vec<String>>) -> bool {
    &&& phases.len() == 6
    &&& calls.len() == 6
    &&& forall|i: int| 0 <= i < 6 ==> #[trigger] phases[i]@.len() > 0
    &&& forall|i: int| 0 <= i < 6 ==> #[trigger] calls[i]@.len() > 0
    &&& forall|i: int, j: int|
        0 <= i < 6 && 0 <= j < calls[i]@.len() ==> #[trigger] calls[i]@[j]@.len() > 0
}

impl AuctionVoice {
    #[verifier::type_invariant]
    spec fn well_formed(self) -> bool {
        &&& voice_text_complete(self.phases@, self.calls@)
        &&& self.reactions@.len() == REACTION_KEY_COUNT
    }

    /// The label of the phase at `index`.
    pub closed spec fn phase_label(&self, index: int) -> Seq<char> {
        self.phases@[index]@
    }

    /// How many calls are authored for the phase at `index`.
    pub closed spec fn call_count(&self, index: int) -> int {
        self.calls@[index]@.len() as int
    }

    /// The call of the phase at `index` that the clock slot `slot` picks.
    pub closed spec fn call_line(&self, index: int, slot: int) -> Seq<char> {
        let lines = self.calls@[index]@;
        lines[slot % (lines.len() as int)]@
    }

    /// The line authored for a reaction key.
    pub closed spec fn reaction_line(&self, key: ReactionKey) -> Seq<char> {
        self.reactions@[key_index(key)]@
    }

    /// Checks authored voice data and accepts it when it is complete.
    /// `reactions` holds the line of each reaction key at the key's index.
    pub fn new(phases: Vec<String>, calls: Vec<Vec<String>>, reactions: Vec<String>) -> (voice:
        Result<AuctionVoice, VoiceError>)
        ensures
            match voice {
                Ok(voice) => {
                    &&& voice_text_complete(phases@, calls@)
                    &&& reactions@.len() == REACTION_KEY_COUNT
                    &&& forall|i: int| 0 <= i < 6 ==> #[trigger] voice.phase_label(i) == phases@[i]@
                    &&& forall|i: int| 0 <= i < 6 ==> #[trigger] voice.call_count(i) == calls@[i]@.len()
                    &&& forall|i: int, slot: int|
                        0 <= i < 6 ==> #[trigger] voice.call_line(i, slot) == calls@[i]@[slot
                            % (calls@[i]@.len() as int)]@
                    &&& forall|key: ReactionKey| #[trigger] voice.reaction_line(key)
                        == reactions@[key_index(key)]@
                },
                Err(VoiceError::WrongShape) => phases@.len() != 6 || calls@.len() != 6
                    || reactions@.len() != REACTION_KEY_COUNT,
                Err(VoiceError::MissingText) => {
                    &&& phases@.len() == 6
                    &&& calls@.len() == 6
                    &&& reactions@.len() == REACTION_KEY_COUNT
                    &&& !voice_text_complete(phases@, calls@)
                },
            },
    {
        if phases.len() != 6 || calls.len() != 6 || reactions.len() != REACTION_KEY_COUNT {
            return Err(VoiceError::WrongShape);
        }
        let mut i: usize = 0;
        while i < 6
            invariant
                phases@.len() == 6,
                calls@.len() == 6,
                reactions@.len() == REACTION_KEY_COUNT,
                i <= 6,
                forall|k: int| 0 <= k < i ==> #[trigger] phases@[k]@.len() > 0,
                forall|k: int| 0 <= k < i ==> #[trigger] calls@[k]@.len() > 0,
                forall|k: int, j: int|
                    0 <= k < i && 0 <= j < calls@[k]@.len() ==> #[trigger] calls@[k]@[j]@.len()
                        > 0,
            decreases 6 - i,
        {
            if phases[i].as_str().unicode_len() == 0 {
                assert(phases@[i as int]@.len() == 0);
                return Err(VoiceError::MissingText);
            }
            let lines = &calls[i];
            if lines.len() == 0 {
                assert(calls@[i as int]@.len() == 0);
                return Err(VoiceError::MissingText);
            }
            let mut j: usize = 0;
            while j < lines.len()
                invariant
                    phases@.len() == 6,
                    calls@.len() == 6,
                    reactions@.len() == REACTION_KEY_COUNT,
                    0 <= i < 6,
                    lines@ == calls@[i as int]@,
                    j <= lines@.len(),
                    forall|m: int| 0 <= m < j ==> #[trigger] lines@[m]@.len() > 0,
                decreases lines@.len() - j,
            {
                if lines[j].as_str().unicode_len() == 0 {
                    assert(calls@[i as int]@[j as int]@.len() == 0);
                    return Err(VoiceError::MissingText);
                }
                j += 1;
            }
            i += 1;
        }
        Ok(AuctionVoice { phases, calls, reactions })
    }

    /// The authored line for a reaction key.
    pub fn reaction(&self, key: ReactionKey) -> (line: &str)
        ensures
            line@ == self.reaction_line(key),
    {
        proof {
            use_type_invariant(self);
        }
        self.reactions[key.index()].as_str()
    }
}

/// The bounds of the bid-pressure rail: the half of the lowest reference
/// price, floored at zero, to one eighth above the highest.
pub struct BidPressure {
    pub low: i64,
    pub high: i64,
}

/// The smaller of two prices.
pub open spec fn lesser(a: int, b: int) -> int {
    if a < b {
        a
    } else {
        b
    }
}

/// The larger of two prices.
pub open spec fn greater(a: int, b: int) -> int {
    if a > b {
        a
    } else {
        b
    }
}

/// The low end of the rail for the four reference prices: half the lowest of
/// them, floored at zero.
pub open spec fn pressure_low(guide: int, estimate: int, limit: int, bid: int) -> int {
    greater(lesser(lesser(lesser(guide, estimate), limit), bid), 0) / 2
}

/// The high end of the rail: the highest reference price (at least 1) plus an
/// eighth, saturating at the largest price, and always above the low end.
pub open spec fn pressure_high(guide: int, estimate: int, limit: int, bid: int) -> int {
    let ceiling = greater(greater(greater(greater(guide, estimate), limit), bid), 1);
    let raised = lesser(ceiling + ceiling / 8, 0x7fff_ffff_ffff_ffff);
    greater(raised, pressure_low(guide, estimate, limit, bid) + 1)
}

/// Where a price sits on the rail, as an exact fraction of its length: zero at
/// or below the low end, one at or above the high end.
pub open spec fn rail_position(low: int, high: int, price: int) -> (int, int) {
    if price <= low {
        (0, high - low)
    } else if price >= high {
        (high - low, high - low)
    } else {
        (price - low, high - low)
    }
}

impl BidPressure {
    /// A rail spanning the guide, the estimate, the player's limit and the bid.
    pub fn new(guide: i64, estimate: i64, limit: i64, bid: i64) -> (scale: Self)
        ensures
            scale.low == pressure_low(guide as int, estimate as int, limit as int, bid as int),
            scale.high == pressure_high(guide as int, estimate as int, limit as int, bid as int),
            0 <= scale.low < scale.high,
    {
        let lowest = if guide < estimate { guide } else { estimate };
        let lowest = if lowest < limit { lowest } else { limit };
        let lowest = if lowest < bid { lowest } else { bid };
        let low = (if lowest > 0 { lowest } else { 0 }) / 2;
        assert(low == pressure_low(guide as int, estimate as int, limit as int, bid as int));
        let highest = if guide > estimate { guide } else { estimate };
        let highest = if highest > limit { highest } else { limit };
        let highest = if highest > bid { highest } else { bid };
        let ceiling = if highest > 1 { highest } else { 1 };
        assert(ceiling == greater(greater(greater(greater(guide as int, estimate as int), limit as int), bid as int), 1));
        let raised = if ceiling > i64::MAX - ceiling / 8 {
            i64::MAX
        } else {
            ceiling + ceiling / 8
        };
        let floor = low + 1;
        let high = if raised > floor { raised } else { floor };
        BidPressure { low, high }
    }

    /// Where `price` sits on the rail, as `(numerator, denominator)` of a
    /// fraction between zero and one.
    pub fn position(&self, price: i64) -> (fraction: (u64, u64))
        requires
            0 <= self.low < self.high,
        ensures
            fraction.0 == rail_position(self.low as int, self.high as int, price as int).0,
            fraction.1 == rail_position(self.low as int, self.high as int, price as int).1,
            0 < fraction.1,
            fraction.0 <= fraction.1,
    {
        let span = (self.high - self.low) as u64;
        if price <= self.low {
            (0, span)
        } else if price >= self.high {
            (span, span)
        } else {
            ((price - self.low) as u64, span)
        }
    }
}

/// The rail keeps the order of prices: a lower price never sits further along.
pub proof fn lemma_rail_preserves_price_order(low: int, high: int, lower: int, higher: int)
    requires
        low < high,
        lower <= higher,
    ensures
        rail_position(low, high, lower).0 <= rail_position(low, high, higher).0,
        rail_position(low, high, lower).1 == rail_position(low, high, higher).1,
{
}

/// Every rail, even one built from degenerate or extreme saved prices, sits
/// inside the price range, puts a negative price at its start and the largest
/// price at its end.
pub proof fn lemma_rail_survives_extreme_prices(guide: i64, estimate: i64, limit: i64, bid: i64)
    ensures
        ({
            let low = pressure_low(guide as int, estimate as int, limit as int, bid as int);
            let high = pressure_high(guide as int, estimate as int, limit as int, bid as int);
            &&& 0 <= low < high <= i64::MAX
            &&& rail_position(low, high, -1).0 == 0
            &&& rail_position(low, high, i64::MAX as int).0 == rail_position(
                low,
                high,
                i64::MAX as int,
            ).1
        }),
{
}

/// Calls only escalate as the clock runs down: less time left never means a
/// calmer phase.
pub proof fn lemma_calls_escalate(later_ms: int, earlier_ms: int, has_bid: bool, had_bid: bool)
    requires
        later_ms <= earlier_ms,
    ensures
        escalation(phase_for(earlier_ms, had_bid)) <= escalation(phase_for(later_ms, has_bid)),
{
}

/// The precise clock is shown exactly in the last six seconds, whether or not
/// anyone has bid.
pub proof fn lemma_urgent_only_in_last_six_seconds(remaining_ms: int, has_bid: bool)
    ensures
        (phase_for(remaining_ms, has_bid) == CallPhase::Once || phase_for(remaining_ms, has_bid)
            == CallPhase::Twice) <==> remaining_ms <= 6_000,
{
}

} // verus!
