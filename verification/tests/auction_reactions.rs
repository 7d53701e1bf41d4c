use auction_game::model::{
    Auction, AuctionTemperature, BidLog, Bidder, BidderActor, BidderMood, BidderType, Condition,
    DealArchetype, Property, ResearchLevel, WalkawayStyle,
};
use auction_game::sim::auction_sim::place_player_bid;
use auction_game::sim::auction_tick::{update_auction, RivalTick, RoomCall};
use auction_game::ui::auction_reactions::{behavioral_event, live_call, Reaction};
use auction_game::ui::auction_view::{AuctionVoice, ReactionKey};

fn voice() -> AuctionVoice {
    let phases = (0..6).map(|i| format!("phase {i}")).collect();
    let calls = (0..6).map(|i| vec![format!("call {i} at {{bid}}")]).collect();
    let keys = [
        (ReactionKey::Watching, "watching"),
        (ReactionKey::Calculating, "calculating"),
        (ReactionKey::Hesitant, "hesitant"),
        (ReactionKey::Frustrated, "frustrated"),
        (ReactionKey::Aggressive, "aggressive"),
        (ReactionKey::Preparing, "preparing a bid"),
        (ReactionKey::NearLimit, "near their limit"),
        (ReactionKey::Withdrawn, "withdrawn"),
        (ReactionKey::Withdrew, "{name} lowers their paddle."),
        (ReactionKey::Bid, "{name} bids after a pause."),
        (ReactionKey::QuickBid, "{name} bids at once."),
        (ReactionKey::Hesitated, "{name} hesitates."),
        (ReactionKey::Prepared, "{name} readies a paddle."),
        (ReactionKey::Twice, "Going twice."),
        (ReactionKey::Once, "Going once."),
        (ReactionKey::Vendor, "A vendor bid at {bid}."),
        (ReactionKey::Opening, "Who will open at {bid}?"),
        (ReactionKey::PriceCall, "{bid} bid. Looking for {next}."),
        (ReactionKey::Selling, "I'm selling..."),
        (ReactionKey::Advance, "Any advance on {bid}?"),
    ];
    let mut reactions = vec![String::new(); 20];
    for (key, line) in keys {
        reactions[key.index()] = line.to_string();
    }
    AuctionVoice::new(phases, calls, reactions).expect("test voice is complete")
}

fn bidder(name: &str) -> Bidder {
    Bidder {
        name: name.to_string(),
        bidder_type: BidderType::Investor,
        max_price: 1_000_000,
        aggression: 500,
        patience: 500,
        pressure_tolerance: 500,
        overbid_tendency: 100,
        reaction_timer_ms: 1_000,
        preparing_bid: false,
        bid_flash_ms: 0,
        bid_count: 0,
        heat: 35,
        mood: BidderMood::Watching,
        tell: String::new(),
        preference: String::new(),
        weakness: String::new(),
        danger: String::new(),
        rhythm: String::new(),
        active: true,
        has_logged_exit: false,
        stretch_bid_used: false,
    }
}

fn room() -> Auction {
    Auction {
        property: Property {
            id: 1,
            address: "1 Test Lane".to_string(),
            suburb: "Testville".to_string(),
            bedrooms: 3,
            bathrooms: 1,
            condition: Condition::Solid,
            land_size: 600,
            market_value: 500_000,
            guide_price: 450_000,
            reserve_price: 470_000,
            appeal: 60,
            renovation_potential: 40,
            hidden_defect_risk: 10,
            holding_cost_per_week: 120,
            buyer_demand: 60,
            deal_archetype: DealArchetype::RentalHold,
            thesis: String::new(),
            main_risk: String::new(),
            best_strategy: String::new(),
            bad_strategy: String::new(),
            notes: String::new(),
        },
        current_bid: 410_000,
        reserve_price: 470_000,
        bid_increment: 10_000,
        remaining_ms: 56_000,
        call_timer_ms: 1_000,
        since_bid_ms: 0,
        bidders: vec![bidder("Mara"), bidder("Theo"), bidder("Ines")],
        last_bidder: None,
        is_player_active: true,
        player_exit_bid: None,
        overtime_count: 0,
        status: None,
        log: vec![BidLog {
            text: "Registration confirmed.".to_string(),
            remaining_ms: 56_000,
        }],
        player_walkaway_price: 600_000,
        player_research_level: ResearchLevel::AgentPack,
        walkaway_style: WalkawayStyle::Balanced,
        temperature: AuctionTemperature::QuietRoom,
        market_heat: 50,
        jump_bid_available: true,
        player_bid_count: 0,
        on_market_announced: false,
        vendor_bid_used: true,
        last_room_read: None,
        sold_post_auction: false,
        post_auction_tested: false,
        has_started: true,
        rng_state: 7,
    }
}

#[test]
fn readable_states_distinguish_deferred_decisions_pressure_and_withdrawal() {
    let mut auction = room();
    let bidder = &mut auction.bidders[0];
    bidder.mood = BidderMood::Hesitating;
    assert_eq!(
        Reaction::for_bidder(bidder, 500_000, 10_000),
        Reaction::Hesitant
    );
    assert_eq!(
        Reaction::for_bidder(bidder, 990_000, 10_000),
        Reaction::NearLimit
    );
    bidder.mood = BidderMood::Stretching;
    assert_eq!(
        Reaction::for_bidder(bidder, 500_000, 10_000),
        Reaction::Frustrated
    );
    bidder.bid_flash_ms = 1_000;
    assert_eq!(
        Reaction::for_bidder(bidder, 500_000, 10_000),
        Reaction::Aggressive
    );
    bidder.active = false;
    assert_eq!(
        Reaction::for_bidder(bidder, 500_000, 10_000),
        Reaction::Withdrawn
    );
}

#[test]
fn reactive_calls_follow_bids_silence_reserve_and_reopened_final_calls() {
    let voice = voice();
    let mut auction = room();
    place_player_bid(&mut auction);
    assert!(live_call(&auction, &voice).contains("Looking for"));
    auction.since_bid_ms = 3_000;
    assert!(live_call(&auction, &voice).contains("Any advance"));
    auction.on_market_announced = true;
    auction.since_bid_ms = 6_000;
    assert_eq!(live_call(&auction, &voice), "I'm selling...");
    auction.remaining_ms = 5_000;
    assert_eq!(live_call(&auction, &voice), "Going once.");
    auction.remaining_ms = 2_000;
    assert_eq!(live_call(&auction, &voice), "Going twice.");
    place_player_bid(&mut auction);
    assert_eq!(auction.remaining_ms, 11_000);
    assert!(live_call(&auction, &voice).contains("Looking for"));
    assert_eq!(auction.last_bidder, Some(BidderActor::Player));
}

#[test]
fn live_calls_fill_both_prices_and_greet_the_vendor_bid() {
    let voice = voice();
    let mut auction = room();
    assert_eq!(live_call(&auction, &voice), "Who will open at $410,000?");
    place_player_bid(&mut auction);
    assert_eq!(
        live_call(&auction, &voice),
        "$420,000 bid. Looking for $430,000."
    );
    auction.last_bidder = Some(BidderActor::Vendor);
    auction.since_bid_ms = 1_000;
    assert_eq!(live_call(&auction, &voice), "A vendor bid at $420,000.");
}

#[test]
fn reaction_labels_come_from_the_voice() {
    let voice = voice();
    assert_eq!(Reaction::NearLimit.label(&voice), "near their limit");
    assert_eq!(Reaction::Preparing.label(&voice), "preparing a bid");
}

#[test]
fn a_withdrawal_is_announced_before_a_new_preparation() {
    let voice = voice();
    let mut auction = room();
    let before = auction.bidders.clone();
    auction.bidders[0].preparing_bid = true;
    auction.bidders[2].active = false;
    assert_eq!(
        behavioral_event(&before, &auction, &voice),
        Some("Ines lowers their paddle.".to_string())
    );
}

#[test]
fn a_bid_is_quick_unless_the_bidder_hesitated() {
    let voice = voice();
    let mut auction = room();
    let mut before = auction.bidders.clone();
    auction.bidders[1].bid_count = 1;
    assert_eq!(
        behavioral_event(&before, &auction, &voice),
        Some("Theo bids at once.".to_string())
    );
    before[1].mood = BidderMood::Hesitating;
    assert_eq!(
        behavioral_event(&before, &auction, &voice),
        Some("Theo bids after a pause.".to_string())
    );
}

#[test]
fn a_quiet_tick_has_no_behavioural_event() {
    let voice = voice();
    let auction = room();
    let before = auction.bidders.clone();
    assert_eq!(behavioral_event(&before, &auction, &voice), None);
    let mut hesitating = room();
    hesitating.bidders[0].mood = BidderMood::Hesitating;
    assert_eq!(
        behavioral_event(&before, &hesitating, &voice),
        Some("Mara hesitates.".to_string())
    );
}

fn solo_room() -> Auction {
    let mut auction = room();
    for bidder in &mut auction.bidders {
        bidder.active = false;
    }
    auction.bidders[0].active = true;
    auction.bidders[0].max_price = 1_000_000;
    auction
}

fn tick_for(bidder: &Bidder, ceiling: i64) -> RivalTick {
    RivalTick {
        ceiling,
        commits: true,
        hesitation_ms: 1_500,
        watching_tell: "Watches the rostrum.".to_string(),
        interested_tell: "Leans in.".to_string(),
        hesitating_tell: "Rechecks the figures.".to_string(),
        stretching_tell: "Grips the paddle.".to_string(),
        exit_tell: "Lowers the paddle for good.".to_string(),
        interested_clue: "leans toward the rostrum.".to_string(),
        hesitating_clue: "rubs their jaw.".to_string(),
        bid_amount: 0,
        bid_tell: format!("{} raises a steady paddle.", bidder.name),
        bid_reaction_ms: 2_000,
    }
}

fn tick(auction: &mut Auction) {
    let ticks: Vec<RivalTick> = auction
        .bidders
        .iter()
        .map(|bidder| {
            let mut rival = tick_for(bidder, bidder.max_price);
            rival.bid_amount = auction.current_bid + auction.bid_increment;
            rival
        })
        .collect();
    let call = RoomCall {
        next_call_ms: 2_200,
        vendor_bid: None,
    };
    update_auction(auction, 100, &ticks, call, AuctionTemperature::SteadyInterest);
}

#[test]
fn opponents_signal_a_bid_before_raising_and_the_flash_expires() {
    let mut auction = solo_room();
    let opening = auction.current_bid;
    for _ in 0..150 {
        tick(&mut auction);
        if auction.bidders[0].preparing_bid {
            break;
        }
    }
    assert!(auction.bidders[0].preparing_bid);
    assert_eq!(auction.current_bid, opening);
    assert_eq!(
        Reaction::for_bidder(
            &auction.bidders[0],
            auction.next_bid(),
            auction.bid_increment
        ),
        Reaction::Preparing
    );
    for _ in 0..12 {
        tick(&mut auction);
    }
    assert!(auction.current_bid > opening);
    assert!(!auction.bidders[0].preparing_bid);
    assert!(auction.bidders[0].bid_flash_ms > 0);
    for _ in 0..15 {
        tick(&mut auction);
    }
    assert_eq!(auction.bidders[0].bid_flash_ms, 0);
    assert_eq!(auction.bidders[0].mood, BidderMood::Watching);
}

#[test]
fn a_prepared_bid_is_rechecked_when_the_player_changes_the_price() {
    let voice = voice();
    let mut auction = solo_room();
    auction.bidders[0].bidder_type = BidderType::Investor;
    auction.bidders[0].max_price = auction.next_bid();
    auction.bidders[0].preparing_bid = true;
    auction.bidders[0].reaction_timer_ms = 50;
    let before = auction.bidders.clone();
    place_player_bid(&mut auction);
    let player_price = auction.current_bid;
    tick(&mut auction);
    assert!(!auction.bidders[0].active);
    assert!(!auction.bidders[0].preparing_bid);
    assert_eq!(auction.current_bid, player_price);
    let message = behavioral_event(&before, &auction, &voice).unwrap();
    assert!(message.contains("lowers their paddle") && !message.contains('$'));
}

#[test]
fn saves_preserve_pending_decisions_and_older_rooms_gain_safe_defaults() {
    let mut auction = solo_room();
    auction.bidders[0].preparing_bid = true;
    auction.bidders[0].reaction_timer_ms = 500;
    let mut resumed = auction.clone();
    for _ in 0..30 {
        tick(&mut auction);
        tick(&mut resumed);
    }
    assert_eq!(format!("{auction:?}"), format!("{resumed:?}"));
    assert!(auction.bidders[0].bid_count > 0);
}

#[test]
fn a_room_that_has_not_opened_or_has_finished_does_not_tick() {
    let mut lobby = solo_room();
    lobby.has_started = false;
    let before = format!("{lobby:?}");
    tick(&mut lobby);
    assert_eq!(format!("{lobby:?}"), before);
}

#[test]
fn a_tick_runs_the_clocks_and_a_long_frame_is_cut_to_a_tenth_of_a_second() {
    let mut auction = solo_room();
    auction.bidders[0].bid_flash_ms = 60;
    auction.bidders[0].reaction_timer_ms = 5_000;
    let ticks = vec![
        tick_for(&auction.bidders[0], 1_000_000),
        tick_for(&auction.bidders[1], 1_000_000),
        tick_for(&auction.bidders[2], 1_000_000),
    ];
    let call = RoomCall {
        next_call_ms: 2_000,
        vendor_bid: None,
    };
    update_auction(&mut auction, 5_000, &ticks, call, AuctionTemperature::HeatingUp);
    assert_eq!(auction.remaining_ms, 55_900);
    assert_eq!(auction.call_timer_ms, 900);
    assert_eq!(auction.since_bid_ms, 100);
    assert_eq!(auction.bidders[0].bid_flash_ms, 0);
    assert_eq!(auction.bidders[0].reaction_timer_ms, 4_900);
    assert_eq!(auction.temperature, AuctionTemperature::HeatingUp);
}

#[test]
fn a_rival_that_does_not_commit_hesitates_and_a_priced_out_rival_folds() {
    let mut auction = solo_room();
    auction.bidders[0].reaction_timer_ms = 50;
    auction.bidders[1].active = true;
    auction.bidders[1].reaction_timer_ms = 50;
    let mut first = tick_for(&auction.bidders[0], 1_000_000);
    first.commits = false;
    let second = tick_for(&auction.bidders[1], 415_000);
    let third = tick_for(&auction.bidders[2], 1_000_000);
    let call = RoomCall {
        next_call_ms: 2_000,
        vendor_bid: None,
    };
    update_auction(
        &mut auction,
        100,
        &vec![first, second, third],
        call,
        AuctionTemperature::QuietRoom,
    );
    let mara = &auction.bidders[0];
    assert_eq!(mara.mood, BidderMood::Hesitating);
    assert_eq!(mara.tell, "Rechecks the figures.");
    assert_eq!(mara.reaction_timer_ms, 1_500);
    let theo = &auction.bidders[1];
    assert!(!theo.active);
    assert_eq!(theo.mood, BidderMood::Out);
    assert_eq!(theo.tell, "Lowers the paddle for good.");
    let lines: Vec<&str> = auction.log.iter().map(|entry| entry.text.as_str()).collect();
    assert!(lines.contains(&"Theo rubs their jaw."));
    assert_eq!(lines.last(), Some(&"Theo folds at the current price."));
}

#[test]
fn the_call_declares_a_vendor_bid_only_below_reserve() {
    let mut auction = solo_room();
    auction.vendor_bid_used = false;
    auction.call_timer_ms = 50;
    auction.bidders[0].reaction_timer_ms = 5_000;
    let ticks: Vec<RivalTick> = auction
        .bidders
        .iter()
        .map(|bidder| tick_for(bidder, 1_000_000))
        .collect();
    let call = RoomCall {
        next_call_ms: 2_400,
        vendor_bid: Some(auction_game::sim::auction_tick::VendorBid {
            amount: 440_000,
            line: "A vendor bid of $440,000.".to_string(),
        }),
    };
    update_auction(&mut auction, 100, &ticks, call, AuctionTemperature::QuietRoom);
    assert_eq!(auction.current_bid, 440_000);
    assert_eq!(auction.last_bidder, Some(BidderActor::Vendor));
    assert!(auction.vendor_bid_used);
    assert_eq!(auction.call_timer_ms, 2_400);
    assert_eq!(
        auction.log.last().map(|entry| entry.text.as_str()),
        Some("A vendor bid of $440,000.")
    );

    let mut late = solo_room();
    late.vendor_bid_used = false;
    late.call_timer_ms = 50;
    late.bidders[0].reaction_timer_ms = 5_000;
    let call = RoomCall {
        next_call_ms: 2_400,
        vendor_bid: Some(auction_game::sim::auction_tick::VendorBid {
            amount: 480_000,
            line: "A vendor bid of $480,000.".to_string(),
        }),
    };
    update_auction(&mut late, 100, &ticks, call, AuctionTemperature::QuietRoom);
    assert_eq!(late.current_bid, 410_000);
    assert!(!late.vendor_bid_used);
    assert_eq!(
        late.log.last().map(|entry| entry.text.as_str()),
        Some("Still looking for a bid that meets reserve.")
    );
}

#[test]
fn the_hammer_falls_when_the_clock_runs_out() {
    let mut auction = solo_room();
    auction.remaining_ms = 80;
    auction.bidders[0].reaction_timer_ms = 5_000;
    tick(&mut auction);
    assert_eq!(auction.remaining_ms, 0);
    assert_eq!(auction.status, Some(auction_game::model::AuctionStatus::PassedIn));
    assert_eq!(
        auction.log.last().map(|entry| entry.text.as_str()),
        Some("Auction passes in below reserve.")
    );
}
