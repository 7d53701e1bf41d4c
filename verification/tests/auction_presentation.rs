use auction_game::ui::auction_view::{AuctionVoice, BidPressure, CallPhase, VoiceError};

fn voice() -> AuctionVoice {
    let phases = ["Opening", "Bidding", "Slowing", "Final calls", "Going once", "Going twice"]
        .iter()
        .map(|label| label.to_string())
        .collect();
    let calls = vec![
        vec!["Who will start me at {bid}?".to_string()],
        vec!["I have {bid}. Looking for {next}.".to_string(), "At {bid}.".to_string()],
        vec!["Slowing at {bid}; {next} anyone?".to_string()],
        vec!["Final calls at {bid}.".to_string()],
        vec!["Going once at {bid}.".to_string()],
        vec!["Going twice at {bid}.".to_string()],
    ];
    let reactions = (0..20).map(|i| format!("reaction {i}")).collect();
    AuctionVoice::new(phases, calls, reactions).expect("test voice is complete")
}

#[test]
fn calls_escalate_without_requiring_a_leading_bidder() {
    let cases = [
        (40_000, CallPhase::Opening),
        (18_000, CallPhase::Slowing),
        (10_000, CallPhase::FinalCalls),
        (6_000, CallPhase::Once),
        (3_000, CallPhase::Twice),
        (0, CallPhase::Twice),
    ];
    for (remaining_ms, expected) in cases {
        assert_eq!(CallPhase::for_room(remaining_ms, false), expected);
    }
    assert_eq!(CallPhase::for_room(40_000, true), CallPhase::Bidding);
}

#[test]
fn a_late_bid_reopens_the_call_and_hides_the_urgent_clock() {
    assert!(CallPhase::for_room(2_000, true).urgent());
    assert!(!CallPhase::for_room(11_000, true).urgent());
    assert!(!CallPhase::for_room(7_000, true).urgent());
}

#[test]
fn risk_scale_preserves_price_order_even_when_the_estimate_is_beyond_the_limit() {
    for (estimate, limit, bid) in [
        (600_000, 550_000, 500_000),
        (500_000, 600_000, 610_000),
        (550_000, 550_000, 550_000),
    ] {
        let scale = BidPressure::new(450_000, estimate, limit, bid);
        let mut prices = [estimate, limit, bid];
        prices.sort();
        let positions = prices.map(|price| scale.position(price));
        assert!(positions[0].0 <= positions[1].0 && positions[1].0 <= positions[2].0);
        assert!(positions
            .into_iter()
            .all(|(numerator, denominator)| denominator > 0 && numerator <= denominator));
    }
}

#[test]
fn risk_scale_survives_degenerate_and_extreme_saved_values() {
    for amount in [0, 1, -1, i64::MAX] {
        let scale = BidPressure::new(amount, amount, amount, amount);
        let (numerator, denominator) = scale.position(amount);
        assert!(denominator > 0 && (numerator as f64 / denominator as f64).is_finite());
        assert_eq!(scale.position(-1).0, 0);
        let (top, span) = scale.position(i64::MAX);
        assert_eq!(top, span);
    }
}

#[test]
fn authored_calls_cover_every_phase_and_resolve_price_placeholders() {
    let voice = voice();
    for remaining_ms in [40_000, 25_000, 18_000, 10_000, 6_000, 3_000] {
        let phase = CallPhase::for_room(remaining_ms, remaining_ms < 40_000);
        assert!(!phase.label(&voice).is_empty());
        let call = phase.call(remaining_ms, 450_000, 460_000, &voice);
        assert!(!call.is_empty() && !call.contains('{'));
    }
}

#[test]
fn the_call_line_rotates_every_four_seconds() {
    let voice = voice();
    assert_eq!(
        CallPhase::Bidding.call(20_000, 450_000, 460_000, &voice),
        "At $450,000."
    );
    assert_eq!(
        CallPhase::Bidding.call(24_000, 450_000, 460_000, &voice),
        "I have $450,000. Looking for $460,000."
    );
    assert_eq!(CallPhase::Twice.label(&voice), "Going twice");
}

#[test]
fn the_rail_spans_half_the_lowest_to_an_eighth_above_the_highest() {
    let scale = BidPressure::new(450_000, 600_000, 550_000, 500_000);
    assert_eq!(scale.low, 225_000);
    assert_eq!(scale.high, 675_000);
    assert_eq!(scale.position(450_000), (225_000, 450_000));
    let saturated = BidPressure::new(0, 0, 0, i64::MAX);
    assert_eq!(saturated.high, i64::MAX);
}

#[test]
fn incomplete_voice_data_is_refused() {
    let phases: Vec<String> = (0..6).map(|i| format!("phase {i}")).collect();
    let reactions: Vec<String> = (0..20).map(|i| format!("reaction {i}")).collect();
    let mut calls: Vec<Vec<String>> = (0..6).map(|_| vec!["call".to_string()]).collect();
    calls[3].clear();
    assert_eq!(
        AuctionVoice::new(phases.clone(), calls, reactions.clone()).err(),
        Some(VoiceError::MissingText)
    );
    let calls: Vec<Vec<String>> = (0..5).map(|_| vec!["call".to_string()]).collect();
    assert_eq!(
        AuctionVoice::new(phases, calls, reactions).err(),
        Some(VoiceError::WrongShape)
    );
}
