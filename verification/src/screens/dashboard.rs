use vstd::prelude::*;
use crate::model::player::CareerRecord;
use crate::model::property::CampaignStatus;
use crate::save::WEEKLY_AUCTION_REGISTRATIONS;
use crate::ui::money::{decimal, format_count, money_text};
use crate::ui::{format_money, Palette};

verus! {

/// A count of homes: "1 home", "3 homes".
pub fn plural_homes(count: usize) -> (text: String)
    ensures
        text@ == decimal(count as nat) + if count == 1 {
            " home"@
        } else {
            " homes"@
        },
{
    let mut text = format_count(count as u64);
    if count == 1 {
        text.append(" home");
    } else {
        text.append(" homes");
    }
    text
}

/// A dollar change with its sign: "+$1,200" or "-$800".
pub fn signed_money(amount: i64) -> (text: String)
    requires
        amount > i64::MIN,
    ensures
        text@ == if amount >= 0 {
            "+"@ + money_text(amount as int)
        } else {
            "-"@ + money_text(-amount)
        },
{
    if amount >= 0 {
        let mut text = String::from_str("+");
        let money = format_money(amount);
        text.append(money.as_str());
        text
    } else {
        let mut text = String::from_str("-");
        let money = format_money(-amount);
        text.append(money.as_str());
        text
    }
}


/// What the end-of-season screen says.
pub struct ConclusionText {
    pub title: &'static str,
    pub intro: &'static str,
    /// The notes under the three goals: homes, weekly rent and net worth.
    pub homes_note: String,
    pub rent_note: String,
    pub net_worth_note: String,
    pub advice_heading: &'static str,
    pub advice: String,
    pub tone: Palette,
}

/// The closing ledger of a season. A won season marks every goal secured and
/// the rent goal with the weekly net cashflow; a failed one names each exact
/// shortfall (a goal with no shortfall is still secured). The advice is the
/// next cycle's fix when a won portfolio still loses money each week,
/// otherwise the assessment's own priority (`priority_advice`).
pub fn conclusion_text(
    won: bool,
    homes_short: usize,
    rent_short: i64,
    net_worth_short: i64,
    weekly_cashflow: i64,
    priority_advice: &str,
) -> (t: ConclusionText)
    requires
        weekly_cashflow > i64::MIN,
    ensures
        t.title@ == if won {
            "Portfolio Established"@
        } else {
            "The Bank Closes The Campaign"@
        },
        t.intro@ == if won {
            "Three doors, dependable rent, and enough equity to keep growing: the first portfolio now works without pretending every auction was a win."@
        } else {
            "Week 24 has passed. The ledger now shows exactly what constrained this portfolio and what to change next season."@
        },
        t.homes_note@ == if won || homes_short == 0 {
            "Goal secured"@
        } else {
            "Short "@ + decimal(homes_short as nat) + if homes_short == 1 {
                " home"@
            } else {
                " homes"@
            }
        },
        t.rent_note@ == if won || rent_short == 0 {
            "Goal secured | Net "@ + (if weekly_cashflow >= 0 {
                "+"@ + money_text(weekly_cashflow as int)
            } else {
                "-"@ + money_text(-weekly_cashflow)
            }) + " / wk"@
        } else {
            "Short "@ + money_text(rent_short as int) + " / week"@
        },
        t.net_worth_note@ == if won || net_worth_short == 0 {
            "Goal secured"@
        } else {
            "Short "@ + money_text(net_worth_short as int)
        },
        t.advice_heading@ == if won && weekly_cashflow < 0 {
            "NEXT CYCLE"@
        } else if won {
            "WHAT WORKED"@
        } else {
            "BINDING CONSTRAINT"@
        },
        t.advice@ == if won && weekly_cashflow < 0 {
            "The brief is secured, but operations still lose "@ + money_text(-weekly_cashflow)
                + " each week. Pay down the worst loan, lift supported rent, or recycle a weak asset."@
        } else {
            priority_advice@
        },
        t.tone == if won {
            Palette::Positive
        } else {
            Palette::Warning
        },
{
    let homes_note = if won || homes_short == 0 {
        String::from_str("Goal secured")
    } else {
        let mut note = String::from_str("Short ");
        let homes = plural_homes(homes_short);
        note.append(homes.as_str());
        note
    };
    let rent_note = if won || rent_short == 0 {
        let mut note = String::from_str("Goal secured | Net ");
        let net = signed_money(weekly_cashflow);
        note.append(net.as_str());
        note.append(" / wk");
        note
    } else {
        let mut note = String::from_str("Short ");
        let money = format_money(rent_short);
        note.append(money.as_str());
        note.append(" / week");
        note
    };
    let net_worth_note = if won || net_worth_short == 0 {
        String::from_str("Goal secured")
    } else {
        let mut note = String::from_str("Short ");
        let money = format_money(net_worth_short);
        note.append(money.as_str());
        note
    };
    let losing = won && weekly_cashflow < 0;
    let advice = if losing {
        let mut advice = String::from_str("The brief is secured, but operations still lose ");
        let money = format_money(-weekly_cashflow);
        advice.append(money.as_str());
        advice.append(
            " each week. Pay down the worst loan, lift supported rent, or recycle a weak asset.",
        );
        advice
    } else {
        String::from_str(priority_advice)
    };
    ConclusionText {
        title: if won {
            "Portfolio Established"
        } else {
            "The Bank Closes The Campaign"
        },
        intro: if won {
            "Three doors, dependable rent, and enough equity to keep growing: the first portfolio now works without pretending every auction was a win."
        } else {
            "Week 24 has passed. The ledger now shows exactly what constrained this portfolio and what to change next season."
        },
        homes_note,
        rent_note,
        net_worth_note,
        advice_heading: if losing {
            "NEXT CYCLE"
        } else if won {
            "WHAT WORKED"
        } else {
            "BINDING CONSTRAINT"
        },
        advice,
        tone: if won {
            Palette::Positive
        } else {
            Palette::Warning
        },
    }
}

/// The last week of a season.
pub const CAMPAIGN_MAX_WEEKS: u32 = 24;

/// What a week's carrying costs came to: rent received, the total cost and its
/// parts, and any cash shortfall that was added to debt.
#[derive(Clone, Copy, Debug)]
pub struct WeeklyPressure {
    pub rental_income: i64,
    pub total: i64,
    pub holding_cost: i64,
    pub debt_interest: i64,
    pub rental_operating_cost: i64,
    pub shortfall_added_to_debt: i64,
}

/// Notes joined by single spaces.
pub open spec fn joined(notes: Seq<String>) -> Seq<char>
    decreases notes.len(),
{
    if notes.len() == 0 {
        Seq::empty()
    } else if notes.len() == 1 {
        notes[0]@
    } else {
        joined(notes.drop_last()) + " "@ + notes.last()@
    }
}

/// A labelled group of notes: nothing when there are none, otherwise the label
/// and the notes joined by spaces.
pub open spec fn note_group(label: Seq<char>, notes: Seq<String>) -> Seq<char> {
    if notes.len() == 0 {
        Seq::empty()
    } else {
        label + joined(notes)
    }
}

/// Appends `label` and the notes, joined by spaces, to `text`; nothing when
/// there are no notes.
fn append_notes(text: &mut String, label: &str, notes: &Vec<String>)
    ensures
        final(text)@ == old(text)@ + note_group(label@, notes@),
{
    if notes.len() == 0 {
        return;
    }
    let ghost start = text@ + label@;
    text.append(label);
    text.append(notes[0].as_str());
    let mut i: usize = 1;
    while i < notes.len()
        invariant
            1 <= i <= notes@.len(),
            text@ == start + joined(notes@.subrange(0, i as int)),
        decreases notes@.len() - i,
    {
        assert(notes@.subrange(0, i as int + 1).drop_last() =~= notes@.subrange(0, i as int));
        text.append(" ");
        text.append(notes[i].as_str());
        i += 1;
    }
    assert(notes@.subrange(0, notes@.len() as int) =~= notes@);
}

/// The week's rent and costs (or that there were none), and the cash
/// shortfall added to debt if there was one.
pub open spec fn pressure_note(pressure: WeeklyPressure) -> Seq<char> {
    (if pressure.total > 0 {
        "Rent "@ + money_text(pressure.rental_income as int) + ". Costs "@ + money_text(
            pressure.total as int,
        ) + " ("@ + money_text(pressure.holding_cost as int) + " property, "@ + money_text(
            pressure.debt_interest as int,
        ) + " interest, "@ + money_text(pressure.rental_operating_cost as int)
            + " management)."@
    } else {
        "No carrying costs this week."@
    }) + if pressure.shortfall_added_to_debt > 0 {
        " Cash shortfall added "@ + money_text(pressure.shortfall_added_to_debt as int)
            + " to debt."@
    } else {
        Seq::empty()
    }
}

/// Appends the week's pressure note to `text`.
fn append_pressure(text: &mut String, pressure: &WeeklyPressure)
    ensures
        final(text)@ == old(text)@ + pressure_note(*pressure),
{
    if pressure.total > 0 {
        text.append("Rent ");
        let rent = format_money(pressure.rental_income);
        text.append(rent.as_str());
        text.append(". Costs ");
        let total = format_money(pressure.total);
        text.append(total.as_str());
        text.append(" (");
        let holding = format_money(pressure.holding_cost);
        text.append(holding.as_str());
        text.append(" property, ");
        let interest = format_money(pressure.debt_interest);
        text.append(interest.as_str());
        text.append(" interest, ");
        let management = format_money(pressure.rental_operating_cost);
        text.append(management.as_str());
        text.append(" management).");
    } else {
        text.append("No carrying costs this week.");
    }
    if pressure.shortfall_added_to_debt > 0 {
        text.append(" Cash shortfall added ");
        let shortfall = format_money(pressure.shortfall_added_to_debt);
        text.append(shortfall.as_str());
        text.append(" to debt.");
    }
}

/// The status line after a week is advanced: the season's result when it was
/// won or lost, otherwise the week's market pulse: rent and costs (or no
/// carrying costs), any shortfall added to debt, the finished renovations,
/// maintenance and leasing notes, and the note on the next suburb to unlock.
pub fn week_status(
    status: CampaignStatus,
    week: u32,
    net_worth: i64,
    pressure: &WeeklyPressure,
    renovation_notes: &Vec<String>,
    maintenance_notes: &Vec<String>,
    leasing_notes: &Vec<String>,
    unlock_note: &str,
) -> (text: String)
    ensures
        text@ == match status {
            CampaignStatus::Won => "Campaign won in week "@ + decimal(week as nat) + " with "@
                + money_text(net_worth as int) + " net worth."@,
            CampaignStatus::Failed => "Campaign closed after week "@ + decimal(
                CAMPAIGN_MAX_WEEKS as nat,
            ) + ". Final net worth: "@ + money_text(net_worth as int) + "."@,
            CampaignStatus::Active => "Week "@ + decimal(week as nat) + " market pulse. "@
                + pressure_note(*pressure) + note_group(" "@, renovation_notes@) + note_group(
                " Maintenance: "@,
                maintenance_notes@,
            ) + note_group(" Leasing: "@, leasing_notes@) + " "@ + unlock_note@,
        },
{
    match status {
        CampaignStatus::Won => {
            let mut text = String::from_str("Campaign won in week ");
            let number = format_count(week as u64);
            text.append(number.as_str());
            text.append(" with ");
            let money = format_money(net_worth);
            text.append(money.as_str());
            text.append(" net worth.");
            text
        },
        CampaignStatus::Failed => {
            let mut text = String::from_str("Campaign closed after week ");
            let number = format_count(CAMPAIGN_MAX_WEEKS as u64);
            text.append(number.as_str());
            text.append(". Final net worth: ");
            let money = format_money(net_worth);
            text.append(money.as_str());
            text.append(".");
            text
        },
        CampaignStatus::Active => {
            let mut text = String::from_str("Week ");
            let number = format_count(week as u64);
            text.append(number.as_str());
            text.append(" market pulse. ");
            append_pressure(&mut text, pressure);
            append_notes(&mut text, " ", renovation_notes);
            append_notes(&mut text, " Maintenance: ", maintenance_notes);
            append_notes(&mut text, " Leasing: ", leasing_notes);
            text.append(" ");
            text.append(unlock_note);
            text
        },
    }
}

/// What advancing the week must do first: a finished season only reports its
/// result; a home whose rent review is due (`review_due`, one flag per home)
/// must be resolved first, the first such home is shown; otherwise the week
/// advances.
#[derive(Clone, Copy, Debug, PartialEq, Eq)]
pub enum WeekGate {
    SeasonOver,
    ReviewFirst(usize),
    Advance,
}

/// Decides whether the week can advance.
pub fn week_gate(season_over: bool, review_due: &Vec<bool>) -> (gate: WeekGate)
    ensures
        season_over ==> gate == WeekGate::SeasonOver,
        !season_over ==> match gate {
            WeekGate::ReviewFirst(index) => {
                &&& index < review_due@.len()
                &&& review_due@[index as int]
                &&& forall|k: int| 0 <= k < index ==> !#[trigger] review_due@[k]
            },
            WeekGate::Advance => forall|k: int|
                0 <= k < review_due@.len() ==> !#[trigger] review_due@[k],
            WeekGate::SeasonOver => false,
        },
{
    if season_over {
        return WeekGate::SeasonOver;
    }
    let mut i: usize = 0;
    while i < review_due.len()
        invariant
            !season_over,
            i <= review_due@.len(),
            forall|k: int| 0 <= k < i ==> !#[trigger] review_due@[k],
        decreases review_due@.len() - i,
    {
        if review_due[i] {
            return WeekGate::ReviewFirst(i);
        }
        i += 1;
    }
    WeekGate::Advance
}

/// The status line when a due rent review blocks the week.
pub fn review_first_status(address: &str) -> (text: String)
    ensures
        text@ == "Resolve the rent review at "@ + address@ + " before advancing the week."@,
{
    let mut text = String::from_str("Resolve the rent review at ");
    text.append(address);
    text.append(" before advancing the week.");
    text
}

/// Where the season stands on the calendar: the week, which of the market's
/// events is current, and the auction registrations left this week.
#[derive(Clone, Copy, Debug, PartialEq, Eq)]
pub struct SeasonCalendar {
    pub week: u32,
    pub market_index: usize,
    pub auction_registrations: u8,
}

/// The registrations of a week that count as restraint: at most two.
pub open spec fn restraint(unused: u8) -> u32 {
    if unused < 2 {
        unused as u32
    } else {
        2
    }
}

/// Turns the week over: the registrations left unused are recorded as
/// restraint (at most two), none are open until the new week is judged, the
/// week number rises by one and the market moves on to the next of its
/// `market_count` events, wrapping around (week `w` reads event
/// `(w - 1) % market_count`).
pub fn turn_week(calendar: &mut SeasonCalendar, career: &mut CareerRecord, market_count: usize)
    requires
        market_count > 0,
        old(calendar).week < u32::MAX,
        old(career).unused_registrations + 2 <= u32::MAX,
    ensures
        final(calendar).week == old(calendar).week + 1,
        final(calendar).market_index == old(calendar).week as int % market_count as int,
        final(calendar).auction_registrations == 0,
        *final(career) == (CareerRecord {
            unused_registrations: (old(career).unused_registrations + restraint(
                old(calendar).auction_registrations,
            )) as u32,
            ..*old(career)
        }),
{
    career.record_unused_registrations(calendar.auction_registrations);
    calendar.auction_registrations = 0;
    let finished: u32 = calendar.week;
    calendar.week = finished + 1;
    calendar.market_index = (finished as usize) % market_count;
}

/// Opens the new week's auction registrations once its standing is known: two
/// while the campaign is active, none once it is won or lost.
pub fn open_registrations(calendar: &mut SeasonCalendar, status: CampaignStatus)
    ensures
        *final(calendar) == (SeasonCalendar {
            auction_registrations: if status == CampaignStatus::Active {
                WEEKLY_AUCTION_REGISTRATIONS
            } else {
                old(calendar).auction_registrations
            },
            ..*old(calendar)
        }),
{
    match status {
        CampaignStatus::Active => {
            calendar.auction_registrations = WEEKLY_AUCTION_REGISTRATIONS;
        },
        _ => {},
    }
}

} // verus!
