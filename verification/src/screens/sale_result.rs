use vstd::prelude::*;
use crate::ui::text::{has_prefix, starts_with};
use crate::ui::money::money_text;
use crate::ui::{format_money, Palette};

verus! {

/// The headline verdict on a sale's profit.
pub fn result_verdict(profit: i64) -> (text: &'static str)
    ensures
        text@ == if profit >= 45_000 {
            "Strong Exit"@
        } else if profit >= 0 {
            "Clean Exit"@
        } else if profit > -40_000 {
            "Thin Loss"@
        } else {
            "Bad Deal"@
        },
{
    if profit >= 45_000 {
        "Strong Exit"
    } else if profit >= 0 {
        "Clean Exit"
    } else if profit > -40_000 {
        "Thin Loss"
    } else {
        "Bad Deal"
    }
}

/// The colour of a sale's profit.
pub fn result_color(profit: i64) -> (color: Palette)
    ensures
        color == if profit >= 0 {
            Palette::Positive
        } else if profit > -40_000 {
            Palette::Warning
        } else {
            Palette::Negative
        },
{
    if profit >= 0 {
        Palette::Positive
    } else if profit > -40_000 {
        Palette::Warning
    } else {
        Palette::Negative
    }
}

/// Whether a line of the deal autopsy reads as a failure.
pub open spec fn autopsy_negative(text: Seq<char>) -> bool {
    has_prefix(text, "Failed"@) || has_prefix(text, "Weak"@) || has_prefix(text, "Wrong tool"@)
        || has_prefix(text, "Poor"@) || has_prefix(text, "Late"@) || has_prefix(
        text,
        "Stretched"@,
    ) || has_prefix(text, "-"@)
}

/// Whether a line of the deal autopsy reads as a caution.
pub open spec fn autopsy_caution(text: Seq<char>) -> bool {
    has_prefix(text, "Thin"@) || has_prefix(text, "Partial"@) || has_prefix(text, "Risky"@)
        || has_prefix(text, "Neutral"@) || has_prefix(text, "No reputation"@)
}

/// The colour of a line of the deal autopsy, read from how it begins.
pub fn autopsy_color(text: &str) -> (color: Palette)
    ensures
        color == if autopsy_negative(text@) {
            Palette::Negative
        } else if autopsy_caution(text@) {
            Palette::Warning
        } else {
            Palette::Positive
        },
{
    if starts_with(text, "Failed") || starts_with(text, "Weak") || starts_with(text, "Wrong tool")
        || starts_with(text, "Poor") || starts_with(text, "Late") || starts_with(
        text,
        "Stretched",
    ) || starts_with(text, "-") {
        Palette::Negative
    } else if starts_with(text, "Thin") || starts_with(text, "Partial") || starts_with(
        text,
        "Risky",
    ) || starts_with(text, "Neutral") || starts_with(text, "No reputation") {
        Palette::Warning
    } else {
        Palette::Positive
    }
}


/// The head of the sale result: whether the home sold, the price (or the
/// highest bid when it passed in) against the reserve, and what settlement
/// released.
pub struct SaleHeadline {
    pub kicker: &'static str,
    pub kicker_tone: Palette,
    pub title: &'static str,
    pub price_title: &'static str,
    pub price_text: String,
    pub reserve_note: String,
    pub release_note: String,
    pub release_tone: Palette,
}

/// The head of a sale's result: "SOLD UNDER THE HAMMER" and "Sale Settled"
/// with the sale price and the loan and fees cleared when the home sold,
/// "PASSED IN" and "Reserve Protected" with the highest bid otherwise.
pub fn sale_headline(
    sale_price: Option<i64>,
    highest_bid: i64,
    reserve_price: i64,
    debt_repaid: i64,
) -> (h: SaleHeadline)
    ensures
        h.reserve_note@ == "Reserve "@ + money_text(reserve_price as int),
        sale_price matches Some(price) ==> {
            &&& h.kicker@ == "SOLD UNDER THE HAMMER"@
            &&& h.kicker_tone == Palette::Positive
            &&& h.title@ == "Sale Settled"@
            &&& h.price_title@ == "Sale Price"@
            &&& h.price_text@ == money_text(price as int)
            &&& h.release_note@ == "After "@ + money_text(debt_repaid as int) + " loan + fees"@
            &&& h.release_tone == Palette::Positive
        },
        sale_price is None ==> {
            &&& h.kicker@ == "PASSED IN"@
            &&& h.kicker_tone == Palette::Warning
            &&& h.title@ == "Reserve Protected"@
            &&& h.price_title@ == "Highest Bid"@
            &&& h.price_text@ == money_text(highest_bid as int)
            &&& h.release_note@ == "No debt cleared"@
            &&& h.release_tone == Palette::TextDim
        },
{
    let mut reserve_note = String::from_str("Reserve ");
    let reserve = format_money(reserve_price);
    reserve_note.append(reserve.as_str());
    match sale_price {
        Some(price) => {
            let mut release_note = String::from_str("After ");
            let debt = format_money(debt_repaid);
            release_note.append(debt.as_str());
            release_note.append(" loan + fees");
            SaleHeadline {
                kicker: "SOLD UNDER THE HAMMER",
                kicker_tone: Palette::Positive,
                title: "Sale Settled",
                price_title: "Sale Price",
                price_text: format_money(price),
                reserve_note,
                release_note,
                release_tone: Palette::Positive,
            }
        },
        None => SaleHeadline {
            kicker: "PASSED IN",
            kicker_tone: Palette::Warning,
            title: "Reserve Protected",
            price_title: "Highest Bid",
            price_text: format_money(highest_bid),
            reserve_note,
            release_note: String::from_str("No debt cleared"),
            release_tone: Palette::TextDim,
        },
    }
}

} // verus!
