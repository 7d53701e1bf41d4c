use vstd::prelude::*;
use crate::model::property::Property;
use crate::sim::research::KnownRisk;
use crate::ui::money::decimal;
use crate::ui::money::format_count;

verus! {

/// The upside badge of a listing whose researched high value exceeds its
/// guide by `upside`.
pub fn upside_badge(upside: i64) -> (text: &'static str)
    ensures
        text@ == if upside >= 95_000 {
            "HIGH UPSIDE"@
        } else if upside >= 55_000 {
            "GOOD UPSIDE"@
        } else {
            "TIGHT DEAL"@
        },
{
    if upside >= 95_000 {
        "HIGH UPSIDE"
    } else if upside >= 55_000 {
        "GOOD UPSIDE"
    } else {
        "TIGHT DEAL"
    }
}

/// A gross yield of at least 5%: a year of rent (52 weeks) is at least a
/// twentieth of the guide (a guide below $1 counts as $1).
pub open spec fn high_yield(weekly_rent: int, guide: int) -> bool {
    weekly_rent * 52 * 20 >= if guide >= 1 {
        guide
    } else {
        1
    }
}

/// Whether a listing passes the selected filter: 1 keeps the homes whose
/// researched risk is low, 2 those with at least $70,000 of upside, 3 those
/// with a gross yield of at least 5%, 4 those guided at $500,000 or less;
/// any other filter keeps every listing.
pub fn listing_matches(
    filter: usize,
    risk: KnownRisk,
    upside: i64,
    weekly_rent: i64,
    guide: i64,
) -> (keep: bool)
    requires
        -1_000_000_000_000 <= weekly_rent <= 1_000_000_000_000,
    ensures
        keep == match filter {
            1 => risk == KnownRisk::Low,
            2 => upside >= 70_000,
            3 => high_yield(weekly_rent as int, guide as int),
            4 => guide <= 500_000,
            _ => true,
        },
{
    match filter {
        1 => risk == KnownRisk::Low,
        2 => upside >= 70_000,
        3 => {
            let price: i64 = if guide >= 1 {
                guide
            } else {
                1
            };
            weekly_rent * 1_040 >= price
        },
        4 => guide <= 500_000,
        _ => true,
    }
}

/// The line under the listings' heading: how many registrations are left this
/// week ("1 registration", "2 registrations") and the two rules of scouting.
pub fn registrations_text(registrations: u8) -> (text: String)
    ensures
        text@ == decimal(registrations as nat) + (if registrations == 1 {
            " registration"@
        } else {
            " registrations"@
        }) + " left this week. Research costs cash. Inspect before you commit."@,
{
    let mut text = format_count(registrations as u64);
    if registrations == 1 {
        text.append(" registration");
    } else {
        text.append(" registrations");
    }
    text.append(" left this week. Research costs cash. Inspect before you commit.");
    text
}

/// What an empty list of listings says: its headline, its hint, and whether
/// to add that the low-risk filter only counts researched homes.
pub fn empty_listing_text(book_empty: bool, filter: usize) -> (text: (
    &'static str,
    &'static str,
    bool,
))
    ensures
        book_empty ==> text.0@ == "The season's auction book is exhausted."@ && text.1@
            == "Tap PORTFOLIO to improve, lease, hold, or sell the homes you secured."@,
        !book_empty ==> text.0@ == "No listings match this filter."@ && text.1@
            == "Tap ALL, or advance the week to rotate the market."@,
        text.2 == (filter == 1),
{
    if book_empty {
        (
            "The season's auction book is exhausted.",
            "Tap PORTFOLIO to improve, lease, hold, or sell the homes you secured.",
            filter == 1,
        )
    } else {
        (
            "No listings match this filter.",
            "Tap ALL, or advance the week to rotate the market.",
            filter == 1,
        )
    }
}

/// The templates among the first `n` that can be listed: not owned, not
/// auctioned already, and in a suburb that is unlocked (`unlocked[i]` for the
/// template `i`), in template order.
pub open spec fn eligible_listings(
    templates: Seq<Property>,
    owned_ids: Seq<usize>,
    auctioned_ids: Seq<usize>,
    unlocked: Seq<bool>,
    n: int,
) -> Seq<Property>
    decreases n,
{
    if n <= 0 {
        Seq::empty()
    } else {
        let earlier = eligible_listings(templates, owned_ids, auctioned_ids, unlocked, n - 1);
        let template = templates[n - 1];
        if !owned_ids.contains(template.id) && !auctioned_ids.contains(template.id) && unlocked[n
            - 1] {
            earlier.push(template)
        } else {
            earlier
        }
    }
}

/// The week's auction book from the eligible homes: rotated left by one
/// place per week after the first, and at most six.
pub open spec fn weekly_book(eligible: Seq<Property>, week: int) -> Seq<Property> {
    if eligible.len() == 0 {
        eligible
    } else {
        let shift = (if week >= 1 {
            week - 1
        } else {
            0
        }) % (eligible.len() as int);
        let rotated = eligible.subrange(shift, eligible.len() as int) + eligible.subrange(0, shift);
        if rotated.len() > 6 {
            rotated.subrange(0, 6)
        } else {
            rotated
        }
    }
}

/// No eligible template is owned or already auctioned.
proof fn lemma_eligible_are_free(
    templates: Seq<Property>,
    owned_ids: Seq<usize>,
    auctioned_ids: Seq<usize>,
    unlocked: Seq<bool>,
    n: int,
)
    ensures
        forall|k: int|
            0 <= k < eligible_listings(templates, owned_ids, auctioned_ids, unlocked, n).len()
                ==> {
                let id = (#[trigger] eligible_listings(
                    templates,
                    owned_ids,
                    auctioned_ids,
                    unlocked,
                    n,
                )[k]).id;
                !owned_ids.contains(id) && !auctioned_ids.contains(id)
            },
    decreases n,
{
    if n > 0 {
        lemma_eligible_are_free(templates, owned_ids, auctioned_ids, unlocked, n - 1);
    }
}

/// The weekly auction book never offers more than six homes, and never a home
/// the player owns or has already taken to auction.
pub proof fn lemma_book_offers_only_free_homes(
    templates: Seq<Property>,
    owned_ids: Seq<usize>,
    auctioned_ids: Seq<usize>,
    unlocked: Seq<bool>,
    week: int,
)
    ensures
        ({
            let book = weekly_book(
                eligible_listings(
                    templates,
                    owned_ids,
                    auctioned_ids,
                    unlocked,
                    templates.len() as int,
                ),
                week,
            );
            &&& book.len() <= 6
            &&& forall|k: int|
                0 <= k < book.len() ==> !owned_ids.contains(#[trigger] book[k].id)
                    && !auctioned_ids.contains(book[k].id)
        }),
{
    let eligible = eligible_listings(
        templates,
        owned_ids,
        auctioned_ids,
        unlocked,
        templates.len() as int,
    );
    lemma_eligible_are_free(templates, owned_ids, auctioned_ids, unlocked, templates.len() as int);
    let book = weekly_book(eligible, week);
    if eligible.len() > 0 {
        let len = eligible.len() as int;
        let shift = (if week >= 1 {
            week - 1
        } else {
            0
        }) % len;
        let rotated = eligible.subrange(shift, len) + eligible.subrange(0, shift);
        assert forall|k: int| 0 <= k < book.len() implies !owned_ids.contains(#[trigger] book[k].id)
            && !auctioned_ids.contains(book[k].id) by {
            assert(book[k] == rotated[k]);
            if k < len - shift {
                assert(rotated[k] == eligible[shift + k]);
            } else {
                assert(rotated[k] == eligible[k - (len - shift)]);
            }
        }
    }
}

/// Whether `id` is among `ids`.
fn has_id(ids: &Vec<usize>, id: usize) -> (found: bool)
    ensures
        found == ids@.contains(id),
{
    let mut i: usize = 0;
    while i < ids.len()
        invariant
            i <= ids@.len(),
            forall|k: int| 0 <= k < i ==> #[trigger] ids@[k] != id,
        decreases ids@.len() - i,
    {
        if ids[i] == id {
            assert(ids@[i as int] == id);
            return true;
        }
        i += 1;
    }
    false
}

/// The auction book of week `week`: the homes from the templates that the
/// player does not own, has not taken to auction and may visit (`unlocked`,
/// one flag per template), rotated by the week and cut to six.
pub fn schedule_listings(
    templates: Vec<Property>,
    owned_ids: &Vec<usize>,
    auctioned_ids: &Vec<usize>,
    unlocked: &Vec<bool>,
    week: u32,
) -> (book: Vec<Property>)
    requires
        unlocked@.len() == templates@.len(),
    ensures
        book@ == weekly_book(
            eligible_listings(
                templates@,
                owned_ids@,
                auctioned_ids@,
                unlocked@,
                templates@.len() as int,
            ),
            week as int,
        ),
{
    let ghost all = templates@;
    let mut rest = templates;
    let mut eligible: Vec<Property> = Vec::new();
    let total: usize = rest.len();
    let mut i: usize = 0;
    while rest.len() > 0
        invariant
            i <= all.len(),
            all.len() == total,
            unlocked@.len() == all.len(),
            rest@ == all.subrange(i as int, all.len() as int),
            eligible@ == eligible_listings(all, owned_ids@, auctioned_ids@, unlocked@, i as int),
        decreases rest@.len(),
    {
        let template = rest.remove(0);
        assert(template == all[i as int]);
        let keep = !has_id(owned_ids, template.id) && !has_id(auctioned_ids, template.id)
            && unlocked[i];
        if keep {
            eligible.push(template);
        }
        i += 1;
        assert(rest@ =~= all.subrange(i as int, all.len() as int));
    }
    if eligible.len() == 0 {
        return eligible;
    }
    let past: u32 = if week >= 1 {
        week - 1
    } else {
        0
    };
    let shift: usize = (past as usize) % eligible.len();
    let ghost before = eligible@;
    let mut rotated = eligible.split_off(shift);
    rotated.append(&mut eligible);
    assert(rotated@ =~= before.subrange(shift as int, before.len() as int) + before.subrange(
        0,
        shift as int,
    ));
    rotated.truncate(6);
    rotated
}

} // verus!
