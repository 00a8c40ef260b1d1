//! The lifecycles of the mutable records across whole command traces.
//!
//! Each handler's contract pins one step; the lemmas here chain those steps
//! and state what holds of a campaign, a contributor, and a creator after
//! any sequence of successful commands.
use vstd::prelude::*;
use crate::states::{
    campaign_after_donate, campaign_after_withdraw, contributor_after_donate,
    creator_after_create, creator_after_withdraw, ContributorData, CreatorData, DonationData,
};

verus! {

/// One event in a campaign's life: a successful donation of `amount` in the
/// campaign's own mint, or the one successful withdrawal.
#[derive(Clone, Copy, PartialEq, Eq, Structural, Debug)]
pub enum CampaignEvent {
    Donate { amount: u64 },
    Withdraw,
}

/// One step of a campaign and its escrow balance, exactly as the donate and
/// withdraw handlers change them on success: a donation requires an open
/// campaign and a positive amount and moves the amount into the escrow; the
/// withdrawal requires an open campaign, drains the received total, and
/// closes it.
pub open spec fn campaign_step(
    c: DonationData,
    escrow: nat,
    e: CampaignEvent,
) -> Option<(DonationData, nat)> {
    match e {
        CampaignEvent::Donate { amount } => if !c.is_closed && amount > 0
            && c.total_amount_received + amount <= u64::MAX {
            Some((campaign_after_donate(c, amount), (escrow + amount) as nat))
        } else {
            None
        },
        CampaignEvent::Withdraw => if !c.is_closed && escrow >= c.total_amount_received {
            Some((campaign_after_withdraw(c), (escrow - c.total_amount_received) as nat))
        } else {
            None
        },
    }
}

/// A campaign run through a sequence of events; `None` as soon as one fails.
pub open spec fn campaign_run(c: DonationData, escrow: nat, events: Seq<CampaignEvent>) -> Option<
    (DonationData, nat),
>
    decreases events.len(),
{
    if events.len() == 0 {
        Some((c, escrow))
    } else {
        match campaign_step(c, escrow, events[0]) {
            Some(p) => campaign_run(p.0, p.1, events.drop_first()),
            None => None,
        }
    }
}

/// The sum of the donated amounts in a trace.
pub open spec fn donated_sum(events: Seq<CampaignEvent>) -> int
    decreases events.len(),
{
    if events.len() == 0 {
        0
    } else {
        (match events[0] {
            CampaignEvent::Donate { amount } => amount as int,
            CampaignEvent::Withdraw => 0,
        }) + donated_sum(events.drop_first())
    }
}

/// Across any trace of donations and withdrawals: the received total grows
/// by exactly the sum of the donated amounts; the escrow holds the open
/// campaign's total and is empty once it is closed — tokens are neither
/// created nor lost; and a closed campaign never reopens.
pub proof fn lemma_campaign_trace(c: DonationData, escrow: nat, events: Seq<CampaignEvent>)
    requires
        campaign_run(c, escrow, events) is Some,
        escrow == if c.is_closed {
            0nat
        } else {
            c.total_amount_received as nat
        },
    ensures
        ({
            let p = campaign_run(c, escrow, events)->Some_0;
            &&& p.0.total_amount_received == c.total_amount_received + donated_sum(events)
            &&& p.1 == if p.0.is_closed {
                0nat
            } else {
                p.0.total_amount_received as nat
            }
            &&& (c.is_closed ==> p.0.is_closed)
            &&& (c.is_closed ==> events.len() == 0 || !(events[0] is Donate))
        }),
    decreases events.len(),
{
    if events.len() > 0 {
        let step = campaign_step(c, escrow, events[0]);
        let p = step->Some_0;
        lemma_campaign_trace(p.0, p.1, events.drop_first());
    }
}

/// A closed campaign is terminal: no step from it succeeds — in
/// particular no donation — so `is_closed` moves from false to true at
/// most once in any run.
pub proof fn lemma_closed_is_terminal(c: DonationData, escrow: nat, e: CampaignEvent)
    requires
        c.is_closed,
    ensures
        campaign_step(c, escrow, e) is None,
{
}

/// One successful donation as the contributor's record sees it: its value
/// in default-mint units, and the reward it earned.
#[derive(Clone, Copy, PartialEq, Eq, Structural, Debug)]
pub struct ContributorEvent {
    /// The donation's value in default-mint units.
    pub converted: u64,
    /// The reward paid, in reward-mint units.
    pub reward: u64,
}

/// A contributor run through a sequence of successful donations.
pub open spec fn contributor_run(k: ContributorData, events: Seq<ContributorEvent>) -> Option<
    ContributorData,
>
    decreases events.len(),
{
    if events.len() == 0 {
        Some(k)
    } else if k.total_amount_donated + events[0].converted <= u64::MAX && k.total_amount_earned
        + events[0].reward <= u64::MAX && k.donations_count + 1 <= u64::MAX {
        contributor_run(
            contributor_after_donate(k, events[0].converted, events[0].reward),
            events.drop_first(),
        )
    } else {
        None
    }
}

/// The sum of the donations' default-mint values in a trace.
pub open spec fn converted_sum(events: Seq<ContributorEvent>) -> int
    decreases events.len(),
{
    if events.len() == 0 {
        0
    } else {
        events[0].converted + converted_sum(events.drop_first())
    }
}

/// The sum of the rewards in a trace.
pub open spec fn reward_sum(events: Seq<ContributorEvent>) -> int
    decreases events.len(),
{
    if events.len() == 0 {
        0
    } else {
        events[0].reward + reward_sum(events.drop_first())
    }
}

/// Across any trace of successful donations: the contributor's count grows
/// by the number of donations, the donated total by the sum of their
/// default-mint values, and the earned total by the sum of the rewards.
pub proof fn lemma_contributor_trace(k: ContributorData, events: Seq<ContributorEvent>)
    requires
        contributor_run(k, events) is Some,
    ensures
        ({
            let k2 = contributor_run(k, events)->Some_0;
            &&& k2.donations_count == k.donations_count + events.len()
            &&& k2.total_amount_donated == k.total_amount_donated + converted_sum(events)
            &&& k2.total_amount_earned == k.total_amount_earned + reward_sum(events)
            &&& k2.donation_protocol == k.donation_protocol
            &&& k2.bump == k.bump
        }),
    decreases events.len(),
{
    if events.len() > 0 {
        lemma_contributor_trace(
            contributor_after_donate(k, events[0].converted, events[0].reward),
            events.drop_first(),
        );
    }
}

/// One event in a creator's life: creating a campaign with a default-mint
/// target, or one of this creator's open campaigns being withdrawn.
#[derive(Clone, Copy, PartialEq, Eq, Structural, Debug)]
pub enum CreatorEvent {
    Create { target: u64 },
    Close { payout: u64 },
}

/// One step of a creator's aggregate together with the number of its open
/// campaigns. A close consumes an open campaign: the withdraw handler only
/// succeeds on an open campaign whose record names this creator.
pub open spec fn creator_step(g: CreatorData, open: nat, e: CreatorEvent) -> Option<
    (CreatorData, nat),
> {
    match e {
        CreatorEvent::Create { target } => if g.total_amount_collecting + target <= u64::MAX
            && g.donations_created_count + 1 <= u64::MAX {
            Some((creator_after_create(g, target), (open + 1) as nat))
        } else {
            None
        },
        CreatorEvent::Close { payout } => if open >= 1 && g.total_amount_received + payout
            <= u64::MAX && g.donations_closed_count + 1 <= u64::MAX {
            Some((creator_after_withdraw(g, payout), (open - 1) as nat))
        } else {
            None
        },
    }
}

/// A creator run through a sequence of events.
pub open spec fn creator_run(g: CreatorData, open: nat, events: Seq<CreatorEvent>) -> Option<
    (CreatorData, nat),
>
    decreases events.len(),
{
    if events.len() == 0 {
        Some((g, open))
    } else {
        match creator_step(g, open, events[0]) {
            Some(p) => creator_run(p.0, p.1, events.drop_first()),
            None => None,
        }
    }
}

/// Across any trace of creations and closes: the number of open campaigns
/// accounts exactly for the difference of the two counters. Started from a
/// fresh record, a creator therefore never closes more campaigns than it
/// created: `donations_closed_count <= donations_created_count`.
pub proof fn lemma_creator_trace(g: CreatorData, open: nat, events: Seq<CreatorEvent>)
    requires
        creator_run(g, open, events) is Some,
        g.donations_closed_count + open == g.donations_created_count,
    ensures
        ({
            let p = creator_run(g, open, events)->Some_0;
            &&& p.0.donations_closed_count + p.1 == p.0.donations_created_count
            &&& p.0.donations_closed_count <= p.0.donations_created_count
        }),
    decreases events.len(),
{
    if events.len() > 0 {
        let p = creator_step(g, open, events[0])->Some_0;
        lemma_creator_trace(p.0, p.1, events.drop_first());
    }
}

} // verus!
