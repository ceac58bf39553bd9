//! The broadcast engine: fan-out plan and delivery accounting.
//!
//! A broadcast round streams every user record, attempts one delivery per
//! (user, recorded mirror token) pair, and afterwards flags every token
//! that reached nobody as inactive.  The deliveries themselves are outside
//! calls; their outcomes come back as one boolean per planned pair, and
//! the accounting is verified for every combination of outcomes.

use vstd::prelude::*;

use crate::registry::{BotRegistry, UserRegistry};
use crate::structs::BotV;

verus! {

/// Ghost view of a [`Delivery`].
#[verifier::ext_equal]
pub ghost struct DeliveryV {
    pub user_id: u64,
    pub token: Seq<char>,
}

/// One planned delivery: one message to `user_id` through the mirror
/// bound to `token`.
pub struct Delivery {
    pub user_id: u64,
    pub token: String,
}

impl View for Delivery {
    type V = DeliveryV;

    open spec fn view(&self) -> DeliveryV {
        DeliveryV { user_id: self.user_id, token: self.token@ }
    }
}

/// The deliveries one user record calls for: one per recorded mirror.
pub open spec fn user_deliveries(u: crate::structs::UserV) -> Seq<DeliveryV> {
    u.active_in.map_values(|t: Seq<char>| DeliveryV { user_id: u.user_id, token: t })
}

/// The full fan-out plan: the users' deliveries in registry order, so
/// each (user, token) pair is attempted exactly once.
pub open spec fn plan_of(users: Seq<crate::structs::UserV>) -> Seq<DeliveryV>
    decreases users.len(),
{
    if users.len() == 0 {
        Seq::empty()
    } else {
        plan_of(users.drop_last()) + user_deliveries(users.last())
    }
}

/// Builds the fan-out plan of a broadcast round over every user record,
/// inactive users included.
pub fn broadcast_plan(users: &UserRegistry) -> (r: Vec<Delivery>)
    ensures
        r@.map_values(|d: Delivery| d@) == plan_of(users@),
{
    let n = users.users.len();
    let mut r: Vec<Delivery> = Vec::new();
    let mut i: usize = 0;
    proof {
        assert(r@.map_values(|d: Delivery| d@) =~= plan_of(users@.take(0)));
    }
    while i < n
        invariant
            n == users.users@.len(),
            i <= n,
            r@.map_values(|d: Delivery| d@) == plan_of(users@.take(i as int)),
        decreases n - i,
    {
        let m = users.users[i].active_in.len();
        let mut k: usize = 0;
        while k < m
            invariant
                n == users.users@.len(),
                i < n,
                m == users.users@[i as int].active_in@.len(),
                k <= m,
                r@.map_values(|d: Delivery| d@) == plan_of(users@.take(i as int))
                    + user_deliveries(users@[i as int]).take(k as int),
            decreases m - k,
        {
            let ghost rv = r@.map_values(|x: Delivery| x@);
            let d = Delivery {
                user_id: users.users[i].user_id,
                token: users.users[i].active_in[k].clone(),
            };
            proof {
                assert(users@[i as int] == users.users@[i as int]@);
                assert(users@[i as int].active_in[k as int] == users.users@[
                    i as int
                ].active_in@[k as int]@);
                assert(d@ =~~= user_deliveries(users@[i as int])[k as int]);
            }
            r.push(d);
            proof {
                assert(r@.map_values(|x: Delivery| x@) =~= rv.push(d@));
                assert(user_deliveries(users@[i as int]).take(k + 1) =~= user_deliveries(
                    users@[i as int],
                ).take(k as int).push(user_deliveries(users@[i as int])[k as int]));
                assert(rv.push(d@) =~= plan_of(users@.take(i as int)) + user_deliveries(
                    users@[i as int],
                ).take(k + 1));
            }
            k = k + 1;
        }
        proof {
            assert(user_deliveries(users@[i as int]).take(m as int) =~= user_deliveries(
                users@[i as int],
            ));
            assert(users@.take(i + 1).drop_last() =~= users@.take(i as int));
            assert(users@.take(i + 1).last() == users@[i as int]);
            assert(r@.map_values(|x: Delivery| x@) =~~= plan_of(users@.take(i + 1)));
        }
        i = i + 1;
    }
    proof {
        assert(users@.take(n as int) =~= users@);
    }
    r
}

/// Some planned delivery goes through this token.
pub open spec fn token_planned(plan: Seq<DeliveryV>, t: Seq<char>) -> bool {
    exists|k: int| 0 <= k < plan.len() && plan[k].token == t
}

/// Some planned delivery through this token succeeded.
pub open spec fn token_delivered(plan: Seq<DeliveryV>, outcomes: Seq<bool>, t: Seq<char>) -> bool {
    exists|k: int| 0 <= k < plan.len() && plan[k].token == t && outcomes[k]
}

/// The per-token counter of one broadcast round: how many planned
/// deliveries through this token succeeded.
pub open spec fn successes(plan: Seq<DeliveryV>, outcomes: Seq<bool>, t: Seq<char>) -> nat
    decreases plan.len(),
{
    if plan.len() == 0 {
        0
    } else {
        successes(plan.drop_last(), outcomes.take(plan.len() - 1), t) + (
        if plan.last().token == t && outcomes[plan.len() - 1] {
            1nat
        } else {
            0nat
        })
    }
}

/// A token reached somebody exactly when its success counter is not zero.
pub proof fn lemma_delivered_iff_counted(plan: Seq<DeliveryV>, outcomes: Seq<bool>, t: Seq<char>)
    requires
        plan.len() == outcomes.len(),
    ensures
        token_delivered(plan, outcomes, t) <==> successes(plan, outcomes, t) > 0,
    decreases plan.len(),
{
    if plan.len() > 0 {
        let p = plan.drop_last();
        let o = outcomes.take(plan.len() - 1);
        lemma_delivered_iff_counted(p, o, t);
        if token_delivered(plan, outcomes, t) {
            let k = choose|k: int| 0 <= k < plan.len() && plan[k].token == t && outcomes[k];
            if k < plan.len() - 1 {
                assert(p[k].token == t && o[k]);
            }
        }
        if token_delivered(p, o, t) {
            let k = choose|k: int| 0 <= k < p.len() && p[k].token == t && o[k];
            assert(plan[k].token == t && outcomes[k]);
        }
    }
}

/// The bot registry after the accounting of one broadcast round: every
/// token that was planned and delivered to nobody is flagged inactive;
/// every other record is left unchanged.
pub open spec fn account_of(
    bots: Seq<BotV>,
    plan: Seq<DeliveryV>,
    outcomes: Seq<bool>,
) -> Seq<BotV> {
    bots.map(
        |i: int, b: BotV|
            if token_planned(plan, b.token) && !token_delivered(plan, outcomes, b.token) {
                BotV { is_active: false, ..b }
            } else {
                b
            },
    )
}

/// Scans a plan and its outcomes for one token.
fn scan_token(plan: &Vec<Delivery>, outcomes: &Vec<bool>, t: &String) -> (r: (bool, bool))
    requires
        plan@.len() == outcomes@.len(),
    ensures
        r.0 == token_planned(plan@.map_values(|d: Delivery| d@), t@),
        r.1 == token_delivered(plan@.map_values(|d: Delivery| d@), outcomes@, t@),
{
    let ghost planv = plan@.map_values(|d: Delivery| d@);
    let n = plan.len();
    let mut planned = false;
    let mut delivered = false;
    let mut k: usize = 0;
    while k < n
        invariant
            n == plan@.len(),
            outcomes@.len() == plan@.len(),
            planv == plan@.map_values(|d: Delivery| d@),
            k <= n,
            planned == exists|j: int| 0 <= j < k && (#[trigger] planv[j]).token == t@,
            delivered == exists|j: int|
                0 <= j < k && (#[trigger] planv[j]).token == t@ && outcomes@[j],
        decreases n - k,
    {
        if plan[k].token == *t {
            proof {
                assert(planv[k as int].token == t@);
            }
            planned = true;
            if outcomes[k] {
                delivered = true;
            }
        }
        k = k + 1;
    }
    (planned, delivered)
}

/// Applies the delivery accounting of one broadcast round to the bot
/// registry: a planned token with zero successes goes inactive, any
/// token with at least one success keeps its record unchanged.
pub fn broadcast_account(bots: &mut BotRegistry, plan: &Vec<Delivery>, outcomes: &Vec<bool>)
    requires
        plan@.len() == outcomes@.len(),
    ensures
        final(bots)@ == account_of(old(bots)@, plan@.map_values(|d: Delivery| d@), outcomes@),
        final(bots).wf() == old(bots).wf(),
{
    let ghost planv = plan@.map_values(|d: Delivery| d@);
    let n = bots.bots.len();
    let mut i: usize = 0;
    while i < n
        invariant
            n == bots.bots@.len(),
            i <= n,
            plan@.len() == outcomes@.len(),
            planv == plan@.map_values(|d: Delivery| d@),
            bots@.len() == old(bots)@.len(),
            forall|j: int|
                0 <= j < i ==> #[trigger] bots@[j] == (if token_planned(
                    planv,
                    old(bots)@[j].token,
                ) && !token_delivered(planv, outcomes@, old(bots)@[j].token) {
                    BotV { is_active: false, ..old(bots)@[j] }
                } else {
                    old(bots)@[j]
                }),
            forall|j: int| i <= j < n ==> #[trigger] bots@[j] == old(bots)@[j],
        decreases n - i,
    {
        let ghost prev = bots@;
        let (planned, delivered) = scan_token(plan, outcomes, &bots.bots[i].token);
        if planned && !delivered {
            bots.bots[i].is_active = false;
            proof {
                assert(bots@ =~~= prev.update(
                    i as int,
                    BotV { is_active: false, ..prev[i as int] },
                ));
            }
        }
        i = i + 1;
    }
    proof {
        assert(bots@ =~~= account_of(old(bots)@, planv, outcomes@));
        assert forall|a: int, b: int| 0 <= a < b < bots@.len() implies (bots@[a].token
            != bots@[b].token) == (old(bots)@[a].token != old(bots)@[b].token) by {}
    }
}

/// Accounting twice with the same plan and outcomes changes nothing more
/// than accounting once: a mirror that reached nobody stays inactive.
pub proof fn lemma_account_idempotent(bots: Seq<BotV>, plan: Seq<DeliveryV>, outcomes: Seq<bool>)
    ensures
        account_of(account_of(bots, plan, outcomes), plan, outcomes) == account_of(
            bots,
            plan,
            outcomes,
        ),
{
    assert(account_of(account_of(bots, plan, outcomes), plan, outcomes) =~= account_of(
        bots,
        plan,
        outcomes,
    ));
}

/// The accounting pointwise: a planned token with zero successes has its
/// record flagged inactive; a token with at least one success, and a
/// token never planned, keep their records unchanged.
pub proof fn lemma_account_pointwise(
    bots: Seq<BotV>,
    plan: Seq<DeliveryV>,
    outcomes: Seq<bool>,
    i: int,
)
    requires
        0 <= i < bots.len(),
    ensures
        token_planned(plan, bots[i].token) && !token_delivered(plan, outcomes, bots[i].token)
            ==> account_of(bots, plan, outcomes)[i] == (BotV { is_active: false, ..bots[i] }),
        token_delivered(plan, outcomes, bots[i].token) ==> account_of(bots, plan, outcomes)[i]
            == bots[i],
        !token_planned(plan, bots[i].token) ==> account_of(bots, plan, outcomes)[i] == bots[i],
{
}

} // verus!
