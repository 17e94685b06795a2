use crate::time::UtcInstant;
use vstd::prelude::*;

verus! {

/// The roles kept aside when a member is suspended: every role they hold but
/// the suspension marker.
pub open spec fn roles_to_snapshot(roles: Seq<u64>, marker: u64) -> Seq<u64> {
    roles.filter(|r: u64| r != marker)
}

/// A member's roles once the suspension's role changes have landed: the
/// `removed` roles are gone and the `marker` is held.
pub open spec fn roles_after_dunce(roles: Set<u64>, removed: Seq<u64>, marker: u64) -> Set<u64> {
    roles.difference(removed.to_set()).insert(marker)
}

/// A member's roles once a lift has landed: the `restored` roles are back and
/// the `marker` is gone.
pub open spec fn roles_after_lift(roles: Set<u64>, restored: Seq<u64>, marker: u64) -> Set<u64> {
    roles.union(restored.to_set()).remove(marker)
}

/// The role changes of a first suspension.
#[derive(Clone, Debug)]
pub struct RoleChanges {
    /// Rows to store, one per role; nothing is written when this is empty.
    pub snapshot: Vec<u64>,
    /// Roles to take from the member.
    pub remove: Vec<u64>,
    /// The suspension marker, to give to the member.
    pub add_role: u64,
}

/// What applying or renewing a suspension does.
#[derive(Clone, Debug)]
pub struct DuncePlan {
    pub target_id: u64,
    /// The expiry to upsert into the member's suspension record.
    pub expiry: UtcInstant,
    /// Whether the member was suspended already, so that this renews it.
    pub renewal: bool,
    /// The role changes, made only on a first suspension of a member who is
    /// still in the community.
    pub roles: Option<RoleChanges>,
}

/// The roles of `roles` other than `marker`, in their order.
fn without_role(roles: &Vec<u64>, marker: u64) -> (r: Vec<u64>)
    ensures
        r@ == roles_to_snapshot(roles@, marker),
{
    let mut out: Vec<u64> = Vec::new();
    let mut i: usize = 0;
    while i < roles.len()
        invariant
            i <= roles@.len(),
            out@ == roles_to_snapshot(roles@.take(i as int), marker),
        decreases roles@.len() - i,
    {
        proof {
            reveal(Seq::filter);
            assert(roles@.take(i as int + 1).drop_last() == roles@.take(i as int));
        }
        if roles[i] != marker {
            out.push(roles[i]);
        }
        i += 1;
    }
    assert(roles@.take(roles@.len() as int) == roles@);
    out
}

/// Plans a suspension of `target_id` until `expiry`. `currently_suspended`
/// tells whether a suspension record exists for the member, and
/// `member_roles` the roles they hold (`None` when they are no longer a
/// member). A first suspension keeps the member's roles but the marker aside,
/// takes them away and gives the marker; a renewal only moves the expiry.
pub fn plan_dunce(
    target_id: u64,
    expiry: UtcInstant,
    currently_suspended: bool,
    member_roles: Option<&Vec<u64>>,
    marker: u64,
) -> (r: DuncePlan)
    ensures
        r.target_id == target_id,
        r.expiry == expiry,
        r.renewal == currently_suspended,
        r.roles is Some <==> (!currently_suspended && member_roles is Some),
        currently_suspended ==> r.roles is None,
        r.roles matches Some(c) ==> (member_roles matches Some(m) && c.snapshot@
            == roles_to_snapshot(m@, marker) && c.remove@ == c.snapshot@ && c.add_role == marker),
{
    let roles = if currently_suspended {
        None
    } else {
        match member_roles {
            Some(m) => {
                let snapshot = without_role(m, marker);
                let remove = snapshot.clone();
                Some(RoleChanges { snapshot, remove, add_role: marker })
            },
            None => None,
        }
    };
    DuncePlan { target_id, expiry, renewal: currently_suspended, roles }
}

/// What lifting a suspension does: the stored roles are given back, the
/// marker is taken away, the suspension record and the stored roles are
/// deleted, and the lift is logged.
#[derive(Clone, Debug)]
pub struct LiftPlan {
    pub target_id: u64,
    pub restore: Vec<u64>,
    pub remove_role: u64,
}

/// Plans lifting the suspension of `target_id`, given whether a suspension
/// record exists and the roles stored for the member. Lifting a member who is
/// not suspended does nothing.
pub fn plan_lift(target_id: u64, currently_suspended: bool, stored: &Vec<u64>, marker: u64) -> (r:
    Option<LiftPlan>)
    ensures
        r is Some <==> currently_suspended,
        r matches Some(l) ==> l.target_id == target_id && l.restore@ == stored@ && l.remove_role
            == marker,
{
    if currently_suspended {
        Some(LiftPlan { target_id, restore: stored.clone(), remove_role: marker })
    } else {
        None
    }
}

/// Without the marker among them, the snapshot keeps every role.
proof fn lemma_snapshot_keeps_unmarked(roles: Seq<u64>, marker: u64)
    requires
        !roles.contains(marker),
    ensures
        roles_to_snapshot(roles, marker) == roles,
    decreases roles.len(),
{
    reveal(Seq::filter);
    if roles.len() > 0 {
        let rest = roles.drop_last();
        assert forall|i: int| 0 <= i < rest.len() implies rest[i] != marker by {
            assert(roles[i] == rest[i]);
        }
        lemma_snapshot_keeps_unmarked(rest, marker);
        assert(roles[roles.len() - 1] != marker);
        assert(rest.push(roles.last()) == roles);
    }
}

/// Suspending a member who holds `roles` (the marker not among them), storing
/// the snapshot, and later lifting the suspension with the stored roles gives
/// the member exactly `roles` back.
pub proof fn lemma_snapshot_restore_round_trip(roles: Seq<u64>, marker: u64)
    requires
        !roles.contains(marker),
    ensures
        ({
            let snap = roles_to_snapshot(roles, marker);
            roles_after_lift(roles_after_dunce(roles.to_set(), snap, marker), snap, marker)
                == roles.to_set()
        }),
{
    let snap = roles_to_snapshot(roles, marker);
    lemma_snapshot_keeps_unmarked(roles, marker);
    let mid = roles_after_dunce(roles.to_set(), snap, marker);
    assert(mid =~= set![marker]);
    assert(roles_after_lift(mid, snap, marker) =~= roles.to_set());
}

/// The messages of the failed results, in order.
pub open spec fn failures(results: Seq<Result<(), String>>) -> Seq<Seq<char>>
    decreases results.len(),
{
    if results.len() == 0 {
        Seq::empty()
    } else {
        let rest = failures(results.drop_last());
        match results.last() {
            Err(e) => rest.push(e@),
            Ok(_) => rest,
        }
    }
}

/// The views of a list of messages.
pub open spec fn texts(v: Seq<String>) -> Seq<Seq<char>> {
    v.map_values(|s: String| s@)
}

/// Collects the failures among the results of operations that ran side by
/// side, keeping their order; an operation's failure never hides another's.
pub fn collect_failures(results: &Vec<Result<(), String>>) -> (r: Vec<String>)
    ensures
        texts(r@) == failures(results@),
{
    let mut out: Vec<String> = Vec::new();
    let mut i: usize = 0;
    while i < results.len()
        invariant
            i <= results@.len(),
            texts(out@) == failures(results@.take(i as int)),
        decreases results@.len() - i,
    {
        proof {
            assert(results@.take(i as int + 1).drop_last() == results@.take(i as int));
        }
        match &results[i] {
            Ok(_) => {},
            Err(e) => {
                let m = e.clone();
                out.push(m);
                assert(texts(out@) =~= texts(out@.drop_last()).push(m@));
            },
        }
        i += 1;
    }
    assert(results@.take(results@.len() as int) == results@);
    out
}

/// How a suspension command ends.
#[derive(Clone, Debug)]
pub enum DunceOutcome {
    /// Some operations failed; the messages of all of them, in order.
    Failed(Vec<String>),
    /// The member was suspended until `expiry`.
    Dunced { target_id: u64, expiry: UtcInstant },
    /// The member's suspension now ends at `expiry`.
    Renewed { target_id: u64, expiry: UtcInstant },
}

/// Reports on a suspension from the results of all the operations its plan
/// issued: a failure listing every failed one, or else success, told apart
/// as a first suspension or a renewal. Nothing is rolled back.
pub fn dunce_outcome(plan: &DuncePlan, results: &Vec<Result<(), String>>) -> (r: DunceOutcome)
    ensures
        failures(results@).len() > 0 ==> (r matches DunceOutcome::Failed(v) && texts(v@)
            == failures(results@)),
        failures(results@).len() == 0 && plan.renewal ==> r == (DunceOutcome::Renewed {
            target_id: plan.target_id,
            expiry: plan.expiry,
        }),
        failures(results@).len() == 0 && !plan.renewal ==> r == (DunceOutcome::Dunced {
            target_id: plan.target_id,
            expiry: plan.expiry,
        }),
{
    let errors = collect_failures(results);
    if errors.len() > 0 {
        DunceOutcome::Failed(errors)
    } else if plan.renewal {
        DunceOutcome::Renewed { target_id: plan.target_id, expiry: plan.expiry }
    } else {
        DunceOutcome::Dunced { target_id: plan.target_id, expiry: plan.expiry }
    }
}

} // verus!
