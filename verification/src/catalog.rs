//! Checking a machine against what the provider offers.
use crate::lists::{Found, finds, lemma_filter_members, lemma_filter_start, lemma_filter_step};
use crate::machine::{MachineProvider, MachineSpec};
use crate::once::ProviderFault;
use crate::provider::{VultrPlan, VultrSnapshot};
use crate::text::{
    blank, cat3, cat4, decimal, is_blank, lowered, number, same, same_ignoring_case, texts,
};
use vstd::prelude::*;
use vstd::string::*;

verus! {

/// A part of the provider's catalog, or why it could not be read.
#[derive(Debug, PartialEq, Eq)]
pub enum CatalogPart {
    Plans(Result<Vec<VultrPlan>, ProviderFault>),
    /// The plans that are to be had in the machine's region.
    Availability(Result<Vec<String>, ProviderFault>),
    /// The numbers of the operating systems.
    OperatingSystems(Result<Vec<u32>, ProviderFault>),
    Snapshots(Result<Vec<VultrSnapshot>, ProviderFault>),
}

/// What is to be read next.
#[derive(Debug, PartialEq, Eq)]
pub enum CatalogNext {
    /// What is available in the machine's region of plans of this type.
    Availability { plan_type: String },
    OperatingSystems,
    Snapshots,
    Valid,
    Fail(String),
}

pub open spec fn plan_named(id: Seq<char>) -> spec_fn(VultrPlan) -> bool {
    |p: VultrPlan| p.id@ == id
}

pub open spec fn snapshot_named(id: Seq<char>) -> spec_fn(VultrSnapshot) -> bool {
    |s: VultrSnapshot| s.id@ == id
}

fn find_plan(plans: &Vec<VultrPlan>, id: &str) -> (r: Found)
    ensures
        finds(plans@, plan_named(id@), r),
{
    let ghost wanted = plan_named(id@);
    let mut found: Found = Found::Nothing;
    let mut i: usize = 0;
    proof {
        lemma_filter_start(plans@, wanted);
    }
    while i < plans.len()
        invariant
            i <= plans@.len(),
            wanted == plan_named(id@),
            finds(plans@.take(i as int), wanted, found),
            found matches Found::One(k) ==> k < i,
        decreases plans@.len() - i,
    {
        proof {
            lemma_filter_step(plans@, wanted, i as int);
        }
        if same(plans[i].id.as_str(), id) {
            assert(wanted(plans@[i as int]));
            found = match found {
                Found::Nothing => Found::One(i),
                _ => Found::Several,
            };
            assert(found == Found::One(i) ==> plans@.take(i + 1).filter(wanted)
                =~= seq![plans@[i as int]]);
        } else {
            assert(!wanted(plans@[i as int]));
            assert(found matches Found::One(k) ==> plans@.take(i + 1)[k as int]
                == plans@[k as int]);
        }
        i = i + 1;
    }
    assert(plans@.take(i as int) =~= plans@);
    found
}

fn find_snapshot(snapshots: &Vec<VultrSnapshot>, id: &str) -> (r: Found)
    ensures
        finds(snapshots@, snapshot_named(id@), r),
{
    let ghost wanted = snapshot_named(id@);
    let mut found: Found = Found::Nothing;
    let mut i: usize = 0;
    proof {
        lemma_filter_start(snapshots@, wanted);
    }
    while i < snapshots.len()
        invariant
            i <= snapshots@.len(),
            wanted == snapshot_named(id@),
            finds(snapshots@.take(i as int), wanted, found),
            found matches Found::One(k) ==> k < i,
        decreases snapshots@.len() - i,
    {
        proof {
            lemma_filter_step(snapshots@, wanted, i as int);
        }
        if same(snapshots[i].id.as_str(), id) {
            assert(wanted(snapshots@[i as int]));
            found = match found {
                Found::Nothing => Found::One(i),
                _ => Found::Several,
            };
            assert(found == Found::One(i) ==> snapshots@.take(i + 1).filter(wanted)
                =~= seq![snapshots@[i as int]]);
        } else {
            assert(!wanted(snapshots@[i as int]));
            assert(found matches Found::One(k) ==> snapshots@.take(i + 1)[k as int]
                == snapshots@[k as int]);
        }
        i = i + 1;
    }
    assert(snapshots@.take(i as int) =~= snapshots@);
    found
}

/// What the plans lead to: the availability of the one plan that the machine
/// names.
pub open spec fn after_plans(provider: MachineProvider, plans: Seq<VultrPlan>, next: CatalogNext) -> bool {
    let hits = plans.filter(plan_named(provider.plan@));
    if hits.len() == 0 {
        next matches CatalogNext::Fail(e) && e@ == "Vultr plan "@ + provider.plan@
            + " is absent from the live catalog"@
    } else if hits.len() > 1 {
        next matches CatalogNext::Fail(e) && e@ == "Vultr plan "@ + provider.plan@
            + " is ambiguous in the live catalog"@
    } else if blank(hits[0].plan_type@) {
        next matches CatalogNext::Fail(e) && e@ == "Vultr plan "@ + provider.plan@
            + " has no provider type"@
    } else {
        next == (CatalogNext::Availability { plan_type: hits[0].plan_type })
    }
}

/// What comes once the plan is known to be available: the operating system
/// where the machine names one, the snapshot where it names one.
pub open spec fn after_plan(provider: MachineProvider) -> CatalogNext {
    if provider.os_id is Some {
        CatalogNext::OperatingSystems
    } else {
        after_system(provider)
    }
}

pub open spec fn after_system(provider: MachineProvider) -> CatalogNext {
    if provider.snapshot_id is Some {
        CatalogNext::Snapshots
    } else {
        CatalogNext::Valid
    }
}

/// What the snapshots lead to, for a machine made from one.
pub open spec fn after_snapshots(id: Seq<char>, snapshots: Seq<VultrSnapshot>, next: CatalogNext) -> bool {
    let hits = snapshots.filter(snapshot_named(id));
    if hits.len() == 0 {
        next matches CatalogNext::Fail(e) && e@ == "Vultr snapshot "@ + id
            + " is absent from the live snapshot catalog"@
    } else if hits.len() > 1 {
        next matches CatalogNext::Fail(e) && e@ == "Vultr snapshot "@ + id
            + " is ambiguous in the live snapshot catalog"@
    } else if lowered(hits[0].status@) == lowered("complete"@) {
        next is Valid
    } else {
        next matches CatalogNext::Fail(e) && e@ == "Vultr snapshot "@ + id
            + " is not ready: status="@ + hits[0].status@
    }
}

/// What a part of the catalog leads to.
pub open spec fn catalog_leads(provider: MachineProvider, part: CatalogPart, next: CatalogNext) -> bool {
    match part {
        CatalogPart::Plans(Err(f)) => next matches CatalogNext::Fail(e) && e@ == f.message@,
        CatalogPart::Plans(Ok(plans)) => after_plans(provider, plans@, next),
        CatalogPart::Availability(Err(f)) => next matches CatalogNext::Fail(e) && e@ == f.message@,
        CatalogPart::Availability(Ok(plans)) => if texts(plans@).contains(provider.plan@) {
            next == after_plan(provider)
        } else {
            next matches CatalogNext::Fail(e) && e@ == "Vultr plan "@ + provider.plan@
                + " is not currently available in region "@ + provider.region@
        },
        CatalogPart::OperatingSystems(Err(f)) => next matches CatalogNext::Fail(e) && e@
            == f.message@,
        CatalogPart::OperatingSystems(Ok(systems)) => match provider.os_id {
            None => next == after_system(provider),
            Some(os_id) => if systems@.contains(os_id) {
                next == after_system(provider)
            } else {
                next matches CatalogNext::Fail(e) && e@ == "Vultr OS id "@ + decimal(os_id as nat)
                    + " is absent from the live OS catalog"@
            },
        },
        CatalogPart::Snapshots(Err(f)) => next matches CatalogNext::Fail(e) && e@ == f.message@,
        CatalogPart::Snapshots(Ok(snapshots)) => match provider.snapshot_id {
            None => next is Valid,
            Some(id) => after_snapshots(id@, snapshots@, next),
        },
    }
}

fn lists_text(items: &Vec<String>, wanted: &str) -> (r: bool)
    ensures
        r == texts(items@).contains(wanted@),
{
    let mut i: usize = 0;
    while i < items.len()
        invariant
            i <= items@.len(),
            forall|k: int| 0 <= k < i ==> #[trigger] texts(items@)[k] != wanted@,
        decreases items@.len() - i,
    {
        if same(items[i].as_str(), wanted) {
            assert(texts(items@)[i as int] == wanted@);
            return true;
        }
        i = i + 1;
    }
    false
}

fn lists_number(items: &Vec<u32>, wanted: u32) -> (r: bool)
    ensures
        r == items@.contains(wanted),
{
    let mut i: usize = 0;
    while i < items.len()
        invariant
            i <= items@.len(),
            forall|k: int| 0 <= k < i ==> #[trigger] items@[k] != wanted,
        decreases items@.len() - i,
    {
        if items[i] == wanted {
            return true;
        }
        i = i + 1;
    }
    false
}

fn next_after_system(provider: &MachineProvider) -> (r: CatalogNext)
    ensures
        r == after_system(*provider),
{
    if provider.snapshot_id.is_some() {
        CatalogNext::Snapshots
    } else {
        CatalogNext::Valid
    }
}

/// Takes a part of the catalog into account. The first part is the plans; each
/// part says which comes next.
pub fn validate_machine_catalog(machine: &MachineSpec, part: &CatalogPart) -> (r: CatalogNext)
    ensures
        catalog_leads(machine.provider, *part, r),
{
    let provider: &MachineProvider = &machine.provider;
    match part {
        CatalogPart::Plans(Err(f)) => CatalogNext::Fail(f.message.clone()),
        CatalogPart::Availability(Err(f)) => CatalogNext::Fail(f.message.clone()),
        CatalogPart::OperatingSystems(Err(f)) => CatalogNext::Fail(f.message.clone()),
        CatalogPart::Snapshots(Err(f)) => CatalogNext::Fail(f.message.clone()),
        CatalogPart::Plans(Ok(plans)) => match find_plan(plans, provider.plan.as_str()) {
            Found::Nothing => CatalogNext::Fail(
                cat3("Vultr plan ", provider.plan.as_str(), " is absent from the live catalog"),
            ),
            Found::Several => CatalogNext::Fail(
                cat3("Vultr plan ", provider.plan.as_str(), " is ambiguous in the live catalog"),
            ),
            Found::One(i) => {
                if is_blank(plans[i].plan_type.as_str()) {
                    CatalogNext::Fail(
                        cat3("Vultr plan ", provider.plan.as_str(), " has no provider type"),
                    )
                } else {
                    CatalogNext::Availability { plan_type: plans[i].plan_type.clone() }
                }
            },
        },
        CatalogPart::Availability(Ok(plans)) => {
            if !lists_text(plans, provider.plan.as_str()) {
                CatalogNext::Fail(
                    cat4(
                        "Vultr plan ",
                        provider.plan.as_str(),
                        " is not currently available in region ",
                        provider.region.as_str(),
                    ),
                )
            } else if provider.os_id.is_some() {
                CatalogNext::OperatingSystems
            } else {
                next_after_system(provider)
            }
        },
        CatalogPart::OperatingSystems(Ok(systems)) => match provider.os_id {
            None => next_after_system(provider),
            Some(os_id) => if lists_number(systems, os_id) {
                next_after_system(provider)
            } else {
                CatalogNext::Fail(
                    cat3(
                        "Vultr OS id ",
                        number(os_id as u64).as_str(),
                        " is absent from the live OS catalog",
                    ),
                )
            },
        },
        CatalogPart::Snapshots(Ok(snapshots)) => match &provider.snapshot_id {
            None => CatalogNext::Valid,
            Some(id) => match find_snapshot(snapshots, id.as_str()) {
                Found::Nothing => CatalogNext::Fail(
                    cat3(
                        "Vultr snapshot ",
                        id.as_str(),
                        " is absent from the live snapshot catalog",
                    ),
                ),
                Found::Several => CatalogNext::Fail(
                    cat3(
                        "Vultr snapshot ",
                        id.as_str(),
                        " is ambiguous in the live snapshot catalog",
                    ),
                ),
                Found::One(i) => {
                    if same_ignoring_case(snapshots[i].status.as_str(), "complete") {
                        CatalogNext::Valid
                    } else {
                        CatalogNext::Fail(
                            cat4(
                                "Vultr snapshot ",
                                id.as_str(),
                                " is not ready: status=",
                                snapshots[i].status.as_str(),
                            ),
                        )
                    }
                },
            },
        },
    }
}

/// A machine passes the catalog only step by step: its plan must be there once
/// and be had in its region, its system must be there, and its snapshot must be
/// there once and complete. What it does not name is not asked for.
pub proof fn law_machines_pass_the_catalog_step_by_step(
    machine: MachineSpec,
    part: CatalogPart,
    r: CatalogNext,
)
    requires
        call_ensures(validate_machine_catalog, (&machine, &part), r),
    ensures
        r is Valid ==> !(part is Plans),
        r is Availability ==> part is Plans,
        part matches CatalogPart::Availability(Ok(plans)) ==> {
            &&& !texts(plans@).contains(machine.provider.plan@) <==> r is Fail
            &&& r is Valid ==> machine.provider.os_id is None && machine.provider.snapshot_id
                is None
            &&& r is OperatingSystems ==> machine.provider.os_id is Some
            &&& r is Snapshots ==> machine.provider.os_id is None && machine.provider.snapshot_id
                is Some
        },
        part matches CatalogPart::OperatingSystems(Ok(systems)) ==> {
            &&& r is Fail <==> machine.provider.os_id is Some && !systems@.contains(
                machine.provider.os_id->Some_0,
            )
            &&& r is Valid ==> machine.provider.snapshot_id is None
            &&& r is Snapshots ==> machine.provider.snapshot_id is Some
        },
        part matches CatalogPart::Plans(Err(_)) ==> r is Fail,
        part matches CatalogPart::Availability(Err(_)) ==> r is Fail,
        part matches CatalogPart::OperatingSystems(Err(_)) ==> r is Fail,
        part matches CatalogPart::Snapshots(Err(_)) ==> r is Fail,
{
}

/// A plan is found exactly where one alone has its id, and a snapshot too, which
/// must be complete.
pub proof fn law_plans_and_snapshots_are_the_only_ones(
    machine: MachineSpec,
    plans: Vec<VultrPlan>,
    snapshots: Vec<VultrSnapshot>,
    id: String,
    p: CatalogNext,
    s: CatalogNext,
    k: int,
    j: int,
)
    requires
        machine.provider.snapshot_id == Some(id),
        call_ensures(validate_machine_catalog, (&machine, &CatalogPart::Plans(Ok(plans))), p),
        call_ensures(
            validate_machine_catalog,
            (&machine, &CatalogPart::Snapshots(Ok(snapshots))),
            s,
        ),
        0 <= k < plans@.len(),
        0 <= j < snapshots@.len(),
    ensures
        p is Availability && plans@[k].id@ == machine.provider.plan@ ==> p->plan_type
            == plans@[k].plan_type && !blank(plans@[k].plan_type@),
        p is Availability ==> exists|i: int|
            0 <= i < plans@.len() && (#[trigger] plans@[i]).id@ == machine.provider.plan@,
        s is Valid && snapshots@[j].id@ == id@ ==> lowered(snapshots@[j].status@) == lowered(
            "complete"@,
        ),
        s is Valid ==> exists|i: int|
            0 <= i < snapshots@.len() && (#[trigger] snapshots@[i]).id@ == id@,
        p is Availability || p is Fail,
        s is Valid || s is Fail,
{
    let wanted = plan_named(machine.provider.plan@);
    let hits = plans@.filter(wanted);
    lemma_filter_members(plans@, wanted);
    if p is Availability {
        assert(hits.contains(hits[0]));
        assert(plans@.contains(hits[0]));
        assert(wanted(hits[0]));
        let i = choose|i: int| 0 <= i < plans@.len() && plans@[i] == hits[0];
        assert(plans@[i].id@ == machine.provider.plan@);
        if plans@[k].id@ == machine.provider.plan@ {
            assert(wanted(plans@[k]));
            assert(plans@.contains(plans@[k]));
            assert(hits.contains(plans@[k]));
        }
    }
    let meant = snapshot_named(id@);
    let found = snapshots@.filter(meant);
    lemma_filter_members(snapshots@, meant);
    if s is Valid {
        assert(found.contains(found[0]));
        assert(snapshots@.contains(found[0]));
        assert(meant(found[0]));
        let i = choose|i: int| 0 <= i < snapshots@.len() && snapshots@[i] == found[0];
        assert(snapshots@[i].id@ == id@);
        if snapshots@[j].id@ == id@ {
            assert(meant(snapshots@[j]));
            assert(snapshots@.contains(snapshots@[j]));
            assert(found.contains(snapshots@[j]));
        }
    }
}

} // verus!
