//! The machines that an environment is to have, and the plans for them.
use crate::text::{cat3, join, joined, same, texts};
use vstd::prelude::*;
use vstd::string::*;

verus! {

/// What a machine is at the provider.
#[derive(Debug, Clone, PartialEq, Eq)]
pub struct MachineProvider {
    pub region: String,
    pub plan: String,
    pub os_id: Option<u32>,
    pub snapshot_id: Option<String>,
    pub enable_ipv6: bool,
    pub firewall_profile: Option<String>,
}

/// A machine that an environment is to have.
#[derive(Debug, Clone, PartialEq, Eq)]
pub struct MachineSpec {
    pub id: String,
    pub provider: MachineProvider,
    pub bootstrap_profile: String,
}

/// What an environment is to consist of.
#[derive(Debug, Clone, PartialEq, Eq)]
pub struct DesiredState {
    pub environment: String,
    pub machines: Vec<MachineSpec>,
}

/// What a machine's observed state asks for.
#[derive(Debug, Clone, Copy, PartialEq, Eq, Structural)]
pub enum PlanClass {
    Noop,
    Create,
    UpdateInPlace,
    ReplaceRequired,
    BlockedDrift,
    BlockedAmbiguous,
}

/// The name of a class in messages.
pub open spec fn class_words(class: PlanClass) -> Seq<char> {
    match class {
        PlanClass::Noop => "Noop"@,
        PlanClass::Create => "Create"@,
        PlanClass::UpdateInPlace => "UpdateInPlace"@,
        PlanClass::ReplaceRequired => "ReplaceRequired"@,
        PlanClass::BlockedDrift => "BlockedDrift"@,
        PlanClass::BlockedAmbiguous => "BlockedAmbiguous"@,
    }
}

impl PlanClass {
    /// The name of the class in messages.
    pub fn name(self) -> (r: &'static str)
        ensures
            r@ == class_words(self),
    {
        match self {
            PlanClass::Noop => "Noop",
            PlanClass::Create => "Create",
            PlanClass::UpdateInPlace => "UpdateInPlace",
            PlanClass::ReplaceRequired => "ReplaceRequired",
            PlanClass::BlockedDrift => "BlockedDrift",
            PlanClass::BlockedAmbiguous => "BlockedAmbiguous",
        }
    }
}

/// The plan for one machine.
#[derive(Debug, Clone, PartialEq, Eq)]
pub struct MachinePlan {
    pub machine_id: String,
    pub class: PlanClass,
    pub provider_id: Option<String>,
    pub desired_spec_digest: String,
    pub reasons: Vec<String>,
}

/// What an authorized plan does.
#[derive(Debug, Clone, Copy, PartialEq, Eq, Structural)]
pub enum PlanDisposition {
    Noop,
    Mutate,
    Blocked,
}

/// What an authority binds: a plan under its scope, with what is wanted, what
/// was seen, and what the plan amounts to. The authority is a digest over all
/// of it.
#[derive(Debug, PartialEq, Eq)]
pub struct PlanMaterial<D, O, P> {
    pub scope: &'static str,
    pub desired: D,
    pub observed: O,
    pub plan: P,
    pub disposition: PlanDisposition,
}

/// The reasons of a plan in one line.
pub open spec fn reasons_words(plan: MachinePlan) -> Seq<char> {
    joined(texts(plan.reasons@), "; "@)
}

impl MachinePlan {
    /// The reasons in one line.
    pub fn reasons_line(&self) -> (r: String)
        ensures
            r@ == reasons_words(*self),
    {
        join(&self.reasons, "; ")
    }
}

/// Where the machine with that id stands.
pub open spec fn machine_at(machines: Seq<MachineSpec>, id: Seq<char>, i: int) -> bool {
    &&& 0 <= i < machines.len()
    &&& machines[i].id@ == id
    &&& forall|k: int| 0 <= k < i ==> #[trigger] machines[k].id@ != id
}

pub open spec fn no_machine(machines: Seq<MachineSpec>, id: Seq<char>) -> bool {
    forall|k: int| 0 <= k < machines.len() ==> #[trigger] machines[k].id@ != id
}

/// The error for a machine that an environment is not to have.
pub open spec fn unknown_machine(id: Seq<char>) -> Seq<char> {
    "machine "@ + id + " is not present in desired state"@
}

/// The first machine with that id.
pub fn find_machine<'a>(desired: &'a DesiredState, machine_id: &str) -> (r: Result<
    &'a MachineSpec,
    String,
>)
    ensures
        match r {
            Ok(machine) => exists|i: int| #[trigger]
                machine_at(desired.machines@, machine_id@, i) && *machine == desired.machines@[i],
            Err(e) => no_machine(desired.machines@, machine_id@) && e@ == unknown_machine(
                machine_id@,
            ),
        },
{
    let mut i: usize = 0;
    while i < desired.machines.len()
        invariant
            i <= desired.machines@.len(),
            forall|k: int| 0 <= k < i ==> #[trigger] desired.machines@[k].id@ != machine_id@,
        decreases desired.machines@.len() - i,
    {
        if same(desired.machines[i].id.as_str(), machine_id) {
            assert(machine_at(desired.machines@, machine_id@, i as int));
            return Ok(&desired.machines[i]);
        }
        i = i + 1;
    }
    Err(cat3("machine ", machine_id, " is not present in desired state"))
}

/// The first machine with that id, if the environment is sound, which
/// `validated` says.
pub fn machine_by_id<'a>(
    validated: Result<(), String>,
    desired: &'a DesiredState,
    machine_id: &str,
) -> (r: Result<&'a MachineSpec, String>)
    ensures
        match validated {
            Err(e) => r == Err::<&MachineSpec, String>(e),
            Ok(()) => match r {
                Ok(machine) => exists|i: int| #[trigger]
                    machine_at(desired.machines@, machine_id@, i) && *machine
                        == desired.machines@[i],
                Err(e) => no_machine(desired.machines@, machine_id@) && e@ == unknown_machine(
                    machine_id@,
                ),
            },
        },
{
    match validated {
        Err(e) => Err(e),
        Ok(()) => find_machine(desired, machine_id),
    }
}

/// The firewall profiles that the machines name, in their order.
pub open spec fn profile_names(machines: Seq<MachineSpec>) -> Seq<String>
    decreases machines.len(),
{
    if machines.len() == 0 {
        Seq::empty()
    } else {
        match machines.last().provider.firewall_profile {
            Some(name) => profile_names(machines.drop_last()).push(name),
            None => profile_names(machines.drop_last()),
        }
    }
}

/// The firewall profiles that the machines name.
pub fn firewall_profile_names(desired: &DesiredState) -> (r: Vec<String>)
    ensures
        r@ == profile_names(desired.machines@),
{
    let mut out: Vec<String> = Vec::new();
    let mut i: usize = 0;
    while i < desired.machines.len()
        invariant
            i <= desired.machines@.len(),
            out@ == profile_names(desired.machines@.take(i as int)),
        decreases desired.machines@.len() - i,
    {
        assert(desired.machines@.take(i + 1).drop_last() =~= desired.machines@.take(i as int));
        match &desired.machines[i].provider.firewall_profile {
            Some(name) => {
                out.push(name.clone());
            },
            None => {},
        }
        i = i + 1;
    }
    assert(desired.machines@.take(i as int) =~= desired.machines@);
    out
}

/// A machine is found under its own id only, and never in a state that is not
/// valid; where it is there in a valid state, it is found.
pub proof fn law_a_machine_is_found_by_its_id(
    validated: Result<(), String>,
    desired: DesiredState,
    machine_id: &str,
    r: Result<&MachineSpec, String>,
)
    requires
        call_ensures(machine_by_id, (validated, &desired, machine_id), r),
    ensures
        validated matches Err(e) ==> r == Err::<&MachineSpec, String>(e),
        r matches Ok(m) ==> m.id@ == machine_id@ && desired.machines@.contains(*m),
        validated is Ok ==> (r is Ok <==> exists|i: int|
            0 <= i < desired.machines@.len() && (#[trigger] desired.machines@[i]).id@
                == machine_id@),
{
    if r is Ok {
        let i = choose|i: int| #[trigger]
            machine_at(desired.machines@, machine_id@, i) && *(r->Ok_0) == desired.machines@[i];
        assert(desired.machines@[i].id@ == machine_id@);
    }
}

/// The profiles that are needed are exactly those that some machine names.
pub proof fn law_profiles_needed_are_those_named(desired: DesiredState, r: Vec<String>, name: Seq<char>)
    requires
        call_ensures(firewall_profile_names, (&desired,), r),
    ensures
        texts(r@).contains(name) <==> exists|i: int|
            0 <= i < desired.machines@.len() && ((
            #[trigger] desired.machines@[i]).provider.firewall_profile matches Some(p) && p@
                == name),
{
    lemma_profile_names(desired.machines@, name);
}

pub proof fn lemma_profile_names(machines: Seq<MachineSpec>, name: Seq<char>)
    ensures
        texts(profile_names(machines)).contains(name) <==> exists|i: int|
            0 <= i < machines.len() && ((
            #[trigger] machines[i]).provider.firewall_profile matches Some(p) && p@ == name),
    decreases machines.len(),
{
    if machines.len() > 0 {
        let head = machines.drop_last();
        lemma_profile_names(head, name);
        let before = texts(profile_names(head));
        let out = texts(profile_names(machines));
        let n = machines.len() - 1;
        assert(machines[n] == machines.last());
        if out.contains(name) {
            let k = choose|k: int| 0 <= k < out.len() && out[k] == name;
            if k < before.len() {
                assert(before[k] == name);
                assert(before.contains(name));
                let i = choose|i: int|
                    0 <= i < head.len() && ((
                    #[trigger] head[i]).provider.firewall_profile matches Some(p) && p@ == name);
                assert(machines[i] == head[i]);
            } else {
                assert(machines[n].provider.firewall_profile->Some_0@ == name);
            }
        }
        if exists|i: int|
            0 <= i < machines.len() && ((
            #[trigger] machines[i]).provider.firewall_profile matches Some(p) && p@ == name) {
            let i = choose|i: int|
                0 <= i < machines.len() && ((
                #[trigger] machines[i]).provider.firewall_profile matches Some(p) && p@ == name);
            if i < n {
                assert(head[i] == machines[i]);
                assert(before.contains(name));
                let k = choose|k: int| 0 <= k < before.len() && before[k] == name;
                assert(out[k] == name);
            } else {
                assert(out[before.len() as int] == name);
            }
        }
    }
}

/// A machine that is looked for is the first of its id, and one that is not there
/// is refused.
pub proof fn law_a_machine_looked_for_is_the_first_of_its_id(
    desired: &DesiredState,
    machine_id: &str,
    r: Result<&MachineSpec, String>,
    i: int,
)
    requires
        call_ensures(find_machine, (desired, machine_id), r),
        0 <= i < desired.machines@.len(),
    ensures
        desired.machines@[i].id@ == machine_id@ ==> r is Ok,
        r matches Ok(m) ==> m.id@ == machine_id@ && desired.machines@.contains(*m),
        desired.machines@[i].id@ == machine_id@ && (forall|k: int|
            0 <= k < i ==> (#[trigger] desired.machines@[k]).id@ != machine_id@) ==> (r matches Ok(
            m,
        ) && *m == desired.machines@[i]),
{
    if let Ok(m) = r {
        let j = choose|j: int| #[trigger]
            machine_at(desired.machines@, machine_id@, j) && *m == desired.machines@[j];
        if desired.machines@[i].id@ == machine_id@ && (forall|k: int|
            0 <= k < i ==> (#[trigger] desired.machines@[k]).id@ != machine_id@) {
            assert(i == j);
        }
    }
}

} // verus!
