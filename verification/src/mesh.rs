//! The mesh that an environment's machines join, and its route into their
//! private network.
use crate::ipv4::{
    Ipv4, block_size, block_start, private_network, validate_verified_private_network,
};
use crate::text::{
    NumberFault, cat2, cat4, decimal, join, joined, number, number_value, same, split_at_char,
    split_once, texts,
};
use vstd::prelude::*;
use vstd::string::*;

verus! {

/// What can be asked of `edge-controller line3-mesh`.
pub const MESH_USAGE: &'static str =
    "usage:\n  edge-controller line3-mesh inventory <spec-path>\n  edge-controller line3-mesh plan <spec-path>\n  edge-controller line3-mesh apply <spec-path>\n  edge-controller line3-mesh vpc-plan <mesh-base-spec-path> <vpc-spec-path> <application-spec-path>\n  edge-controller line3-mesh vpc-apply <mesh-base-spec-path> <vpc-spec-path> <application-spec-path>\n  edge-controller line3-mesh cleanup-plan <spec-path>\n  edge-controller line3-mesh cleanup-apply <spec-path> <destructive-digest>\n  edge-controller line3-mesh runtime-apply <mesh-spec-path> <application-spec-path>\n  edge-controller line3-mesh vpc-runtime-apply <mesh-base-spec-path> <vpc-spec-path> <application-spec-path>\n  edge-controller line3-mesh runtime-verify <mesh-spec-path> <application-spec-path>\n  edge-controller line3-mesh vpc-runtime-verify <mesh-base-spec-path> <vpc-spec-path> <application-spec-path>\n  edge-controller line3-mesh runtime-cleanup <application-spec-path>";

/// A command of `edge-controller line3-mesh`.
#[derive(Debug, Clone, Copy, PartialEq, Eq, Structural)]
pub enum MeshCommand {
    Inventory,
    Plan,
    Apply,
    VpcPlan,
    VpcApply,
    CleanupPlan,
    CleanupApply,
    RuntimeApply,
    VpcRuntimeApply,
    RuntimeVerify,
    VpcRuntimeVerify,
    RuntimeCleanup,
}

/// The command that goes by a word.
pub open spec fn mesh_command_named(word: Seq<char>) -> Option<MeshCommand> {
    if word == "inventory"@ {
        Some(MeshCommand::Inventory)
    } else if word == "plan"@ {
        Some(MeshCommand::Plan)
    } else if word == "apply"@ {
        Some(MeshCommand::Apply)
    } else if word == "vpc-plan"@ {
        Some(MeshCommand::VpcPlan)
    } else if word == "vpc-apply"@ {
        Some(MeshCommand::VpcApply)
    } else if word == "cleanup-plan"@ {
        Some(MeshCommand::CleanupPlan)
    } else if word == "cleanup-apply"@ {
        Some(MeshCommand::CleanupApply)
    } else if word == "runtime-apply"@ {
        Some(MeshCommand::RuntimeApply)
    } else if word == "vpc-runtime-apply"@ {
        Some(MeshCommand::VpcRuntimeApply)
    } else if word == "runtime-verify"@ {
        Some(MeshCommand::RuntimeVerify)
    } else if word == "vpc-runtime-verify"@ {
        Some(MeshCommand::VpcRuntimeVerify)
    } else if word == "runtime-cleanup"@ {
        Some(MeshCommand::RuntimeCleanup)
    } else {
        None
    }
}

/// How many words may follow a command.
pub open spec fn mesh_command_takes(command: MeshCommand, words: nat) -> bool {
    match command {
        MeshCommand::Inventory => words == 1,
        MeshCommand::Plan => words == 1,
        MeshCommand::Apply => words == 1,
        MeshCommand::VpcPlan => words == 3,
        MeshCommand::VpcApply => words == 3,
        MeshCommand::CleanupPlan => words == 1,
        MeshCommand::CleanupApply => words == 2,
        MeshCommand::RuntimeApply => words == 2,
        MeshCommand::VpcRuntimeApply => words == 3,
        MeshCommand::RuntimeVerify => words == 2,
        MeshCommand::VpcRuntimeVerify => words == 3,
        MeshCommand::RuntimeCleanup => words == 1,
    }
}

/// The sentence for a command with too few or too many words.
pub open spec fn mesh_command_usage(command: MeshCommand) -> Seq<char> {
    match command {
        MeshCommand::Inventory => "usage: edge-controller line3-mesh inventory <spec-path>"@,
        MeshCommand::Plan => "usage: edge-controller line3-mesh plan <spec-path>"@,
        MeshCommand::Apply => "usage: edge-controller line3-mesh apply <spec-path>"@,
        MeshCommand::VpcPlan => "usage: edge-controller line3-mesh vpc-plan <mesh-base-spec-path> <vpc-spec-path> <application-spec-path>"@,
        MeshCommand::VpcApply => "usage: edge-controller line3-mesh vpc-apply <mesh-base-spec-path> <vpc-spec-path> <application-spec-path>"@,
        MeshCommand::CleanupPlan => "usage: edge-controller line3-mesh cleanup-plan <spec-path>"@,
        MeshCommand::CleanupApply => "usage: edge-controller line3-mesh cleanup-apply <spec-path> <destructive-digest>"@,
        MeshCommand::RuntimeApply => "usage: edge-controller line3-mesh runtime-apply <mesh-spec-path> <application-spec-path>"@,
        MeshCommand::VpcRuntimeApply => "usage: edge-controller line3-mesh vpc-runtime-apply <mesh-base-spec-path> <vpc-spec-path> <application-spec-path>"@,
        MeshCommand::RuntimeVerify => "usage: edge-controller line3-mesh runtime-verify <mesh-spec-path> <application-spec-path>"@,
        MeshCommand::VpcRuntimeVerify => "usage: edge-controller line3-mesh vpc-runtime-verify <mesh-base-spec-path> <vpc-spec-path> <application-spec-path>"@,
        MeshCommand::RuntimeCleanup => "usage: edge-controller line3-mesh runtime-cleanup <application-spec-path>"@,
    }
}

fn mesh_command_of(word: &str) -> (r: Option<MeshCommand>)
    ensures
        r == mesh_command_named(word@),
{
    if same(word, "inventory") {
        Some(MeshCommand::Inventory)
    } else if same(word, "plan") {
        Some(MeshCommand::Plan)
    } else if same(word, "apply") {
        Some(MeshCommand::Apply)
    } else if same(word, "vpc-plan") {
        Some(MeshCommand::VpcPlan)
    } else if same(word, "vpc-apply") {
        Some(MeshCommand::VpcApply)
    } else if same(word, "cleanup-plan") {
        Some(MeshCommand::CleanupPlan)
    } else if same(word, "cleanup-apply") {
        Some(MeshCommand::CleanupApply)
    } else if same(word, "runtime-apply") {
        Some(MeshCommand::RuntimeApply)
    } else if same(word, "vpc-runtime-apply") {
        Some(MeshCommand::VpcRuntimeApply)
    } else if same(word, "runtime-verify") {
        Some(MeshCommand::RuntimeVerify)
    } else if same(word, "vpc-runtime-verify") {
        Some(MeshCommand::VpcRuntimeVerify)
    } else if same(word, "runtime-cleanup") {
        Some(MeshCommand::RuntimeCleanup)
    } else {
        None
    }
}

fn mesh_command_usage_line(command: MeshCommand) -> (r: &'static str)
    ensures
        r@ == mesh_command_usage(command),
{
    match command {
        MeshCommand::Inventory => "usage: edge-controller line3-mesh inventory <spec-path>",
        MeshCommand::Plan => "usage: edge-controller line3-mesh plan <spec-path>",
        MeshCommand::Apply => "usage: edge-controller line3-mesh apply <spec-path>",
        MeshCommand::VpcPlan => "usage: edge-controller line3-mesh vpc-plan <mesh-base-spec-path> <vpc-spec-path> <application-spec-path>",
        MeshCommand::VpcApply => "usage: edge-controller line3-mesh vpc-apply <mesh-base-spec-path> <vpc-spec-path> <application-spec-path>",
        MeshCommand::CleanupPlan => "usage: edge-controller line3-mesh cleanup-plan <spec-path>",
        MeshCommand::CleanupApply => "usage: edge-controller line3-mesh cleanup-apply <spec-path> <destructive-digest>",
        MeshCommand::RuntimeApply => "usage: edge-controller line3-mesh runtime-apply <mesh-spec-path> <application-spec-path>",
        MeshCommand::VpcRuntimeApply => "usage: edge-controller line3-mesh vpc-runtime-apply <mesh-base-spec-path> <vpc-spec-path> <application-spec-path>",
        MeshCommand::RuntimeVerify => "usage: edge-controller line3-mesh runtime-verify <mesh-spec-path> <application-spec-path>",
        MeshCommand::VpcRuntimeVerify => "usage: edge-controller line3-mesh vpc-runtime-verify <mesh-base-spec-path> <vpc-spec-path> <application-spec-path>",
        MeshCommand::RuntimeCleanup => "usage: edge-controller line3-mesh runtime-cleanup <application-spec-path>",
    }
}

fn mesh_command_accepts(command: MeshCommand, words: usize) -> (r: bool)
    ensures
        r == mesh_command_takes(command, words as nat),
{
    match command {
        MeshCommand::Inventory => words == 1,
        MeshCommand::Plan => words == 1,
        MeshCommand::Apply => words == 1,
        MeshCommand::VpcPlan => words == 3,
        MeshCommand::VpcApply => words == 3,
        MeshCommand::CleanupPlan => words == 1,
        MeshCommand::CleanupApply => words == 2,
        MeshCommand::RuntimeApply => words == 2,
        MeshCommand::VpcRuntimeApply => words == 3,
        MeshCommand::RuntimeVerify => words == 2,
        MeshCommand::VpcRuntimeVerify => words == 3,
        MeshCommand::RuntimeCleanup => words == 1,
    }
}

/// Whether `result` is what the words ask for: the command that the first of
/// them names, where it takes as many words as follow, else what is wrong.
pub open spec fn mesh_command_reads(args: Seq<Seq<char>>, result: Result<MeshCommand, Seq<char>>) -> bool {
    if args.len() == 0 {
        result == Err::<MeshCommand, Seq<char>>(MESH_USAGE@)
    } else {
        match mesh_command_named(args[0]) {
            None => result == Err::<MeshCommand, Seq<char>>(MESH_USAGE@),
            Some(command) => if mesh_command_takes(command, (args.len() - 1) as nat) {
                result == Ok::<MeshCommand, Seq<char>>(command)
            } else {
                result == Err::<MeshCommand, Seq<char>>(mesh_command_usage(command))
            },
        }
    }
}

/// Reads what is asked for. The words that follow the first are the command's.
pub fn read_mesh_command(args: &Vec<String>) -> (r: Result<MeshCommand, String>)
    ensures
        match r {
            Ok(command) => mesh_command_reads(texts(args@), Ok(command)),
            Err(e) => mesh_command_reads(texts(args@), Err(e@)),
        },
{
    if args.len() == 0 {
        return Err(MESH_USAGE.to_owned());
    }
    assert(texts(args@)[0] == args@[0]@);
    match mesh_command_of(args[0].as_str()) {
        None => Err(MESH_USAGE.to_owned()),
        Some(command) => {
            if mesh_command_accepts(command, args.len() - 1) {
                Ok(command)
            } else {
                Err(mesh_command_usage_line(command).to_owned())
            }
        },
    }
}

/// What can be asked of `edge-controller line3-mesh`.
pub fn usage() -> (r: String)
    ensures
        r@ == MESH_USAGE@,
{
    MESH_USAGE.to_owned()
}

/// A network interface of a machine, as the machine sees it.
#[derive(Debug, PartialEq, Eq)]
pub struct Ipv4LinkObservation {
    pub interface_index: u32,
    pub name: String,
    pub up: bool,
    pub lower_up: bool,
    pub loopback: bool,
}

/// An address of a machine, as the machine sees it.
#[derive(Debug, PartialEq, Eq)]
pub struct Ipv4AddressObservation {
    pub interface_index: u32,
    pub address: String,
    pub prefix_length: u32,
    pub global_scope: bool,
}

/// A route of a machine, as the machine sees it.
#[derive(Debug, PartialEq, Eq)]
pub struct Ipv4RouteObservation {
    pub destination: String,
    pub prefix_length: u32,
    pub output_interface_index: u32,
    pub preferred_source: Option<String>,
    pub kernel_protocol: bool,
    pub link_scope: bool,
}

/// The network of a machine, as the machine sees it.
#[derive(Debug, PartialEq, Eq)]
pub struct Ipv4NetworkObservation {
    pub links: Vec<Ipv4LinkObservation>,
    pub addresses: Vec<Ipv4AddressObservation>,
    pub routes: Vec<Ipv4RouteObservation>,
}

/// The machine whose private network was verified.
#[derive(Debug, PartialEq, Eq)]
pub struct TargetInstance {
    pub provider_id: String,
    pub region: String,
}

/// A private network that the provider was seen to have set up.
#[derive(Debug, PartialEq, Eq)]
pub struct VpcReadyReport {
    pub status: &'static str,
    pub target: TargetInstance,
    pub vpc_provider_id: String,
    pub cidr: String,
    pub private_ipv4: String,
}

/// What was seen of a private network from inside a machine.
#[derive(Debug, PartialEq, Eq)]
pub struct GuestVpcNetworkReport {
    pub status: &'static str,
    pub interface: String,
    pub cidr: String,
    pub private_ipv4: String,
}

/// Whether a link can carry traffic.
pub open spec fn carrying(link: Ipv4LinkObservation, index: u32) -> bool {
    link.interface_index == index && !link.loopback && link.up && link.lower_up
}

/// The first link with that number that can carry traffic.
pub open spec fn carrier(links: Seq<Ipv4LinkObservation>, index: u32) -> Option<int>
    decreases links.len(),
{
    if links.len() == 0 {
        None
    } else {
        match carrier(links.drop_last(), index) {
            Some(i) => Some(i),
            None => if carrying(links.last(), index) {
                Some(links.len() - 1)
            } else {
                None
            },
        }
    }
}

/// Whether an address is the private one, with the network's prefix.
pub open spec fn is_private_address(
    a: Ipv4AddressObservation,
    private_ipv4: Seq<char>,
    prefix: nat,
) -> bool {
    a.global_scope && a.address@ == private_ipv4 && a.prefix_length == prefix
}

/// The interfaces that have the private address and can carry traffic, by
/// number and name, in the order of the addresses.
pub open spec fn private_interfaces(
    addresses: Seq<Ipv4AddressObservation>,
    links: Seq<Ipv4LinkObservation>,
    private_ipv4: Seq<char>,
    prefix: nat,
) -> Seq<(u32, Seq<char>)>
    decreases addresses.len(),
{
    if addresses.len() == 0 {
        Seq::empty()
    } else {
        let head = private_interfaces(addresses.drop_last(), links, private_ipv4, prefix);
        let a = addresses.last();
        if is_private_address(a, private_ipv4, prefix) {
            match carrier(links, a.interface_index) {
                Some(i) => head.push((links[i].interface_index, links[i].name@)),
                None => head,
            }
        } else {
            head
        }
    }
}

/// Whether a route leads into the network directly.
pub open spec fn is_connected_route(
    route: Ipv4RouteObservation,
    subnet: Seq<char>,
    prefix: nat,
    index: u32,
    private_ipv4: Seq<char>,
) -> bool {
    &&& route.destination@ == subnet
    &&& route.prefix_length == prefix
    &&& route.output_interface_index == index
    &&& route.kernel_protocol
    &&& route.link_scope
    &&& route.preferred_source matches Some(s)
    &&& s@ == private_ipv4
}

/// How many routes lead into the network directly.
pub open spec fn connected_routes(
    routes: Seq<Ipv4RouteObservation>,
    subnet: Seq<char>,
    prefix: nat,
    index: u32,
    private_ipv4: Seq<char>,
) -> nat
    decreases routes.len(),
{
    if routes.len() == 0 {
        0
    } else {
        connected_routes(routes.drop_last(), subnet, prefix, index, private_ipv4)
            + if is_connected_route(routes.last(), subnet, prefix, index, private_ipv4) {
            1nat
        } else {
            0nat
        }
    }
}

/// Whether all of the interfaces are one.
pub open spec fn all_one(found: Seq<(u32, Seq<char>)>) -> bool {
    forall|i: int| 0 <= i < found.len() ==> #[trigger] found[i] == found[0]
}

/// Whether `result` is what a machine's own view of its network comes to: a
/// report where exactly one interface has the private address and exactly one
/// route leads into the network over it, else the first thing that is wrong.
pub open spec fn guest_network(
    o: Ipv4NetworkObservation,
    cidr: Seq<char>,
    private_ipv4: Seq<char>,
    result: Result<GuestVpcNetworkReport, String>,
) -> bool {
    match private_network(cidr, private_ipv4) {
        Err(words) => result matches Err(e) && e@ == words,
        Ok(prefix) => {
            let found = private_interfaces(o.addresses@, o.links@, private_ipv4, prefix);
            if found.len() == 0 {
                result matches Err(e) && e@
                    == "guest did not expose the exact provider-observed private IPv4 on an UP VPC interface"@
            } else if !all_one(found) {
                result matches Err(e) && e@
                    == "guest private IPv4 observation is ambiguous across multiple interfaces"@
            } else {
                let (subnet, _) = split_at_char(cidr, '/')->0;
                let n = connected_routes(o.routes@, subnet, prefix, found[0].0, private_ipv4);
                if n != 1 {
                    result matches Err(e) && e@
                        == "guest did not expose exactly one connected kernel route for the verified VPC CIDR; observed "@
                        + decimal(n)
                } else {
                    &&& result matches Ok(report)
                    &&& report.status@ == "PASS"@
                    &&& report.interface@ == found[0].1
                    &&& report.cidr@ == cidr
                    &&& report.private_ipv4@ == private_ipv4
                }
            }
        },
    }
}

fn find_carrier(links: &Vec<Ipv4LinkObservation>, index: u32) -> (r: Option<usize>)
    ensures
        match r {
            Some(i) => i < links@.len() && carrier(links@, index) == Some(i as int),
            None => carrier(links@, index) is None,
        },
{
    let mut i: usize = 0;
    while i < links.len()
        invariant
            i <= links@.len(),
            carrier(links@.take(i as int), index) is None,
        decreases links@.len() - i,
    {
        assert(links@.take(i + 1).drop_last() =~= links@.take(i as int));
        let link: &Ipv4LinkObservation = &links[i];
        if link.interface_index == index && !link.loopback && link.up && link.lower_up {
            proof {
                lemma_carrier_stays(links@, index, i + 1, i as int);
            }
            return Some(i);
        }
        i = i + 1;
    }
    assert(links@.take(i as int) =~= links@);
    None
}

proof fn lemma_carrier_stays(links: Seq<Ipv4LinkObservation>, index: u32, n: int, i: int)
    requires
        0 <= n <= links.len(),
        carrier(links.take(n), index) == Some(i),
    ensures
        carrier(links, index) == Some(i),
    decreases links.len() - n,
{
    if n == links.len() {
        assert(links.take(n) =~= links);
    } else {
        assert(links.take(n + 1).drop_last() =~= links.take(n));
        lemma_carrier_stays(links, index, n + 1, i);
    }
}

proof fn lemma_interfaces_bound(
    addresses: Seq<Ipv4AddressObservation>,
    links: Seq<Ipv4LinkObservation>,
    private_ipv4: Seq<char>,
    prefix: nat,
    n: int,
)
    requires
        0 <= n <= addresses.len(),
    ensures
        private_interfaces(addresses.take(n), links, private_ipv4, prefix).len()
            <= private_interfaces(addresses, links, private_ipv4, prefix).len(),
        forall|i: int|
            0 <= i < private_interfaces(addresses.take(n), links, private_ipv4, prefix).len()
                ==> #[trigger] private_interfaces(addresses, links, private_ipv4, prefix)[i]
                == private_interfaces(addresses.take(n), links, private_ipv4, prefix)[i],
    decreases addresses.len() - n,
{
    if n == addresses.len() {
        assert(addresses.take(n) =~= addresses);
    } else {
        assert(addresses.take(n + 1).drop_last() =~= addresses.take(n));
        lemma_interfaces_bound(addresses, links, private_ipv4, prefix, n + 1);
        let a = private_interfaces(addresses.take(n), links, private_ipv4, prefix);
        let b = private_interfaces(addresses.take(n + 1), links, private_ipv4, prefix);
        let c = private_interfaces(addresses, links, private_ipv4, prefix);
        assert forall|i: int| 0 <= i < a.len() implies #[trigger] c[i] == a[i] by {
            assert(b[i] == a[i]);
        }
    }
}

/// Checks a machine's own view of its private network.
pub fn evaluate_guest_vpc_network(observation: &Ipv4NetworkObservation, ready: &VpcReadyReport) -> (r:
    Result<GuestVpcNetworkReport, String>)
    ensures
        guest_network(*observation, ready.cidr@, ready.private_ipv4@, r),
{
    let prefix: u8 = match validate_verified_private_network(
        ready.cidr.as_str(),
        ready.private_ipv4.as_str(),
    ) {
        Err(e) => return Err(e),
        Ok(prefix) => prefix,
    };
    let subnet: &str = match split_once(ready.cidr.as_str(), '/') {
        Some((subnet, _)) => subnet,
        None => return Err("verified Vultr VPC CIDR must use IPv4 prefix notation".to_owned()),
    };
    let ghost found = private_interfaces(
        observation.addresses@,
        observation.links@,
        ready.private_ipv4@,
        prefix as nat,
    );
    let mut first: Option<usize> = None;
    let mut i: usize = 0;
    let ghost all = observation.addresses@;
    while i < observation.addresses.len()
        invariant
            i <= all.len(),
            all == observation.addresses@,
            found == private_interfaces(
                all,
                observation.links@,
                ready.private_ipv4@,
                prefix as nat,
            ),
            private_network(ready.cidr@, ready.private_ipv4@) == Ok::<nat, Seq<char>>(
                prefix as nat,
            ),
            ({
                let part = private_interfaces(
                    all.take(i as int),
                    observation.links@,
                    ready.private_ipv4@,
                    prefix as nat,
                );
                match first {
                    None => part.len() == 0,
                    Some(k) => {
                        &&& part.len() > 0
                        &&& k < observation.links@.len()
                        &&& part[0] == (
                            observation.links@[k as int].interface_index,
                            observation.links@[k as int].name@,
                        )
                        &&& all_one(part)
                    },
                }
            }),
        decreases all.len() - i,
    {
        let ghost part = private_interfaces(
            all.take(i as int),
            observation.links@,
            ready.private_ipv4@,
            prefix as nat,
        );
        let ghost next = private_interfaces(
            all.take(i + 1),
            observation.links@,
            ready.private_ipv4@,
            prefix as nat,
        );
        proof {
            assert(all.take(i + 1).drop_last() =~= all.take(i as int));
            lemma_interfaces_bound(
                all,
                observation.links@,
                ready.private_ipv4@,
                prefix as nat,
                i + 1,
            );
        }
        let a: &Ipv4AddressObservation = &observation.addresses[i];
        if a.global_scope && same(a.address.as_str(), ready.private_ipv4.as_str())
            && a.prefix_length == prefix as u32 {
            match find_carrier(&observation.links, a.interface_index) {
                None => {},
                Some(k) => {
                    let link: &Ipv4LinkObservation = &observation.links[k];
                    assert(next == part.push((link.interface_index, link.name@)));
                    match first {
                        None => {
                            first = Some(k);
                        },
                        Some(j) => {
                            let before: &Ipv4LinkObservation = &observation.links[j];
                            if before.interface_index != link.interface_index || !same(
                                before.name.as_str(),
                                link.name.as_str(),
                            ) {
                                proof {
                                    assert(next[part.len() as int] != next[0]);
                                    assert(found[part.len() as int] != found[0]);
                                }
                                return Err(
                                    "guest private IPv4 observation is ambiguous across multiple interfaces".to_owned(),
                                );
                            }
                            assert(all_one(next)) by {
                                assert forall|m: int| 0 <= m < next.len() implies #[trigger] next[m]
                                    == next[0] by {
                                    if m < part.len() {
                                        assert(part[m] == part[0]);
                                    }
                                }
                            }
                        },
                    }
                },
            }
        }
        i = i + 1;
    }
    assert(all.take(i as int) =~= all);
    let link: &Ipv4LinkObservation = match first {
        None => return Err(
            "guest did not expose the exact provider-observed private IPv4 on an UP VPC interface".to_owned(),
        ),
        Some(k) => &observation.links[k],
    };
    let index: u32 = link.interface_index;
    let mut matches: usize = 0;
    let mut k: usize = 0;
    let ghost routes = observation.routes@;
    while k < observation.routes.len()
        invariant
            k <= routes.len(),
            routes == observation.routes@,
            matches <= k,
            matches == connected_routes(
                routes.take(k as int),
                subnet@,
                prefix as nat,
                index,
                ready.private_ipv4@,
            ),
        decreases routes.len() - k,
    {
        assert(routes.take(k + 1).drop_last() =~= routes.take(k as int));
        let route: &Ipv4RouteObservation = &observation.routes[k];
        let source: bool = match &route.preferred_source {
            Some(s) => same(s.as_str(), ready.private_ipv4.as_str()),
            None => false,
        };
        if same(route.destination.as_str(), subnet) && route.prefix_length == prefix as u32
            && route.output_interface_index == index && route.kernel_protocol && route.link_scope
            && source {
            matches = matches + 1;
        }
        k = k + 1;
    }
    assert(routes.take(k as int) =~= routes);
    if matches != 1 {
        return Err(
            cat2(
                "guest did not expose exactly one connected kernel route for the verified VPC CIDR; observed ",
                number(matches as u64).as_str(),
            ),
        );
    }
    Ok(
        GuestVpcNetworkReport {
            status: "PASS",
            interface: link.name.clone(),
            cidr: ready.cidr.clone(),
            private_ipv4: ready.private_ipv4.clone(),
        },
    )
}

/// A route of the mesh.
#[derive(Debug, Clone, PartialEq, Eq)]
pub struct MeshRouteSpec {
    pub network: String,
}

/// What the mesh is to be.
#[derive(Debug, PartialEq, Eq)]
pub struct DesiredMeshState {
    pub schema: u32,
    pub account_id: String,
    pub environment: String,
    pub node_name: String,
    pub routes: Vec<MeshRouteSpec>,
}

/// What an environment's private network is to be.
#[derive(Debug, PartialEq, Eq)]
pub struct DesiredVpcState {
    pub schema: u32,
    pub environment: String,
    pub region: String,
    pub machine_id: String,
}

/// Why the verified network may not become the mesh's route, if it may not.
pub open spec fn route_fault(
    mesh: DesiredMeshState,
    vpc: DesiredVpcState,
    ready: VpcReadyReport,
) -> Option<Seq<char>> {
    if mesh.routes@.len() > 0 {
        Some(
            "VPC-composed Mesh base spec must contain zero routes; run-local route authority comes only from verified Vultr VPC state"@,
        )
    } else if mesh.environment@ != vpc.environment@ {
        Some(
            "Mesh environment "@ + mesh.environment@ + " does not match Vultr VPC environment "@
                + vpc.environment@,
        )
    } else if ready.status@ != "PASS"@ {
        Some("Vultr VPC is not READY for Mesh route composition"@)
    } else if ready.target.region@ != vpc.region@ {
        Some(
            "verified Vultr target region "@ + ready.target.region@
                + " does not match VPC desired region "@ + vpc.region@,
        )
    } else {
        match private_network(ready.cidr@, ready.private_ipv4@) {
            Err(words) => Some(words),
            Ok(_) => None,
        }
    }
}

/// Whether a state is the base with the verified network as its one route.
pub open spec fn composed_with(
    base: DesiredMeshState,
    ready: VpcReadyReport,
    mesh: DesiredMeshState,
) -> bool {
    &&& mesh.routes@ == seq![MeshRouteSpec { network: ready.cidr }]
    &&& mesh.schema == base.schema
    &&& mesh.account_id == base.account_id
    &&& mesh.environment == base.environment
    &&& mesh.node_name == base.node_name
}

/// What becomes of a composed state, by what its validation says.
pub fn validated_vpc_route(composed: DesiredMeshState, validated: Result<(), String>) -> (r: Result<
    DesiredMeshState,
    String,
>)
    ensures
        match validated {
            Err(e) => r == Err::<DesiredMeshState, String>(e),
            Ok(()) => r == Ok::<DesiredMeshState, String>(composed),
        },
{
    match validated {
        Err(e) => Err(e),
        Ok(()) => Ok(composed),
    }
}

/// Gives the mesh the verified network as its one route. `validate` judges the
/// state that comes of it, which is handed out only where it is found valid.
pub fn compose_verified_vpc_route<F: Fn(&DesiredMeshState) -> Result<(), String>>(
    mesh_base: DesiredMeshState,
    vpc: &DesiredVpcState,
    ready: VpcReadyReport,
    validate: F,
) -> (r: Result<DesiredMeshState, String>)
    requires
        forall|mesh: DesiredMeshState| #[trigger] call_requires(validate, (&mesh,)),
    ensures
        match route_fault(mesh_base, *vpc, ready) {
            Some(words) => r matches Err(e) && e@ == words,
            None => exists|mesh: DesiredMeshState, validated: Result<(), String>|
                {
                    &&& composed_with(mesh_base, ready, mesh)
                    &&& #[trigger] call_ensures(validate, (&mesh,), validated)
                    &&& match validated {
                        Err(e) => r == Err::<DesiredMeshState, String>(e),
                        Ok(()) => r == Ok::<DesiredMeshState, String>(mesh),
                    }
                },
        },
{
    if mesh_base.routes.len() > 0 {
        return Err(
            "VPC-composed Mesh base spec must contain zero routes; run-local route authority comes only from verified Vultr VPC state".to_owned(),
        );
    }
    if !same(mesh_base.environment.as_str(), vpc.environment.as_str()) {
        return Err(
            cat4(
                "Mesh environment ",
                mesh_base.environment.as_str(),
                " does not match Vultr VPC environment ",
                vpc.environment.as_str(),
            ),
        );
    }
    if !same(ready.status, "PASS") {
        return Err("Vultr VPC is not READY for Mesh route composition".to_owned());
    }
    if !same(ready.target.region.as_str(), vpc.region.as_str()) {
        return Err(
            cat4(
                "verified Vultr target region ",
                ready.target.region.as_str(),
                " does not match VPC desired region ",
                vpc.region.as_str(),
            ),
        );
    }
    match validate_verified_private_network(ready.cidr.as_str(), ready.private_ipv4.as_str()) {
        Err(e) => return Err(e),
        Ok(_) => {},
    }
    let mut routes: Vec<MeshRouteSpec> = Vec::new();
    routes.push(MeshRouteSpec { network: ready.cidr });
    assert(routes@ =~= seq![MeshRouteSpec { network: ready.cidr }]);
    let composed: DesiredMeshState = DesiredMeshState {
        schema: mesh_base.schema,
        account_id: mesh_base.account_id,
        environment: mesh_base.environment,
        node_name: mesh_base.node_name,
        routes,
    };
    assert(composed_with(mesh_base, ready, composed));
    let outcome: Result<(), String> = validate(&composed);
    validated_vpc_route(composed, outcome)
}

/// The mesh's route is a private network that holds the machine's private
/// address, and comes from nothing but what was verified.
pub proof fn law_mesh_route_is_the_verified_private_network(
    mesh: DesiredMeshState,
    vpc: DesiredVpcState,
    ready: VpcReadyReport,
)
    requires
        route_fault(mesh, vpc, ready) is None,
    ensures
        mesh.routes@.len() == 0,
        private_network(ready.cidr@, ready.private_ipv4@) is Ok,
        exists|subnet: Ipv4, ip: Ipv4, prefix: nat| #[trigger]
            network_of(ready.cidr@, ready.private_ipv4@, subnet, ip, prefix),
{
    let prefix = private_network(ready.cidr@, ready.private_ipv4@)->Ok_0;
    let (subnet_text, prefix_text) = split_at_char(ready.cidr@, '/')->0;
    let subnet = choose|x: Ipv4| #[trigger] x.dotted() == subnet_text;
    let ip = choose|x: Ipv4| #[trigger] x.dotted() == ready.private_ipv4@;
    assert(network_of(ready.cidr@, ready.private_ipv4@, subnet, ip, prefix));
}

/// Whether the text is the network of `subnet` and `prefix`, private, and
/// `ip` is a private address in it.
pub open spec fn network_of(
    cidr: Seq<char>,
    private_ipv4: Seq<char>,
    subnet: Ipv4,
    ip: Ipv4,
    prefix: nat,
) -> bool {
    &&& split_at_char(cidr, '/') matches Some((subnet_text, prefix_text))
    &&& subnet.dotted() == subnet_text
    &&& number_value(prefix_text, 255) == Ok::<nat, NumberFault>(prefix)
    &&& 1 <= prefix <= 32
    &&& subnet.private()
    &&& block_start(subnet.value(), block_size(prefix)) == subnet.value()
    &&& ip.dotted() == private_ipv4
    &&& ip.private()
    &&& block_start(ip.value(), block_size(prefix)) == subnet.value()
}

/// What the mesh's runtime on a machine is seen to be.
#[derive(Debug, PartialEq, Eq)]
pub struct MeshRuntimeState {
    pub token_store_present: bool,
    pub container_running: bool,
    pub exact_image_ready: bool,
    pub runtime_ready: bool,
    pub warnings: Vec<String>,
}

/// What was done to the mesh's runtime.
#[derive(Debug, Clone, Copy, PartialEq, Eq, Structural)]
pub enum MeshRuntimeStep {
    Converged,
    Verified,
    Cleaned,
}

/// Checks the mesh's runtime after a step: it is ready, or gone after a
/// cleanup.
pub fn check_mesh_runtime(step: MeshRuntimeStep, state: &MeshRuntimeState) -> (r: Result<
    (),
    String,
>)
    ensures
        match step {
            MeshRuntimeStep::Converged => if state.runtime_ready {
                r is Ok
            } else {
                r matches Err(e) && e@ == "Mesh runtime convergence completed without READY: "@
                    + joined(texts(state.warnings@), "; "@)
            },
            MeshRuntimeStep::Verified => if state.runtime_ready {
                r is Ok
            } else {
                r matches Err(e) && e@ == "Mesh runtime verify did not observe READY: "@ + joined(
                    texts(state.warnings@),
                    "; "@,
                )
            },
            MeshRuntimeStep::Cleaned => if !state.token_store_present
                && !state.container_running {
                r is Ok
            } else {
                r matches Err(e) && e@ == "Mesh runtime cleanup did not observe exact absence"@
            },
        },
{
    match step {
        MeshRuntimeStep::Converged => {
            if state.runtime_ready {
                Ok(())
            } else {
                Err(
                    cat2(
                        "Mesh runtime convergence completed without READY: ",
                        join(&state.warnings, "; ").as_str(),
                    ),
                )
            }
        },
        MeshRuntimeStep::Verified => {
            if state.runtime_ready {
                Ok(())
            } else {
                Err(
                    cat2(
                        "Mesh runtime verify did not observe READY: ",
                        join(&state.warnings, "; ").as_str(),
                    ),
                )
            }
        },
        MeshRuntimeStep::Cleaned => {
            if state.token_store_present || state.container_running {
                Err("Mesh runtime cleanup did not observe exact absence".to_owned())
            } else {
                Ok(())
            }
        },
    }
}

/// A mesh gets a route only from a network that was verified, in the wanted
/// region, for its own environment, and only where it has none of its own; then
/// it gets that network and nothing else changes.
pub proof fn law_routes_come_from_verified_networks(
    mesh: DesiredMeshState,
    vpc: DesiredVpcState,
    ready: VpcReadyReport,
)
    ensures
        route_fault(mesh, vpc, ready) is None <==> {
            &&& mesh.routes@.len() == 0
            &&& mesh.environment@ == vpc.environment@
            &&& ready.status@ == "PASS"@
            &&& ready.target.region@ == vpc.region@
            &&& private_network(ready.cidr@, ready.private_ipv4@) is Ok
        },
        forall|after: DesiredMeshState| #[trigger]
            composed_with(mesh, ready, after) ==> after.routes@.len() == 1
                && after.routes@[0].network@ == ready.cidr@ && after.account_id == mesh.account_id
                && after.environment == mesh.environment && after.node_name == mesh.node_name,
{
}

/// A composed state stands exactly where its validation says so.
pub proof fn law_composed_states_are_validated(
    composed: DesiredMeshState,
    validated: Result<(), String>,
    r: Result<DesiredMeshState, String>,
)
    requires
        call_ensures(validated_vpc_route, (composed, validated), r),
    ensures
        r is Ok <==> validated is Ok,
        r matches Ok(mesh) ==> mesh == composed,
        validated matches Err(e) ==> r == Err::<DesiredMeshState, String>(e),
{
}

proof fn lemma_carrier(links: Seq<Ipv4LinkObservation>, index: u32)
    ensures
        carrier(links, index) matches Some(i) ==> 0 <= i < links.len()
            && links[i].interface_index == index && !links[i].loopback && links[i].up
            && links[i].lower_up,
    decreases links.len(),
{
    if links.len() > 0 {
        lemma_carrier(links.drop_last(), index);
        if carrier(links.drop_last(), index) is Some {
            assert(links[carrier(links.drop_last(), index)->Some_0] == links.drop_last()[carrier(
                links.drop_last(),
                index,
            )->Some_0]);
        }
    }
}

proof fn lemma_private_interfaces(
    addresses: Seq<Ipv4AddressObservation>,
    links: Seq<Ipv4LinkObservation>,
    private_ipv4: Seq<char>,
    prefix: nat,
    k: int,
)
    requires
        0 <= k < private_interfaces(addresses, links, private_ipv4, prefix).len(),
    ensures
        ({
            let found = private_interfaces(addresses, links, private_ipv4, prefix);
            exists|a: int, l: int|
                0 <= a < addresses.len() && 0 <= l < links.len() && (
                #[trigger] addresses[a]).global_scope && addresses[a].address@ == private_ipv4
                    && addresses[a].prefix_length == prefix && addresses[a].interface_index
                    == found[k].0 && (#[trigger] links[l]).interface_index == found[k].0
                    && links[l].name@ == found[k].1 && links[l].up && links[l].lower_up
                    && !links[l].loopback
        }),
    decreases addresses.len(),
{
    let found = private_interfaces(addresses, links, private_ipv4, prefix);
    let rest = addresses.drop_last();
    let head = private_interfaces(rest, links, private_ipv4, prefix);
    let n = addresses.len() - 1;
    if k < head.len() {
        lemma_private_interfaces(rest, links, private_ipv4, prefix, k);
        let (a, l) = choose|a: int, l: int|
            0 <= a < rest.len() && 0 <= l < links.len() && (#[trigger] rest[a]).global_scope
                && rest[a].address@ == private_ipv4 && rest[a].prefix_length == prefix
                && rest[a].interface_index == head[k].0 && (
            #[trigger] links[l]).interface_index == head[k].0 && links[l].name@ == head[k].1
                && links[l].up && links[l].lower_up && !links[l].loopback;
        assert(addresses[a] == rest[a]);
        assert(found[k] == head[k]);
    } else {
        lemma_carrier(links, addresses[n].interface_index);
        let l = carrier(links, addresses[n].interface_index)->Some_0;
        assert(addresses[n].global_scope);
        assert(links[l].interface_index == found[k].0);
    }
}

proof fn lemma_connected_routes(
    routes: Seq<Ipv4RouteObservation>,
    subnet: Seq<char>,
    prefix: nat,
    index: u32,
    private_ipv4: Seq<char>,
)
    requires
        connected_routes(routes, subnet, prefix, index, private_ipv4) > 0,
    ensures
        exists|k: int|
            0 <= k < routes.len() && (#[trigger] routes[k]).destination@ == subnet
                && routes[k].prefix_length == prefix && routes[k].output_interface_index == index
                && routes[k].kernel_protocol && routes[k].link_scope && (
            routes[k].preferred_source matches Some(s) && s@ == private_ipv4),
    decreases routes.len(),
{
    let head = routes.drop_last();
    if is_connected_route(routes.last(), subnet, prefix, index, private_ipv4) {
        assert(routes[routes.len() - 1].destination@ == subnet);
    } else {
        lemma_connected_routes(head, subnet, prefix, index, private_ipv4);
        let k = choose|k: int|
            0 <= k < head.len() && (#[trigger] head[k]).destination@ == subnet
                && head[k].prefix_length == prefix && head[k].output_interface_index == index
                && head[k].kernel_protocol && head[k].link_scope && (
            head[k].preferred_source matches Some(s) && s@ == private_ipv4);
        assert(routes[k] == head[k]);
    }
}

/// A machine's network passes only where an interface that is up and connected
/// has the very address and size that the provider has verified, and the kernel
/// itself routes that network over it.
pub proof fn law_a_machines_network_passes_only_where_it_is_up(
    observation: Ipv4NetworkObservation,
    ready: VpcReadyReport,
    prefix: nat,
    report: GuestVpcNetworkReport,
)
    requires
        call_ensures(
            evaluate_guest_vpc_network,
            (&observation, &ready),
            Ok::<GuestVpcNetworkReport, String>(report),
        ),
        private_network(ready.cidr@, ready.private_ipv4@) == Ok::<nat, Seq<char>>(prefix),
    ensures
        report.status@ == "PASS"@,
        report.cidr@ == ready.cidr@,
        report.private_ipv4@ == ready.private_ipv4@,
        exists|a: int, l: int|
            0 <= a < observation.addresses@.len() && 0 <= l < observation.links@.len() && (
            #[trigger] observation.addresses@[a]).global_scope
                && observation.addresses@[a].address@ == ready.private_ipv4@
                && observation.addresses@[a].prefix_length == prefix
                && observation.addresses@[a].interface_index
                == observation.links@[l].interface_index && (
            #[trigger] observation.links@[l]).name@ == report.interface@ && observation.links@[l].up
                && observation.links@[l].lower_up && !observation.links@[l].loopback,
        exists|k: int|
            0 <= k < observation.routes@.len() && (
            #[trigger] observation.routes@[k]).prefix_length == prefix
                && observation.routes@[k].kernel_protocol && observation.routes@[k].link_scope && (
            observation.routes@[k].preferred_source matches Some(s) && s@ == ready.private_ipv4@)
                && observation.routes@[k].destination@ == (split_at_char(ready.cidr@, '/')->Some_0).0,
{
    let found = private_interfaces(
        observation.addresses@,
        observation.links@,
        ready.private_ipv4@,
        prefix,
    );
    lemma_private_interfaces(
        observation.addresses@,
        observation.links@,
        ready.private_ipv4@,
        prefix,
        0,
    );
    let (subnet, _) = split_at_char(ready.cidr@, '/')->0;
    lemma_connected_routes(
        observation.routes@,
        subnet,
        prefix,
        found[0].0,
        ready.private_ipv4@,
    );
}

/// The mesh's runtime has passed once it is ready, and is gone once neither its
/// token nor its container is there.
pub proof fn law_the_mesh_runtime_is_ready_or_gone(
    step: MeshRuntimeStep,
    state: MeshRuntimeState,
    r: Result<(), String>,
)
    requires
        call_ensures(check_mesh_runtime, (step, &state), r),
    ensures
        step is Cleaned ==> (r is Ok <==> !state.token_store_present && !state.container_running),
        !(step is Cleaned) ==> (r is Ok <==> state.runtime_ready),
{
}

/// The commands are told apart by their words. One that composes the mesh with a
/// network names all three states, and only the one that removes the mesh takes
/// the digest that allows it.
pub proof fn law_mesh_commands_name_their_states(args: Vec<String>, r: Result<MeshCommand, String>)
    requires
        call_ensures(read_mesh_command, (&args,), r),
    ensures
        r matches Ok(command) ==> {
            &&& 2 <= args@.len() <= 4
            &&& command is VpcPlan || command is VpcApply || command is VpcRuntimeApply
                || command is VpcRuntimeVerify <==> args@.len() == 4
            &&& command is CleanupApply || command is RuntimeApply || command is RuntimeVerify
                <==> args@.len() == 3
            &&& command is CleanupApply <==> args@[0]@ == "cleanup-apply"@
            &&& command is Apply <==> args@[0]@ == "apply"@
            &&& command is Plan <==> args@[0]@ == "plan"@
            &&& command is VpcApply <==> args@[0]@ == "vpc-apply"@
            &&& command is VpcPlan <==> args@[0]@ == "vpc-plan"@
            &&& command is RuntimeApply <==> args@[0]@ == "runtime-apply"@
            &&& command is RuntimeVerify <==> args@[0]@ == "runtime-verify"@
            &&& command is RuntimeCleanup <==> args@[0]@ == "runtime-cleanup"@
            &&& command is VpcRuntimeApply <==> args@[0]@ == "vpc-runtime-apply"@
            &&& command is VpcRuntimeVerify <==> args@[0]@ == "vpc-runtime-verify"@
        },
        args@.len() == 4 && (args@[0]@ == "vpc-plan"@ || args@[0]@ == "vpc-apply"@) ==> r is Ok,
        args@.len() == 2 && (args@[0]@ == "plan"@ || args@[0]@ == "apply"@) ==> r is Ok,
{
    reveal_strlit("inventory");
    reveal_strlit("plan");
    reveal_strlit("apply");
    reveal_strlit("vpc-plan");
    reveal_strlit("vpc-apply");
    reveal_strlit("cleanup-plan");
    reveal_strlit("cleanup-apply");
    reveal_strlit("runtime-apply");
    reveal_strlit("vpc-runtime-apply");
    reveal_strlit("runtime-verify");
    reveal_strlit("vpc-runtime-verify");
    reveal_strlit("runtime-cleanup");
    assert("inventory"@.len() == 9 && "plan"@.len() == 4 && "apply"@.len() == 5);
    assert("vpc-plan"@.len() == 8 && "vpc-apply"@.len() == 9 && "cleanup-plan"@.len() == 12);
    assert("cleanup-apply"@.len() == 13 && "runtime-apply"@.len() == 13);
    assert("vpc-runtime-apply"@.len() == 17 && "runtime-verify"@.len() == 14);
    assert("vpc-runtime-verify"@.len() == 18 && "runtime-cleanup"@.len() == 15);
    assert("inventory"@[0] == 'i' && "vpc-apply"@[0] == 'v');
    assert("cleanup-apply"@[0] == 'c' && "runtime-apply"@[0] == 'r');
    let all = texts(args@);
    assert(all.len() == args@.len());
    if args@.len() > 0 {
        assert(all[0] == args@[0]@);
    }
}

/// A mesh gets its route only from a network that was verified for the same
/// environment and region, and only where the whole is found to be in order.
pub proof fn law_a_composed_route_is_that_of_the_verified_network<
    F: Fn(&DesiredMeshState) -> Result<(), String>,
>(
    base: DesiredMeshState,
    vpc: DesiredVpcState,
    ready: VpcReadyReport,
    validate: F,
    r: Result<DesiredMeshState, String>,
)
    requires
        call_ensures(compose_verified_vpc_route::<F>, (base, &vpc, ready, validate), r),
    ensures
        base.routes@.len() > 0 ==> r is Err,
        base.environment@ != vpc.environment@ ==> r is Err,
        ready.status@ != "PASS"@ ==> r is Err,
        ready.target.region@ != vpc.region@ ==> r is Err,
        r matches Ok(mesh) ==> {
            &&& mesh.routes@.len() == 1
            &&& mesh.routes@[0].network@ == ready.cidr@
            &&& mesh.account_id == base.account_id
            &&& mesh.environment == base.environment
            &&& mesh.node_name == base.node_name
            &&& exists|v: Result<(), String>| v is Ok && #[trigger] call_ensures(validate, (&mesh,), v)
        },
{
    if let Ok(mesh) = r {
        assert(route_fault(base, vpc, ready) is None);
        let (after, validated) = choose|after: DesiredMeshState, validated: Result<(), String>|
            {
                &&& composed_with(base, ready, after)
                &&& #[trigger] call_ensures(validate, (&after,), validated)
                &&& match validated {
                    Err(e) => r == Err::<DesiredMeshState, String>(e),
                    Ok(()) => r == Ok::<DesiredMeshState, String>(after),
                }
            };
        assert(validated is Ok);
        assert(call_ensures(validate, (&mesh,), validated));
        assert(mesh.routes@[0] == (MeshRouteSpec { network: ready.cidr }));
    }
}

} // verus!
