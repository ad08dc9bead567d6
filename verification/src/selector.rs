//! The routes that the proxy takes: which are wanted, which it takes, and how
//! it is told.

use crate::requests::{Status, StatusCode, says};
use crate::text::{blank, cat2, cat4, cat5, copy_option, copy_texts, is_blank, same, texts};
use vstd::prelude::*;
use vstd::string::*;

verus! {

/// The routes of the desktop.
pub const DESKTOP_SELECTOR_GROUP: &'static str = "proxy-selector";

/// The routes of the Ubuntu side.
pub const UBUNTU_SELECTOR_GROUP: &'static str = "wsl-selector";

/// The route that is wanted where nothing says otherwise.
pub const DEFAULT_ROUTE: &'static str = "auto-direct-tunnel";

/// What is said where the proxy cannot be controlled.
pub const NO_CLASH_ENDPOINT: &'static str = "clash API endpoint is not configured";

/// The route of a group, wanted and taken. The groups behind it are kept as
/// they are sent.
#[derive(Debug, PartialEq, Eq)]
pub struct SelectorState {
    pub desired_main_route: Option<String>,
    pub observed_main_route: Option<String>,
    pub degraded: bool,
    pub proxy_groups: Vec<Vec<u8>>,
    pub warnings: Vec<String>,
}

/// Whether the proxy takes the route that is wanted.
pub open spec fn converged(s: SelectorState) -> bool {
    &&& s.desired_main_route is Some
    &&& s.desired_main_route.deep_view() == s.observed_main_route.deep_view()
    &&& !s.degraded
}

/// Whether the proxy takes the route that is wanted.
pub fn selector_is_converged(selector: &SelectorState) -> (r: bool)
    ensures
        r == converged(*selector),
{
    match (&selector.desired_main_route, &selector.observed_main_route) {
        (Some(wanted), Some(taken)) => same(wanted.as_str(), taken.as_str()) && !selector.degraded,
        _ => false,
    }
}

/// What is wanted, with what the proxy says.
pub open spec fn merged_selector(base: SelectorState, live: SelectorState, r: SelectorState) -> bool {
    &&& r.desired_main_route == base.desired_main_route
    &&& r.observed_main_route == live.observed_main_route
    &&& r.degraded == (base.degraded || live.degraded)
    &&& r.proxy_groups == live.proxy_groups
    &&& r.warnings@ == base.warnings@ + live.warnings@
}

/// Puts what is wanted and what the proxy says together.
pub fn merge_selector_state(base: SelectorState, live: SelectorState) -> (r: SelectorState)
    ensures
        merged_selector(base, live, r),
{
    let mut warnings: Vec<String> = base.warnings;
    let mut more: Vec<String> = live.warnings;
    warnings.append(&mut more);
    SelectorState {
        desired_main_route: base.desired_main_route,
        observed_main_route: live.observed_main_route,
        degraded: base.degraded || live.degraded,
        proxy_groups: live.proxy_groups,
        warnings,
    }
}

/// A group whose route could not be found out, and why.
pub open spec fn degraded_selector(base: SelectorState, why: Seq<char>, r: SelectorState) -> bool {
    &&& r.desired_main_route == base.desired_main_route
    &&& r.observed_main_route == base.observed_main_route
    &&& r.degraded
    &&& r.proxy_groups == base.proxy_groups
    &&& texts(r.warnings@) == texts(base.warnings@).push(why)
}

fn degrade(base: SelectorState, why: String) -> (r: SelectorState)
    ensures
        degraded_selector(base, why@, r),
{
    let ghost before = base.warnings@;
    let ghost words = why@;
    let mut warnings: Vec<String> = base.warnings;
    warnings.push(why);
    assert(texts(warnings@) =~= texts(before).push(words));
    SelectorState {
        desired_main_route: base.desired_main_route,
        observed_main_route: base.observed_main_route,
        degraded: true,
        proxy_groups: base.proxy_groups,
        warnings,
    }
}

/// What is known of a group's route. `live` is what the proxy says, where it
/// can be asked at all.
pub fn observe_selector_state(
    base: SelectorState,
    live: Option<Result<SelectorState, String>>,
) -> (r: SelectorState)
    ensures
        match live {
            None => degraded_selector(base, NO_CLASH_ENDPOINT@, r),
            Some(Ok(l)) => merged_selector(base, l, r),
            Some(Err(e)) => degraded_selector(base, e@, r),
        },
{
    match live {
        None => degrade(base, NO_CLASH_ENDPOINT.to_owned()),
        Some(Ok(l)) => merge_selector_state(base, l),
        Some(Err(e)) => degrade(base, e),
    }
}

/// Which group a name stands for.
#[derive(Debug, Clone, Copy, PartialEq, Eq, Structural)]
pub enum SelectorGroup {
    Desktop,
    Ubuntu,
}

/// The name of a group.
pub open spec fn group_name(group: SelectorGroup) -> Seq<char> {
    match group {
        SelectorGroup::Desktop => DESKTOP_SELECTOR_GROUP@,
        SelectorGroup::Ubuntu => UBUNTU_SELECTOR_GROUP@,
    }
}

impl SelectorGroup {
    /// The name of the group.
    pub fn name(self) -> (r: &'static str)
        ensures
            r@ == group_name(self),
    {
        match self {
            SelectorGroup::Desktop => DESKTOP_SELECTOR_GROUP,
            SelectorGroup::Ubuntu => UBUNTU_SELECTOR_GROUP,
        }
    }
}

/// The group that a name stands for, which is the desktop's where none is
/// given.
pub open spec fn group_of(name: Option<Seq<char>>) -> Option<SelectorGroup> {
    match name {
        None => Some(SelectorGroup::Desktop),
        Some(n) => if n == UBUNTU_SELECTOR_GROUP@ {
            Some(SelectorGroup::Ubuntu)
        } else if n == DESKTOP_SELECTOR_GROUP@ || blank(n) {
            Some(SelectorGroup::Desktop)
        } else {
            None
        },
    }
}

/// Reads the name of a group.
pub fn normalize_selector_group(group: &Option<String>) -> (r: Result<SelectorGroup, Status>)
    ensures
        match r {
            Ok(g) => group_of(group.deep_view()) == Some(g),
            Err(s) => {
                &&& group_of(group.deep_view()) is None
                &&& *group matches Some(n)
                &&& says(s, StatusCode::InvalidArgument, "unknown selector group: "@ + n@)
            },
        },
{
    match group {
        None => Ok(SelectorGroup::Desktop),
        Some(n) => {
            if same(n.as_str(), UBUNTU_SELECTOR_GROUP) {
                Ok(SelectorGroup::Ubuntu)
            } else if same(n.as_str(), DESKTOP_SELECTOR_GROUP) || is_blank(n.as_str()) {
                Ok(SelectorGroup::Desktop)
            } else {
                Err(Status::invalid_argument(cat2("unknown selector group: ", n.as_str())))
            }
        },
    }
}

/// The name of a group stands for that group.
pub proof fn law_group_names_read_back(group: SelectorGroup)
    ensures
        group_of(Some(group_name(group))) == Some(group),
{
    reveal_strlit("proxy-selector");
    reveal_strlit("wsl-selector");
    assert("proxy-selector"@.len() == 14);
    assert("wsl-selector"@.len() == 12);
}

/// Whether somebody may ask for that route.
pub open spec fn allowed_route(route: Seq<char>) -> bool {
    route == "auto-direct-tunnel"@ || route == "hysteria2-direct"@ || route
        == "vless-reality-direct"@ || route == "auto-warp-tunnel"@ || route == "hysteria2-warp"@
        || route == "vless-reality-warp"@
}

/// Whether somebody may ask for that route.
pub fn is_allowed_selector_route(route: &str) -> (r: bool)
    ensures
        r == allowed_route(route@),
{
    same(route, "auto-direct-tunnel") || same(route, "hysteria2-direct") || same(
        route,
        "vless-reality-direct",
    ) || same(route, "auto-warp-tunnel") || same(route, "hysteria2-warp") || same(
        route,
        "vless-reality-warp",
    )
}

/// The route that is wanted where nothing says otherwise is one that somebody
/// may ask for.
pub proof fn law_default_route_is_allowed()
    ensures
        allowed_route(DEFAULT_ROUTE@),
{
}

/// The first note on an operation that sets a route.
pub fn selector_event(group: &str, name: &str) -> (r: String)
    ensures
        r@ == "setting selector "@ + group@ + " -> "@ + name@,
{
    cat4("setting selector ", group, " -> ", name)
}

/// The answer to a request for a route, and what the journal is told.
#[derive(Debug, PartialEq, Eq)]
pub struct SetSelectorReport {
    pub event: Option<String>,
    pub success: bool,
    pub previous: Option<String>,
    pub current: Option<String>,
    pub warnings: Vec<String>,
    pub selector: SelectorState,
}

/// Checks a request for a route before anything is done: the group must be
/// known and the route allowed. An unknown group leaves the operation as it is,
/// a route that is not allowed fails it, which the second part of a refusal
/// says.
pub fn check_selector_request(group: String, name: &str) -> (r: Result<
    SelectorGroup,
    (Status, bool),
>)
    ensures
        match group_of(Some(group@)) {
            None => r matches Err((s, fails)) && !fails && says(
                s,
                StatusCode::InvalidArgument,
                "unknown selector group: "@ + group@,
            ),
            Some(g) => if allowed_route(name@) {
                r == Ok::<SelectorGroup, (Status, bool)>(g)
            } else {
                r matches Err((s, fails)) && fails && says(
                    s,
                    StatusCode::InvalidArgument,
                    "unknown selector route: "@ + name@,
                )
            },
        },
{
    match normalize_selector_group(&Some(group)) {
        Err(s) => Err((s, false)),
        Ok(g) => {
            if is_allowed_selector_route(name) {
                Ok(g)
            } else {
                Err((Status::invalid_argument(cat2("unknown selector route: ", name)), true))
            }
        },
    }
}

/// The answer where the proxy cannot be controlled.
pub fn selector_without_endpoint(base: SelectorState) -> (r: SetSelectorReport)
    ensures
        r.event is None,
        !r.success,
        r.previous is None,
        r.current is None,
        texts(r.warnings@) == seq![NO_CLASH_ENDPOINT@],
        r.selector == base,
{
    let mut warnings: Vec<String> = Vec::new();
    warnings.push(NO_CLASH_ENDPOINT.to_owned());
    assert(texts(warnings@) =~= seq![NO_CLASH_ENDPOINT@]);
    SetSelectorReport {
        event: None,
        success: false,
        previous: None,
        current: None,
        warnings,
        selector: base,
    }
}

/// The answer to a route that was set: `stored` says whether what is wanted
/// could be kept, without which the request has failed.
pub open spec fn selector_answer(
    name: Seq<char>,
    previous: Option<String>,
    live: SelectorState,
    stored: Result<(), String>,
    r: SetSelectorReport,
) -> bool {
    &&& r.previous == previous
    &&& r.current == live.observed_main_route
    &&& r.warnings@ == r.selector.warnings@
    &&& match stored {
        Err(e) => {
            &&& r.event.deep_view() == Some(e@)
            &&& !r.success
            &&& degraded_selector(live, e@, r.selector)
        },
        Ok(()) => {
            &&& r.event.deep_view() == Some("selector updated successfully"@)
            &&& r.success
            &&& r.selector.desired_main_route.deep_view() == Some(name)
            &&& r.selector.observed_main_route == live.observed_main_route
            &&& r.selector.degraded == live.degraded
            &&& r.selector.proxy_groups == live.proxy_groups
            &&& r.selector.warnings == live.warnings
        },
    }
}

/// Answers a request for a route that the proxy has set.
pub fn set_selector(
    name: &str,
    previous: Option<String>,
    live: SelectorState,
    stored: Result<(), String>,
) -> (r: SetSelectorReport)
    ensures
        selector_answer(name@, previous, live, stored, r),
{
    match stored {
        Err(e) => {
            let event: String = e.clone();
            let selector: SelectorState = degrade(live, e);
            SetSelectorReport {
                event: Some(event),
                success: false,
                previous,
                current: copy_option(&selector.observed_main_route),
                warnings: copy_texts(&selector.warnings),
                selector,
            }
        },
        Ok(()) => {
            let mut selector: SelectorState = live;
            selector.desired_main_route = Some(name.to_owned());
            SetSelectorReport {
                event: Some("selector updated successfully".to_owned()),
                success: true,
                previous,
                current: copy_option(&selector.observed_main_route),
                warnings: copy_texts(&selector.warnings),
                selector,
            }
        },
    }
}

/// Answers a request for a route that the proxy has not set.
pub fn selector_not_set(base: SelectorState, failure: String) -> (r: SetSelectorReport)
    ensures
        r.event.deep_view() == Some(failure@),
        !r.success,
        r.previous == base.observed_main_route,
        r.current == base.observed_main_route,
        degraded_selector(base, failure@, r.selector),
        r.warnings@ == r.selector.warnings@,
{
    let event: String = failure.clone();
    let selector: SelectorState = degrade(base, failure);
    SetSelectorReport {
        event: Some(event),
        success: false,
        previous: copy_option(&selector.observed_main_route),
        current: copy_option(&selector.observed_main_route),
        warnings: copy_texts(&selector.warnings),
        selector,
    }
}

/// A request for a route succeeds only where the proxy set the route and the
/// wish for it was kept, and then the wish is the route that was asked for.
pub proof fn law_route_is_set_only_when_kept(
    name: Seq<char>,
    previous: Option<String>,
    live: SelectorState,
    stored: Result<(), String>,
    r: SetSelectorReport,
)
    requires
        selector_answer(name, previous, live, stored, r),
    ensures
        r.success <==> stored is Ok,
        r.success ==> r.selector.desired_main_route.deep_view() == Some(name),
        !r.success ==> !converged(r.selector),
{
}

/// The route that is wanted of a group for which none is kept: what the proxy
/// takes, or what its configuration says, or the default.
pub fn seed_route(live: Option<String>, configured: Option<String>) -> (r: String)
    ensures
        r@ == match (live, configured) {
            (Some(route), _) => route@,
            (None, Some(route)) => route@,
            (None, None) => DEFAULT_ROUTE@,
        },
{
    match live {
        Some(route) => route,
        None => match configured {
            Some(route) => route,
            None => DEFAULT_ROUTE.to_owned(),
        },
    }
}

/// The groups for which no wish is kept, in order.
pub fn groups_without_intent(desktop_kept: bool, ubuntu_kept: bool) -> (r: Vec<SelectorGroup>)
    ensures
        r@ == (if desktop_kept {
            Seq::<SelectorGroup>::empty()
        } else {
            seq![SelectorGroup::Desktop]
        }) + (if ubuntu_kept {
            Seq::<SelectorGroup>::empty()
        } else {
            seq![SelectorGroup::Ubuntu]
        }),
{
    let mut groups: Vec<SelectorGroup> = Vec::new();
    if !desktop_kept {
        groups.push(SelectorGroup::Desktop);
    }
    if !ubuntu_kept {
        groups.push(SelectorGroup::Ubuntu);
    }
    assert(groups@ =~= (if desktop_kept {
        Seq::<SelectorGroup>::empty()
    } else {
        seq![SelectorGroup::Desktop]
    }) + (if ubuntu_kept {
        Seq::<SelectorGroup>::empty()
    } else {
        seq![SelectorGroup::Ubuntu]
    }));
    groups
}

/// A wish for a route, and what came of telling the proxy.
#[derive(Debug, PartialEq, Eq)]
pub struct IntentOutcome {
    pub group_name: String,
    pub desired_route: String,
    pub failure: Option<String>,
}

/// What is said of the wishes that the proxy did not take.
pub open spec fn intent_warnings(outcomes: Seq<IntentOutcome>) -> Seq<Seq<char>>
    decreases outcomes.len(),
{
    if outcomes.len() == 0 {
        Seq::empty()
    } else {
        let o = outcomes.last();
        match o.failure {
            None => intent_warnings(outcomes.drop_last()),
            Some(e) => intent_warnings(outcomes.drop_last()).push(
                o.group_name@ + " -> "@ + o.desired_route@ + " reconciliation failed: "@ + e@,
            ),
        }
    }
}

/// Tells of the wishes that the proxy did not take. Where it cannot be
/// controlled, nothing was told to it.
pub fn reconcile_selector_intents_for_running_local(controllable: bool, outcomes: &Vec<IntentOutcome>) -> (r: Vec<
    String,
>)
    ensures
        texts(r@) == if controllable {
            intent_warnings(outcomes@)
        } else {
            seq![NO_CLASH_ENDPOINT@]
        },
{
    let mut warnings: Vec<String> = Vec::new();
    if !controllable {
        warnings.push(NO_CLASH_ENDPOINT.to_owned());
        assert(texts(warnings@) =~= seq![NO_CLASH_ENDPOINT@]);
        return warnings;
    }
    let mut i: usize = 0;
    assert(texts(warnings@) =~= Seq::<Seq<char>>::empty());
    while i < outcomes.len()
        invariant
            i <= outcomes@.len(),
            texts(warnings@) == intent_warnings(outcomes@.take(i as int)),
        decreases outcomes@.len() - i,
    {
        assert(outcomes@.take(i + 1).drop_last() =~= outcomes@.take(i as int));
        let o: &IntentOutcome = &outcomes[i];
        match &o.failure {
            None => {},
            Some(e) => {
                let ghost before = warnings@;
                let words: String = cat5(
                    o.group_name.as_str(),
                    " -> ",
                    o.desired_route.as_str(),
                    " reconciliation failed: ",
                    e.as_str(),
                );
                let ghost w = words@;
                warnings.push(words);
                assert(texts(warnings@) =~= texts(before).push(w));
            },
        }
        i = i + 1;
    }
    assert(outcomes@.take(i as int) =~= outcomes@);
    warnings
}

/// A group is where it is wanted exactly if a route is wanted, that route is the
/// one in use, and nothing is known to be wrong.
pub proof fn law_convergence_is_the_wanted_route_in_use(s: SelectorState, r: bool)
    requires
        call_ensures(selector_is_converged, (&s,), r),
    ensures
        r ==> !s.degraded,
        r <==> match (s.desired_main_route, s.observed_main_route) {
            (Some(wanted), Some(used)) => wanted@ == used@ && !s.degraded,
            _ => false,
        },
{
}

/// What is wanted comes from the record and what is in use from the proxy; what
/// is wrong with either is wrong with the whole, and no warning is lost.
pub proof fn law_a_look_shows_the_route_in_use(
    base: SelectorState,
    live: SelectorState,
    r: SelectorState,
)
    requires
        call_ensures(
            observe_selector_state,
            (base, Some(Ok::<SelectorState, String>(live))),
            r,
        ),
    ensures
        r.desired_main_route == base.desired_main_route,
        r.observed_main_route == live.observed_main_route,
        r.degraded <==> base.degraded || live.degraded,
        r.proxy_groups == live.proxy_groups,
        r.warnings@.len() == base.warnings@.len() + live.warnings@.len(),
        forall|i: int| 0 <= i < base.warnings@.len() ==> #[trigger] r.warnings@[i] == base.warnings@[i],
        forall|i: int|
            0 <= i < live.warnings@.len() ==> r.warnings@[base.warnings@.len() + i]
                == #[trigger] live.warnings@[i],
{
}

/// A proxy that does not answer leaves a group that is not where it is wanted,
/// with the reason among its warnings.
pub proof fn law_a_silent_proxy_shows_no_convergence(
    base: SelectorState,
    live: Option<Result<SelectorState, String>>,
    r: SelectorState,
)
    requires
        !(live matches Some(Ok(_))),
        call_ensures(observe_selector_state, (base, live), r),
    ensures
        r.degraded,
        r.desired_main_route == base.desired_main_route,
        r.observed_main_route == base.observed_main_route,
        r.warnings@.len() == base.warnings@.len() + 1,
        live matches Some(Err(e)) ==> texts(r.warnings@).last() == e@,
        live is None ==> texts(r.warnings@).last() == "clash API endpoint is not configured"@,
{
    assert(texts(r.warnings@).len() == r.warnings@.len());
    assert(texts(base.warnings@).len() == base.warnings@.len());
}

/// The routes that may be chosen: each of the two ways, by one of the two
/// protocols or by whichever works.
pub proof fn law_routes_are_a_way_and_a_protocol(route: &str, r: bool)
    requires
        call_ensures(is_allowed_selector_route, (route,), r),
    ensures
        r <==> exists|way: Seq<char>|
            (way == "direct"@ || way == "warp"@) && {
                ||| route@ == "auto-"@ + way + "-tunnel"@
                ||| route@ == "hysteria2-"@ + way
                ||| route@ == #[trigger] ("vless-reality-"@ + way)
            },
{
    reveal_strlit("direct");
    reveal_strlit("warp");
    reveal_strlit("auto-");
    reveal_strlit("-tunnel");
    reveal_strlit("hysteria2-");
    reveal_strlit("vless-reality-");
    reveal_strlit("auto-direct-tunnel");
    reveal_strlit("auto-warp-tunnel");
    reveal_strlit("hysteria2-direct");
    reveal_strlit("hysteria2-warp");
    reveal_strlit("vless-reality-direct");
    reveal_strlit("vless-reality-warp");
    assert("auto-"@ + "direct"@ + "-tunnel"@ =~= "auto-direct-tunnel"@);
    assert("auto-"@ + "warp"@ + "-tunnel"@ =~= "auto-warp-tunnel"@);
    assert("hysteria2-"@ + "direct"@ =~= "hysteria2-direct"@);
    assert("hysteria2-"@ + "warp"@ =~= "hysteria2-warp"@);
    assert("vless-reality-"@ + "direct"@ =~= "vless-reality-direct"@);
    assert("vless-reality-"@ + "warp"@ =~= "vless-reality-warp"@);
}

/// A route is set only in a group that there is, and only one that may be
/// chosen; only the latter fault ends the operation as failed.
pub proof fn law_only_known_routes_are_set(
    group: String,
    name: &str,
    allowed: bool,
    known: Result<SelectorGroup, Status>,
    r: Result<SelectorGroup, (Status, bool)>,
)
    requires
        call_ensures(check_selector_request, (group, name), r),
        call_ensures(is_allowed_selector_route, (name,), allowed),
        call_ensures(normalize_selector_group, (&Some(group),), known),
    ensures
        r is Ok <==> known is Ok && allowed,
        r matches Ok(g) ==> known == Ok::<SelectorGroup, Status>(g),
        r matches Err((s, fails)) ==> s.code is InvalidArgument && (fails <==> known is Ok),
{
}

/// A group that is not named is the desktop's, and so is one named by nothing
/// but white space. The two groups are told apart by their names.
pub proof fn law_groups_are_told_apart(group: Option<String>, r: Result<SelectorGroup, Status>)
    requires
        call_ensures(normalize_selector_group, (&group,), r),
    ensures
        group is None ==> r == Ok::<SelectorGroup, Status>(SelectorGroup::Desktop),
        group matches Some(n) ==> {
            &&& blank(n@) ==> r == Ok::<SelectorGroup, Status>(SelectorGroup::Desktop)
            &&& n@ == "proxy-selector"@ ==> r == Ok::<SelectorGroup, Status>(SelectorGroup::Desktop)
            &&& n@ == "wsl-selector"@ ==> r == Ok::<SelectorGroup, Status>(SelectorGroup::Ubuntu)
            &&& !blank(n@) && n@ != "proxy-selector"@ && n@ != "wsl-selector"@ ==> r is Err
        },
        r matches Err(s) ==> s.code is InvalidArgument,
{
    reveal_strlit("proxy-selector");
    reveal_strlit("wsl-selector");
    assert("proxy-selector"@[0] == 'p');
    assert("wsl-selector"@[0] == 'w');
}

/// A route that could not be set is never told as set, and the group is then
/// known to be wrong.
pub proof fn law_an_unset_route_is_no_success(
    base: SelectorState,
    failure: String,
    without: SetSelectorReport,
    failed: SetSelectorReport,
)
    requires
        call_ensures(selector_without_endpoint, (base,), without),
        call_ensures(selector_not_set, (base, failure), failed),
    ensures
        !without.success,
        without.warnings@.len() == 1,
        without.selector == base,
        !failed.success,
        failed.selector.degraded,
        failed.current == base.observed_main_route,
        failed.selector.desired_main_route == base.desired_main_route,
        texts(failed.warnings@).last() == failure@,
        failed.warnings@.len() == base.warnings@.len() + 1,
{
    assert(texts(without.warnings@).len() == without.warnings@.len());
    assert(texts(failed.warnings@).len() == failed.warnings@.len());
    assert(texts(base.warnings@).len() == base.warnings@.len());
}

/// A set route is told as set exactly where it could also be kept, with the
/// route that was in use before and the one in use now.
pub proof fn law_a_route_is_told_with_what_was_before(
    name: &str,
    previous: Option<String>,
    live: SelectorState,
    stored: Result<(), String>,
    r: SetSelectorReport,
)
    requires
        call_ensures(set_selector, (name, previous, live, stored), r),
    ensures
        r.success <==> stored is Ok,
        r.previous == previous,
        r.current == live.observed_main_route,
        stored is Ok ==> r.selector.desired_main_route.deep_view() == Some(name@)
            && r.selector.degraded == live.degraded,
        stored is Err ==> r.selector.degraded && r.warnings@.len() == live.warnings@.len() + 1,
{
    assert(texts(r.selector.warnings@).len() == r.selector.warnings@.len());
    assert(texts(live.warnings@).len() == live.warnings@.len());
}

/// The route that is wanted at first is the one in use, or else the configured
/// one, or else the usual one.
pub proof fn law_the_route_in_use_is_wanted_first(
    live: Option<String>,
    configured: Option<String>,
    r: String,
)
    requires
        call_ensures(seed_route, (live, configured), r),
    ensures
        live matches Some(route) ==> r@ == route@,
        live is None && configured is Some ==> r@ == configured->Some_0@,
        live is None && configured is None ==> r@ == "auto-direct-tunnel"@,
{
}

/// A route is made up exactly for the groups that none is kept for.
pub proof fn law_kept_routes_are_left_alone(
    desktop_kept: bool,
    ubuntu_kept: bool,
    r: Vec<SelectorGroup>,
)
    requires
        call_ensures(groups_without_intent, (desktop_kept, ubuntu_kept), r),
    ensures
        r@.contains(SelectorGroup::Desktop) <==> !desktop_kept,
        r@.contains(SelectorGroup::Ubuntu) <==> !ubuntu_kept,
        r@.no_duplicates(),
{
    if !desktop_kept {
        assert(r@[0] == SelectorGroup::Desktop);
    }
    if !ubuntu_kept {
        assert(r@.last() == SelectorGroup::Ubuntu);
    }
}

proof fn lemma_intent_warnings(outcomes: Seq<IntentOutcome>)
    ensures
        intent_warnings(outcomes).len() <= outcomes.len(),
        intent_warnings(outcomes).len() == 0 <==> forall|i: int|
            0 <= i < outcomes.len() ==> (#[trigger] outcomes[i]).failure is None,
        intent_warnings(outcomes).len() == outcomes.len() <==> forall|i: int|
            0 <= i < outcomes.len() ==> (#[trigger] outcomes[i]).failure is Some,
    decreases outcomes.len(),
{
    if outcomes.len() > 0 {
        let head = outcomes.drop_last();
        lemma_intent_warnings(head);
        assert(forall|i: int| 0 <= i < head.len() ==> #[trigger] outcomes[i] == head[i]);
        assert(outcomes[outcomes.len() - 1] == outcomes.last());
        if intent_warnings(outcomes).len() == 0 {
            assert forall|i: int| 0 <= i < outcomes.len() implies (
            #[trigger] outcomes[i]).failure is None by {
                if i < head.len() {
                    assert(head[i].failure is None);
                }
            }
        } else if outcomes.last().failure is None {
            let i = choose|i: int| 0 <= i < head.len() && !((#[trigger] head[i]).failure is None);
            assert(outcomes[i].failure is Some);
        } else {
            assert(outcomes[outcomes.len() - 1].failure is Some);
        }
        if intent_warnings(outcomes).len() == outcomes.len() {
            assert forall|i: int| 0 <= i < outcomes.len() implies (
            #[trigger] outcomes[i]).failure is Some by {
                if i < head.len() {
                    assert(head[i].failure is Some);
                }
            }
        } else if outcomes.last().failure is Some {
            let i = choose|i: int| 0 <= i < head.len() && !((#[trigger] head[i]).failure is Some);
            assert(outcomes[i].failure is None);
        } else {
            assert(outcomes[outcomes.len() - 1].failure is None);
        }
    }
}

/// Setting the routes gives a warning exactly where one could not be set, and
/// one where none could even be tried.
pub proof fn law_unset_routes_are_warned_of(
    controllable: bool,
    outcomes: Vec<IntentOutcome>,
    r: Vec<String>,
)
    requires
        call_ensures(reconcile_selector_intents_for_running_local, (controllable, &outcomes), r),
    ensures
        !controllable ==> r@.len() == 1,
        controllable ==> (r@.len() == 0 <==> forall|i: int|
            0 <= i < outcomes@.len() ==> (#[trigger] outcomes@[i]).failure is None),
        controllable ==> (r@.len() == outcomes@.len() <==> forall|i: int|
            0 <= i < outcomes@.len() ==> (#[trigger] outcomes@[i]).failure is Some),
{
    assert(texts(r@).len() == r@.len());
    lemma_intent_warnings(outcomes@);
}

/// What is seen of the running proxy joins what is wanted: the wanted route stays,
/// the route in use and the groups are those seen, and neither trouble nor a
/// warning of either side is lost.
pub proof fn law_what_is_seen_joins_what_is_wanted(
    base: SelectorState,
    live: SelectorState,
    r: SelectorState,
    w: String,
)
    requires
        call_ensures(merge_selector_state, (base, live), r),
    ensures
        r.desired_main_route == base.desired_main_route,
        r.observed_main_route == live.observed_main_route,
        r.proxy_groups == live.proxy_groups,
        base.degraded ==> r.degraded,
        live.degraded ==> r.degraded,
        r.degraded ==> base.degraded || live.degraded,
        r.warnings@.contains(w) <==> base.warnings@.contains(w) || live.warnings@.contains(w),
        r.warnings@.len() == base.warnings@.len() + live.warnings@.len(),
{
    let all = base.warnings@ + live.warnings@;
    if base.warnings@.contains(w) {
        let i = choose|i: int| 0 <= i < base.warnings@.len() && base.warnings@[i] == w;
        assert(all[i] == w);
    }
    if live.warnings@.contains(w) {
        let i = choose|i: int| 0 <= i < live.warnings@.len() && live.warnings@[i] == w;
        assert(all[base.warnings@.len() + i] == w);
    }
}

} // verus!
