//! The protocol by which the controller changes something at a provider: look,
//! ask for the change at most once, then look again a bounded number of times.
//! A change whose outcome is unknown is looked for and never asked for again.
use vstd::prelude::*;

verus! {

/// What a provider says when it does not do as asked.
#[derive(Debug, Clone, PartialEq, Eq)]
pub struct ProviderFault {
    /// The thing asked about is not there.
    pub not_found: bool,
    /// The request may have taken effect all the same.
    pub uncertain: bool,
    pub message: String,
}

/// What came back for the one request.
#[derive(Debug, Clone, Copy, PartialEq, Eq, Structural)]
pub enum Reply {
    Accepted,
    /// Nobody knows whether the request took effect.
    Uncertain,
    /// The thing to be removed was not there.
    NotFound,
    Refused,
}

/// What one look shows.
#[derive(Debug, Clone, Copy, PartialEq, Eq, Structural)]
pub enum Sight {
    /// The wanted state is there.
    Reached,
    /// Nothing speaks against the wanted state, and it is not there yet.
    Pending,
    /// The wanted state cannot be had, or the look itself failed.
    Broken,
}

/// Where a change stands.
#[derive(Debug, Clone, Copy, PartialEq, Eq, Structural)]
pub enum Phase {
    /// Before the first look; nothing has been asked for.
    Before,
    /// The change has been asked for and nothing has come back.
    Asked,
    /// Looking for the change: `seen` looks have not shown it.
    Watching { seen: usize, reply: Reply },
    Over,
}

/// How a change ended.
#[derive(Debug, Clone, Copy, PartialEq, Eq, Structural)]
pub enum Ending {
    /// The wanted state was there before anything was asked for.
    AlreadyThere,
    /// A look after the request showed the wanted state.
    Observed,
    /// There was nothing to remove.
    NothingThere,
    /// A look showed that the wanted state cannot be had, or failed.
    Broken,
    /// The provider refused the request.
    Refused,
    /// No look showed the wanted state; the request had this reply.
    Unproven { reply: Reply },
}

/// What is to be done next.
#[derive(Debug, Clone, Copy, PartialEq, Eq, Structural)]
pub enum Ask {
    Change,
    /// Look again, after a pause where `pause` holds.
    Look { pause: bool },
    Finish(Ending),
}

/// What the first look leads to.
pub open spec fn on_first_look(sight: Sight) -> (Phase, Ask) {
    match sight {
        Sight::Reached => (Phase::Over, Ask::Finish(Ending::AlreadyThere)),
        Sight::Broken => (Phase::Over, Ask::Finish(Ending::Broken)),
        Sight::Pending => (Phase::Asked, Ask::Change),
    }
}

/// What the reply to the one request leads to, with `attempts` looks allowed.
pub open spec fn on_reply(attempts: usize, reply: Reply) -> (Phase, Ask) {
    match reply {
        Reply::Refused => (Phase::Over, Ask::Finish(Ending::Refused)),
        Reply::NotFound => (Phase::Over, Ask::Finish(Ending::NothingThere)),
        Reply::Accepted | Reply::Uncertain => if attempts == 0 {
            (Phase::Over, Ask::Finish(Ending::Unproven { reply }))
        } else {
            (Phase::Watching { seen: 0, reply }, Ask::Look { pause: false })
        },
    }
}

/// What a look after the request leads to.
pub open spec fn on_later_look(attempts: usize, seen: usize, reply: Reply, sight: Sight) -> (
    Phase,
    Ask,
) {
    match sight {
        Sight::Reached => (Phase::Over, Ask::Finish(Ending::Observed)),
        Sight::Broken => (Phase::Over, Ask::Finish(Ending::Broken)),
        Sight::Pending => if seen + 1 < attempts {
            (Phase::Watching { seen: (seen + 1) as usize, reply }, Ask::Look { pause: true })
        } else {
            (Phase::Over, Ask::Finish(Ending::Unproven { reply }))
        },
    }
}

impl Phase {
    /// Whether a look is what the change waits for.
    pub open spec fn wants_look(self) -> bool {
        self is Before || self is Watching
    }

    /// Where a look leads to.
    pub open spec fn looked(self, attempts: usize, sight: Sight) -> (Phase, Ask) {
        match self {
            Phase::Watching { seen, reply } => on_later_look(attempts, seen, reply, sight),
            _ => on_first_look(sight),
        }
    }

    /// Takes a look into account.
    pub fn look(self, attempts: usize, sight: Sight) -> (r: (Phase, Ask))
        requires
            self.wants_look(),
        ensures
            r == self.looked(attempts, sight),
    {
        match self {
            Phase::Watching { seen, reply } => match sight {
                Sight::Reached => (Phase::Over, Ask::Finish(Ending::Observed)),
                Sight::Broken => (Phase::Over, Ask::Finish(Ending::Broken)),
                Sight::Pending => if seen < attempts && seen + 1 < attempts {
                    (Phase::Watching { seen: seen + 1, reply }, Ask::Look { pause: true })
                } else {
                    (Phase::Over, Ask::Finish(Ending::Unproven { reply }))
                },
            },
            _ => match sight {
                Sight::Reached => (Phase::Over, Ask::Finish(Ending::AlreadyThere)),
                Sight::Broken => (Phase::Over, Ask::Finish(Ending::Broken)),
                Sight::Pending => (Phase::Asked, Ask::Change),
            },
        }
    }

    /// Takes the reply to the one request into account.
    pub fn reply(self, attempts: usize, reply: Reply) -> (r: (Phase, Ask))
        requires
            self is Asked,
        ensures
            r == on_reply(attempts, reply),
    {
        match reply {
            Reply::Refused => (Phase::Over, Ask::Finish(Ending::Refused)),
            Reply::NotFound => (Phase::Over, Ask::Finish(Ending::NothingThere)),
            Reply::Accepted | Reply::Uncertain => if attempts == 0 {
                (Phase::Over, Ask::Finish(Ending::Unproven { reply }))
            } else {
                (Phase::Watching { seen: 0, reply }, Ask::Look { pause: false })
            },
        }
    }
}

/// How the reply to a request that makes something is read: only a fault that
/// leaves the outcome open is looked into.
pub open spec fn creation_reply(fault: Option<ProviderFault>) -> Reply {
    match fault {
        None => Reply::Accepted,
        Some(f) => if f.uncertain {
            Reply::Uncertain
        } else {
            Reply::Refused
        },
    }
}

/// How the reply to a request that removes something is read: what is not
/// there needs no removal.
pub open spec fn removal_reply(fault: Option<ProviderFault>) -> Reply {
    match fault {
        None => Reply::Accepted,
        Some(f) => if f.not_found {
            Reply::NotFound
        } else if f.uncertain {
            Reply::Uncertain
        } else {
            Reply::Refused
        },
    }
}

/// Reads the reply to a request that makes something.
pub fn read_creation(fault: &Option<ProviderFault>) -> (r: Reply)
    ensures
        r == creation_reply(*fault),
{
    match fault {
        None => Reply::Accepted,
        Some(f) => if f.uncertain {
            Reply::Uncertain
        } else {
            Reply::Refused
        },
    }
}

/// Reads the reply to a request that removes something.
pub fn read_removal(fault: &Option<ProviderFault>) -> (r: Reply)
    ensures
        r == removal_reply(*fault),
{
    match fault {
        None => Reply::Accepted,
        Some(f) => if f.not_found {
            Reply::NotFound
        } else if f.uncertain {
            Reply::Uncertain
        } else {
            Reply::Refused
        },
    }
}

/// What is to be done next, with the result at the end.
#[derive(Debug, PartialEq, Eq)]
pub enum Next<T> {
    Change,
    /// Look again, after a pause where `pause` holds.
    Look { pause: bool },
    Done(Result<T, String>),
}

/// Whether `next` asks for what `ask` asks for, or is the end where `ask` is.
pub open spec fn carries<T>(ask: Ask, next: Next<T>) -> bool {
    match ask {
        Ask::Change => next is Change,
        Ask::Look { pause } => next == Next::<T>::Look { pause },
        Ask::Finish(_) => next is Done,
    }
}

/// What a change is told: a look or a reply.
#[derive(Debug, Clone, Copy, PartialEq, Eq, Structural)]
pub enum Input {
    Look(Sight),
    Reply(Reply),
}

/// Whether a change that stands at `from` waits for `input`, and goes to `to`
/// with `ask` on it.
pub open spec fn moves(attempts: usize, from: Phase, input: Input, to: Phase, ask: Ask) -> bool {
    match input {
        Input::Look(sight) => from.wants_look() && (to, ask) == from.looked(attempts, sight),
        Input::Reply(reply) => from is Asked && (to, ask) == on_reply(attempts, reply),
    }
}

/// One move of a change: what it was told, what it asked for, where it went.
pub struct Move {
    pub input: Input,
    pub ask: Ask,
    pub to: Phase,
}

/// Whether the moves follow one another from `start`.
pub open spec fn run(attempts: usize, start: Phase, steps: Seq<Move>) -> bool
    decreases steps.len(),
{
    steps.len() > 0 ==> {
        &&& run(attempts, start, steps.drop_last())
        &&& moves(
            attempts,
            stands(start, steps.drop_last()),
            steps.last().input,
            steps.last().to,
            steps.last().ask,
        )
    }
}

/// Where the moves lead to.
pub open spec fn stands(start: Phase, steps: Seq<Move>) -> Phase {
    if steps.len() == 0 {
        start
    } else {
        steps.last().to
    }
}

/// How many of the moves ask for the change.
pub open spec fn changes(steps: Seq<Move>) -> nat
    decreases steps.len(),
{
    if steps.len() == 0 {
        0
    } else {
        changes(steps.drop_last()) + if steps.last().ask is Change {
            1nat
        } else {
            0nat
        }
    }
}

/// How many of the moves ask for a look.
pub open spec fn looks(steps: Seq<Move>) -> nat
    decreases steps.len(),
{
    if steps.len() == 0 {
        0
    } else {
        looks(steps.drop_last()) + if steps.last().ask is Look {
            1nat
        } else {
            0nat
        }
    }
}

/// However the provider answers, the change is asked for at most once, and not
/// at all where it had already been asked for.
pub proof fn law_change_is_asked_for_once(attempts: usize, start: Phase, steps: Seq<Move>)
    requires
        run(attempts, start, steps),
    ensures
        changes(steps) <= 1,
        !(start is Before) ==> changes(steps) == 0,
        changes(steps) == 1 ==> !(stands(start, steps) is Before),
    decreases steps.len(),
{
    if steps.len() > 0 {
        law_change_is_asked_for_once(attempts, start, steps.drop_last());
        lemma_before_is_first(attempts, start, steps.drop_last());
    }
}

proof fn lemma_before_is_first(attempts: usize, start: Phase, steps: Seq<Move>)
    requires
        run(attempts, start, steps),
    ensures
        steps.len() > 0 ==> !(stands(start, steps) is Before),
    decreases steps.len(),
{
}

/// The looks that follow the request are at most as many as are allowed.
pub proof fn law_looks_are_bounded(attempts: usize, start: Phase, steps: Seq<Move>)
    requires
        run(attempts, start, steps),
        start is Before || start is Asked,
    ensures
        looks(steps) <= attempts,
        stands(start, steps) matches Phase::Watching { seen, .. } ==> looks(steps) == seen + 1
            <= attempts,
        stands(start, steps) is Before || stands(start, steps) is Asked ==> looks(steps) == 0,
    decreases steps.len(),
{
    if steps.len() > 0 {
        law_looks_are_bounded(attempts, start, steps.drop_last());
    }
}

/// Nothing follows the end.
pub proof fn law_an_ended_change_asks_for_nothing(
    attempts: usize,
    input: Input,
    to: Phase,
    ask: Ask,
)
    ensures
        !moves(attempts, Phase::Over, input, to, ask),
{
}

/// A change ends well only on what was seen: on a look that showed the wanted
/// state, or on the provider's word that there was nothing to remove.
pub proof fn law_success_is_observed(
    attempts: usize,
    from: Phase,
    input: Input,
    to: Phase,
    ask: Ask,
)
    requires
        moves(attempts, from, input, to, ask),
        ask == Ask::Finish(Ending::AlreadyThere) || ask == Ask::Finish(Ending::Observed) || ask
            == Ask::Finish(Ending::NothingThere),
    ensures
        input == Input::Look(Sight::Reached) || input == Input::Reply(Reply::NotFound),
{
}

/// A reply that leaves the outcome open is always followed by a look, as long
/// as one is allowed, and never by a second request.
pub proof fn law_uncertainty_is_looked_into(attempts: usize, to: Phase, ask: Ask)
    requires
        attempts > 0,
        moves(attempts, Phase::Asked, Input::Reply(Reply::Uncertain), to, ask),
    ensures
        ask == (Ask::Look { pause: false }),
        to == (Phase::Watching { seen: 0, reply: Reply::Uncertain }),
{
}

/// Nothing is asked for where the wanted state is there already or cannot be
/// had, and the change is asked for exactly where neither is so and nothing has
/// been asked for yet.
pub proof fn law_a_change_is_asked_for_only_where_it_is_needed(
    phase: Phase,
    attempts: usize,
    sight: Sight,
    r: (Phase, Ask),
)
    requires
        phase is Before || phase is Watching,
        call_ensures(Phase::look, (phase, attempts, sight), r),
    ensures
        r.1 is Change <==> phase is Before && sight is Pending,
        r.1 is Finish ==> r.0 is Over,
        sight is Reached ==> r.1 == Ask::Finish(
            if phase is Before {
                Ending::AlreadyThere
            } else {
                Ending::Observed
            },
        ),
        sight is Broken ==> r.1 == Ask::Finish(Ending::Broken),
        phase matches Phase::Watching { seen, reply } ==> (sight is Pending ==> (if seen + 1
            < attempts {
            r.1 == (Ask::Look { pause: true })
        } else {
            r.1 == Ask::Finish(Ending::Unproven { reply })
        })),
{
}

/// A refused change ends, and so does the removal of what is not there. Any
/// other reply proves nothing: the change is looked for.
pub proof fn law_a_reply_alone_proves_no_change(
    phase: Phase,
    attempts: usize,
    reply: Reply,
    r: (Phase, Ask),
)
    requires
        phase is Asked,
        call_ensures(Phase::reply, (phase, attempts, reply), r),
    ensures
        !(r.1 is Change),
        r.1 == Ask::Finish(Ending::Refused) <==> reply is Refused,
        r.1 == Ask::Finish(Ending::NothingThere) <==> reply is NotFound,
        attempts > 0 ==> (r.1 is Look <==> reply is Accepted || reply is Uncertain),
        r.1 is Look ==> r.0 == (Phase::Watching { seen: 0, reply }),
        !(r.1 == Ask::Finish(Ending::Observed)),
        !(r.1 == Ask::Finish(Ending::AlreadyThere)),
{
}

/// A provider that does not complain has accepted; one whose complaint leaves
/// the outcome open is never taken to have refused; and what is not there counts
/// as such only where something is to be removed.
pub proof fn law_complaints_are_read_with_care(
    fault: Option<ProviderFault>,
    made: Reply,
    removed: Reply,
)
    requires
        call_ensures(read_creation, (&fault,), made),
        call_ensures(read_removal, (&fault,), removed),
    ensures
        made is Accepted <==> fault is None,
        removed is Accepted <==> fault is None,
        fault matches Some(f) ==> {
            &&& made is Uncertain <==> f.uncertain
            &&& made is Refused <==> !f.uncertain
            &&& removed is NotFound <==> f.not_found
            &&& !f.not_found ==> (removed is Uncertain <==> f.uncertain)
            &&& removed is Refused <==> !f.not_found && !f.uncertain
        },
{
}

} // verus!
