//! The resolver: the configured providers are tried in order, and the first
//! that finds the location decides.

use vstd::prelude::*;

use crate::client::{fetched_view, received, Client, Fetched, FetchedView};
use crate::err::{outcome_view, Error, ErrorKind, ErrorView};
use crate::protocol::{
    Protocol, ProtocolHere, ProtocolMapQuest, RequestDescriptor, RequestDescriptorView,
};
use crate::Coordinates;

verus! {

/// A configured provider, of one of the two kinds.
#[derive(Clone, Debug, PartialEq, Eq)]
pub enum AnyProtocol {
    Here(ProtocolHere),
    MapQuest(ProtocolMapQuest),
}

impl AnyProtocol {
    /// The request that asks this provider for `loc`.
    pub open spec fn request_spec(self, loc: Seq<char>) -> RequestDescriptorView {
        match self {
            AnyProtocol::Here(proto) => proto.request_spec(loc),
            AnyProtocol::MapQuest(proto) => proto.request_spec(loc),
        }
    }

    /// What this provider comes to when `reply` comes back for its request.
    pub open spec fn outcome(self, reply: FetchedView) -> Result<Coordinates, ErrorView> {
        match self {
            AnyProtocol::Here(proto) => received(proto, reply),
            AnyProtocol::MapQuest(proto) => received(proto, reply),
        }
    }

    /// The request to send to this provider for `loc`.
    pub fn request(&self, loc: &str) -> (req: RequestDescriptor)
        ensures
            req@ == self.request_spec(loc@),
    {
        match self {
            AnyProtocol::Here(proto) => Client::new(proto).request(loc),
            AnyProtocol::MapQuest(proto) => Client::new(proto).request(loc),
        }
    }

    /// The coordinates that this provider found, given what came back for
    /// the request.
    pub fn find_lat_long(&self, reply: Fetched) -> (r: Result<Coordinates, Error>)
        ensures
            outcome_view(r) == self.outcome(fetched_view(reply)),
    {
        match self {
            AnyProtocol::Here(proto) => Client::new(proto).find_lat_long(reply),
            AnyProtocol::MapQuest(proto) => Client::new(proto).find_lat_long(reply),
        }
    }
}

/// The providers to ask, in the order of their priority.
#[derive(Clone, Debug, PartialEq, Eq)]
pub struct FindLatLong {
    protocols: Vec<AnyProtocol>,
}

impl View for FindLatLong {
    type V = Seq<AnyProtocol>;

    closed spec fn view(&self) -> Seq<AnyProtocol> {
        self.protocols@
    }
}

/// What is to be done next in a resolution.
#[derive(Debug)]
pub enum Step {
    /// Send `request` to the provider at `index`, then go on with
    /// [`FindLatLong::resume`] and what came back.
    Query { index: usize, request: RequestDescriptor },
    /// The resolution is over, with this outcome.
    Done(Result<Coordinates, Error>),
}

/// The mathematical value of a [`Step`].
pub enum StepView {
    Query { index: int, request: RequestDescriptorView },
    Done(Result<Coordinates, ErrorView>),
}

impl View for Step {
    type V = StepView;

    open spec fn view(&self) -> StepView {
        match *self {
            Step::Query { index, request } => StepView::Query {
                index: index as int,
                request: request@,
            },
            Step::Done(outcome) => StepView::Done(outcome_view(outcome)),
        }
    }
}

/// The outcome of a resolution in which no provider found the location:
/// with no provider configured the error says so, else it has no cause,
/// whatever the providers' own errors were.
pub open spec fn not_found(providers: Seq<AnyProtocol>) -> ErrorView {
    if providers.len() == 0 {
        ErrorView::because(ErrorKind::LocationNotFound, "No backend service configured"@)
    } else {
        ErrorView::bare(ErrorKind::LocationNotFound)
    }
}

/// The step that turns to the provider at `index`: to query it, or, where
/// the providers are exhausted, to give up.
pub open spec fn attempt(providers: Seq<AnyProtocol>, loc: Seq<char>, index: int) -> StepView {
    if 0 <= index < providers.len() {
        StepView::Query { index, request: providers[index].request_spec(loc) }
    } else {
        StepView::Done(Err(not_found(providers)))
    }
}

/// The step after `reply` came back from the provider at `index`: the
/// resolution is over where that provider found the location; else its error
/// is dropped and the next provider has its turn.
pub open spec fn after_reply(
    providers: Seq<AnyProtocol>,
    loc: Seq<char>,
    index: int,
    reply: FetchedView,
) -> StepView {
    if 0 <= index < providers.len() {
        match providers[index].outcome(reply) {
            Ok(coords) => StepView::Done(Ok(coords)),
            Err(_) => attempt(providers, loc, index + 1),
        }
    } else {
        StepView::Done(Err(not_found(providers)))
    }
}

impl FindLatLong {
    /// A resolver that asks `protocols`, the first one first.
    pub fn new(protocols: Vec<AnyProtocol>) -> (finder: FindLatLong)
        ensures
            finder@ == protocols@,
    {
        FindLatLong { protocols }
    }

    /// The providers, in the order in which they are asked.
    pub fn protocols(&self) -> (protocols: &Vec<AnyProtocol>)
        ensures
            protocols@ == self@,
    {
        &self.protocols
    }

    fn turn_to(&self, location: &str, index: usize) -> (step: Step)
        ensures
            step@ == attempt(self@, location@, index as int),
    {
        if index < self.protocols.len() {
            Step::Query { index, request: self.protocols[index].request(location) }
        } else if self.protocols.len() == 0 {
            let mut cause: Vec<String> = Vec::new();
            cause.push("No backend service configured".to_string());
            let e = Error::new(ErrorKind::LocationNotFound, cause);
            assert(e@.cause =~= seq!["No backend service configured"@]);
            Step::Done(Err(e))
        } else {
            Step::Done(Err(Error::from(ErrorKind::LocationNotFound)))
        }
    }

    /// The first step of the resolution of `location`.
    pub fn start(&self, location: &str) -> (step: Step)
        ensures
            step@ == attempt(self@, location@, 0),
    {
        self.turn_to(location, 0)
    }

    /// The step after `reply` came back for the query of the provider at
    /// `index`.
    pub fn resume(&self, location: &str, index: usize, reply: Fetched) -> (step: Step)
        ensures
            step@ == after_reply(self@, location@, index as int, fetched_view(reply)),
    {
        if index < self.protocols.len() {
            match self.protocols[index].find_lat_long(reply) {
                Ok(coords) => Step::Done(Ok(coords)),
                Err(_) => self.turn_to(location, index + 1),
            }
        } else {
            self.turn_to(location, index)
        }
    }
}

impl Default for FindLatLong {
    fn default() -> (finder: FindLatLong)
        ensures
            finder@ == Seq::<AnyProtocol>::empty(),
    {
        FindLatLong { protocols: Vec::new() }
    }
}

/// A resolution as a whole: the providers that were queried, in the order of
/// the queries, and the outcome.
pub struct Resolution {
    pub asked: Seq<int>,
    pub result: Result<Coordinates, ErrorView>,
}

/// How many queries a resolution that stands at `step` can still make.
pub open spec fn queries_left(providers: Seq<AnyProtocol>, step: StepView) -> nat {
    match step {
        StepView::Query { index, .. } => if 0 <= index < providers.len() {
            (providers.len() - index) as nat
        } else {
            0
        },
        StepView::Done(_) => 0,
    }
}

/// The rest of a resolution that stands at `step`, where `replies[k]` is what
/// comes back from the provider at `k` whenever it is queried: each query is
/// followed by the step that [`after_reply`] gives, until one is `Done`.
pub open spec fn follow(
    providers: Seq<AnyProtocol>,
    loc: Seq<char>,
    replies: Seq<FetchedView>,
    step: StepView,
) -> Resolution
    decreases queries_left(providers, step),
{
    match step {
        StepView::Done(result) => Resolution { asked: Seq::empty(), result },
        StepView::Query { index, .. } => if 0 <= index < providers.len() {
            let rest = follow(
                providers,
                loc,
                replies,
                after_reply(providers, loc, index, replies[index]),
            );
            Resolution { asked: seq![index] + rest.asked, result: rest.result }
        } else {
            Resolution { asked: Seq::empty(), result: Err(not_found(providers)) }
        },
    }
}

/// The resolution of `loc` from its first step on.
pub open spec fn resolution(
    providers: Seq<AnyProtocol>,
    loc: Seq<char>,
    replies: Seq<FetchedView>,
) -> Resolution {
    follow(providers, loc, replies, attempt(providers, loc, 0))
}

/// The indices from `from` up to `to`, `to` left out.
pub open spec fn indices(from: int, to: int) -> Seq<int> {
    Seq::new((to - from) as nat, |k: int| from + k)
}

proof fn lemma_follow_to_success(
    providers: Seq<AnyProtocol>,
    loc: Seq<char>,
    replies: Seq<FetchedView>,
    from: int,
    winner: int,
)
    requires
        winner < replies.len(),
        0 <= from <= winner < providers.len(),
        providers[winner].outcome(replies[winner]) is Ok,
        forall|j: int| from <= j < winner ==> providers[j].outcome(replies[j]) is Err,
    ensures
        follow(providers, loc, replies, attempt(providers, loc, from)).result
            == providers[winner].outcome(replies[winner]),
        follow(providers, loc, replies, attempt(providers, loc, from)).asked == indices(
            from,
            winner + 1,
        ),
    decreases winner - from,
{
    reveal_with_fuel(follow, 2);
    let here = follow(providers, loc, replies, attempt(providers, loc, from));
    if from == winner {
        assert(here.asked =~= indices(from, winner + 1));
    } else {
        lemma_follow_to_success(providers, loc, replies, from + 1, winner);
        assert(here.asked =~= indices(from, winner + 1));
    }
}

proof fn lemma_follow_to_the_end(
    providers: Seq<AnyProtocol>,
    loc: Seq<char>,
    replies: Seq<FetchedView>,
    from: int,
)
    requires
        replies.len() == providers.len(),
        0 <= from <= providers.len(),
        forall|j: int| from <= j < providers.len() ==> providers[j].outcome(replies[j]) is Err,
    ensures
        follow(providers, loc, replies, attempt(providers, loc, from)).result matches Err(e)
            && e == not_found(providers),
        follow(providers, loc, replies, attempt(providers, loc, from)).asked == indices(
            from,
            providers.len() as int,
        ),
    decreases providers.len() - from,
{
    reveal_with_fuel(follow, 2);
    let here = follow(providers, loc, replies, attempt(providers, loc, from));
    if from == providers.len() {
        assert(here.asked =~= indices(from, providers.len() as int));
    } else {
        lemma_follow_to_the_end(providers, loc, replies, from + 1);
        assert(here.asked =~= indices(from, providers.len() as int));
    }
}

/// The first success wins. Where the provider at `winner` finds the location
/// and every provider before it fails, the resolution ends with what that
/// provider found, and the providers queried are those up to `winner`, each
/// once and in order: none behind it is queried, whatever it would have
/// answered.
pub proof fn lemma_first_success_wins(
    providers: Seq<AnyProtocol>,
    loc: Seq<char>,
    replies: Seq<FetchedView>,
    winner: int,
)
    requires
        winner < replies.len(),
        0 <= winner < providers.len(),
        providers[winner].outcome(replies[winner]) is Ok,
        forall|j: int| 0 <= j < winner ==> providers[j].outcome(replies[j]) is Err,
    ensures
        resolution(providers, loc, replies).result == providers[winner].outcome(replies[winner]),
        resolution(providers, loc, replies).asked == indices(0, winner + 1),
{
    lemma_follow_to_success(providers, loc, replies, 0, winner);
}

/// Where every one of the providers fails, each was queried once, in order,
/// and the resolution ends with a location that was not found and an empty
/// chain of causes: nothing of the providers' own errors is kept.
pub proof fn lemma_all_fail_is_not_found(
    providers: Seq<AnyProtocol>,
    loc: Seq<char>,
    replies: Seq<FetchedView>,
)
    requires
        replies.len() == providers.len(),
        providers.len() > 0,
        forall|j: int| 0 <= j < providers.len() ==> providers[j].outcome(replies[j]) is Err,
    ensures
        resolution(providers, loc, replies).result matches Err(e) && e == ErrorView::bare(
            ErrorKind::LocationNotFound,
        ),
        resolution(providers, loc, replies).asked == indices(0, providers.len() as int),
{
    lemma_follow_to_the_end(providers, loc, replies, 0);
}

/// With no provider configured nothing is queried, and the resolution ends
/// with a location that was not found because no backend is configured.
pub proof fn lemma_no_provider_is_not_found(loc: Seq<char>, replies: Seq<FetchedView>)
    ensures
        resolution(Seq::empty(), loc, replies).result matches Err(e) && e == ErrorView::because(
            ErrorKind::LocationNotFound,
            "No backend service configured"@,
        ),
        resolution(Seq::empty(), loc, replies).asked.len() == 0,
{
    reveal_with_fuel(follow, 2);
}

proof fn lemma_follow_errors(
    providers: Seq<AnyProtocol>,
    loc: Seq<char>,
    replies: Seq<FetchedView>,
    from: int,
)
    requires
        0 <= from <= providers.len(),
    ensures
        follow(providers, loc, replies, attempt(providers, loc, from)).result matches Err(e)
            ==> e == not_found(providers),
    decreases providers.len() - from,
{
    reveal_with_fuel(follow, 2);
    if from < providers.len() {
        lemma_follow_errors(providers, loc, replies, from + 1);
    }
}

/// Whatever the providers answer, a resolution that fails fails with a
/// location that was not found: no provider's backend failure reaches the
/// caller.
pub proof fn lemma_resolution_errors_are_not_found(
    providers: Seq<AnyProtocol>,
    loc: Seq<char>,
    replies: Seq<FetchedView>,
)
    ensures
        resolution(providers, loc, replies).result matches Err(e) ==> e == not_found(providers),
{
    lemma_follow_errors(providers, loc, replies, 0);
}

/// Whether `fetch` can hand back `reply` when it is called with `request`.
pub open spec fn hands_back<F: Fn(&RequestDescriptor) -> Fetched>(
    fetch: F,
    request: RequestDescriptorView,
    reply: FetchedView,
) -> bool {
    exists|req: RequestDescriptor, back: Fetched|
        req@ == request && fetched_view(back) == reply && #[trigger] call_ensures(
            fetch,
            (&req,),
            back,
        )
}

/// Whether `replies` is what `fetch` handed back in a resolution of `loc`
/// that ended with `result`: the provider at `k` was queried for each `k`
/// below the length of `replies`, and for no other.
pub open spec fn explains<F: Fn(&RequestDescriptor) -> Fetched>(
    providers: Seq<AnyProtocol>,
    loc: Seq<char>,
    fetch: F,
    replies: Seq<FetchedView>,
    result: Result<Coordinates, ErrorView>,
) -> bool {
    &&& replies.len() <= providers.len()
    &&& resolution(providers, loc, replies).result == result
    &&& resolution(providers, loc, replies).asked == indices(0, replies.len() as int)
    &&& forall|k: int|
        0 <= k < replies.len() ==> hands_back(
            fetch,
            #[trigger] providers[k].request_spec(loc),
            replies[k],
        )
}

impl FindLatLong {
    /// Resolves `location`, with `fetch` to carry each request to its
    /// provider and bring back what came of it. The providers are queried one
    /// after the other, and `fetch` is not called again once a provider has
    /// found the location. The outcome is that of the resolution in which
    /// the providers queried answered what `fetch` brought back; where it is
    /// an error, the error is [`not_found`].
    pub fn find<F: Fn(&RequestDescriptor) -> Fetched>(&self, location: &str, fetch: F) -> (r:
        Result<Coordinates, Error>)
        requires
            forall|req: &RequestDescriptor| #[trigger] call_requires(fetch, (req,)),
        ensures
            exists|replies: Seq<FetchedView>| #[trigger]
                explains(self@, location@, fetch, replies, outcome_view(r)),
            r matches Err(e) ==> e@ == not_found(self@),
    {
        let ghost mut replies: Seq<FetchedView> = Seq::empty();
        let mut step = self.start(location);
        loop
            invariant
                forall|req: &RequestDescriptor| #[trigger] call_requires(fetch, (req,)),
                replies.len() <= self@.len(),
                step@ == attempt(self@, location@, replies.len() as int),
                forall|j: int| 0 <= j < replies.len() ==> self@[j].outcome(replies[j]) is Err,
                forall|k: int|
                    0 <= k < replies.len() ==> hands_back(
                        fetch,
                        #[trigger] self@[k].request_spec(location@),
                        replies[k],
                    ),
            decreases self@.len() - replies.len(),
        {
            match step {
                Step::Done(outcome) => {
                    proof {
                        lemma_follow_to_the_end(self@, location@, replies, 0);
                        assert(explains(self@, location@, fetch, replies, outcome_view(outcome)));
                    }
                    return outcome;
                },
                Step::Query { index, request } => {
                    let back = fetch(&request);
                    let ghost reply = fetched_view(back);
                    let ghost longer = replies.push(reply);
                    let next = self.resume(location, index, back);
                    proof {
                        assert(hands_back(
                            fetch,
                            self@[index as int].request_spec(location@),
                            reply,
                        ));
                    }
                    match next {
                        Step::Done(Ok(coords)) => {
                            proof {
                                lemma_first_success_wins(self@, location@, longer, index as int);
                                assert(explains(self@, location@, fetch, longer, Ok(coords)));
                            }
                            return Ok(coords);
                        },
                        other => {
                            proof {
                                replies = longer;
                            }
                            step = other;
                        },
                    }
                },
            }
        }
    }
}

} // verus!
