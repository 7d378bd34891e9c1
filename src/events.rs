//! Chain events recorded for an included extrinsic, and their lookup.
use vstd::prelude::*;

verus! {

/// Where an extrinsic was included: the block's hash and the extrinsic's hash.
#[derive(Clone, Copy, Debug)]
pub struct InclusionRef {
    pub block_hash: [u8; 32],
    pub extrinsic_hash: [u8; 32],
}

/// One event recorded on chain: its pallet, its variant name and its
/// encoded fields.
#[derive(Debug)]
pub struct ChainEvent {
    pub pallet: String,
    pub variant: String,
    pub fields: Vec<u8>,
}

/// The (pallet, variant) pair that an event lookup searches for.
#[derive(Debug)]
pub struct EventMatcher {
    pub pallet: String,
    pub variant: String,
}

/// A block reference together with the events that the extrinsic emitted
/// there, in emission order.
#[derive(Debug)]
pub struct InclusionDetails {
    pub at: InclusionRef,
    pub events: Vec<ChainEvent>,
}

/// What a chain event holds, as mathematical values.
pub struct EventView {
    pub pallet: Seq<char>,
    pub variant: Seq<char>,
    pub fields: Seq<u8>,
}

/// What an event matcher searches for, as mathematical values.
pub struct MatcherView {
    pub pallet: Seq<char>,
    pub variant: Seq<char>,
}

impl View for ChainEvent {
    type V = EventView;

    open spec fn view(&self) -> EventView {
        EventView { pallet: self.pallet@, variant: self.variant@, fields: self.fields@ }
    }
}

impl View for EventMatcher {
    type V = MatcherView;

    open spec fn view(&self) -> MatcherView {
        MatcherView { pallet: self.pallet@, variant: self.variant@ }
    }
}

/// The views of a sequence of events, in the same order.
pub open spec fn events_view(evs: Seq<ChainEvent>) -> Seq<EventView> {
    evs.map_values(|e: ChainEvent| e@)
}

pub open spec fn event_matches(e: EventView, m: MatcherView) -> bool {
    e.pallet == m.pallet && e.variant == m.variant
}

pub open spec fn has_match(evs: Seq<EventView>, m: MatcherView) -> bool {
    exists|i: int| 0 <= i < evs.len() && #[trigger] event_matches(evs[i], m)
}

/// `i` is the position of the first event in `evs` that `m` matches.
pub open spec fn is_first_match(evs: Seq<EventView>, m: MatcherView, i: int) -> bool {
    &&& 0 <= i < evs.len()
    &&& event_matches(evs[i], m)
    &&& forall|j: int| 0 <= j < i ==> !#[trigger] event_matches(evs[j], m)
}

/// The position of the first event that `m` matches, if any.
pub open spec fn first_match(evs: Seq<EventView>, m: MatcherView) -> Option<int> {
    if has_match(evs, m) {
        Some(choose|i: int| is_first_match(evs, m, i))
    } else {
        None
    }
}

/// `r` is what a lookup of `m` in `evs` owes: the first match's position,
/// or `None` where nothing matches.
pub open spec fn lookup_result(evs: Seq<EventView>, m: MatcherView, r: Option<usize>) -> bool {
    match r {
        Some(i) => is_first_match(evs, m, i as int),
        None => !has_match(evs, m),
    }
}

/// The runtime's dispatch-failure event, `System::ExtrinsicFailed`.
pub open spec fn dispatch_failure_matcher() -> MatcherView {
    MatcherView { pallet: "System"@, variant: "ExtrinsicFailed"@ }
}

/// Some event of `evs` reports that the runtime rejected the call.
pub open spec fn contains_dispatch_failure(evs: Seq<EventView>) -> bool {
    has_match(evs, dispatch_failure_matcher())
}

/// Two positions that are both the first match are the same position.
pub proof fn lemma_first_match_unique(evs: Seq<EventView>, m: MatcherView, i: int, j: int)
    requires
        is_first_match(evs, m, i),
        is_first_match(evs, m, j),
    ensures
        i == j,
{
    if i < j {
        assert(!event_matches(evs[i], m));
    } else if j < i {
        assert(!event_matches(evs[j], m));
    }
}

/// Where some event matches, a first one exists and `first_match` names it.
pub proof fn lemma_first_match_exists(evs: Seq<EventView>, m: MatcherView)
    requires
        has_match(evs, m),
    ensures
        first_match(evs, m) is Some,
        is_first_match(evs, m, first_match(evs, m)->0),
    decreases evs.len(),
{
    let k = choose|k: int| 0 <= k < evs.len() && #[trigger] event_matches(evs[k], m);
    if event_matches(evs[0], m) {
        assert(is_first_match(evs, m, 0));
    } else {
        let rest = evs.drop_first();
        assert(event_matches(rest[k - 1], m));
        lemma_first_match_exists(rest, m);
        let i = first_match(rest, m)->0;
        assert forall|j: int| 0 <= j < i + 1 implies !#[trigger] event_matches(evs[j], m) by {
            if j > 0 {
                assert(evs[j] == rest[j - 1]);
            }
        }
        assert(is_first_match(evs, m, i + 1));
    }
}

impl ChainEvent {
    /// A copy of this event, field for field.
    pub fn duplicate(&self) -> (r: ChainEvent)
        ensures
            r@ == self@,
    {
        let fields = self.fields.clone();
        assert(fields@ =~= self.fields@);
        ChainEvent { pallet: self.pallet.clone(), variant: self.variant.clone(), fields }
    }
}

impl EventMatcher {
    /// A matcher for the given pallet and variant names.
    pub fn new(pallet: &str, variant: &str) -> (r: EventMatcher)
        ensures
            r.pallet@ == pallet@,
            r.variant@ == variant@,
    {
        EventMatcher { pallet: pallet.to_owned(), variant: variant.to_owned() }
    }

    /// The matcher of `System::ExtrinsicFailed`, the event by which the
    /// runtime reports that an included call was rejected.
    pub fn dispatch_failure() -> (r: EventMatcher)
        ensures
            r@ == dispatch_failure_matcher(),
    {
        EventMatcher::new("System", "ExtrinsicFailed")
    }

    /// Whether `e` has this matcher's pallet and variant.
    pub fn matches(&self, e: &ChainEvent) -> (r: bool)
        ensures
            r == event_matches(e@, self@),
    {
        e.pallet == self.pallet && e.variant == self.variant
    }
}

/// The position of the first event of `events` that `m` matches, scanning
/// in emission order.
pub fn find_first(events: &Vec<ChainEvent>, m: &EventMatcher) -> (r: Option<usize>)
    ensures
        lookup_result(events_view(events@), m@, r),
        r matches Some(i) ==> first_match(events_view(events@), m@) == Some(i as int),
        r is None ==> first_match(events_view(events@), m@) is None,
{
    let mut i: usize = 0;
    while i < events.len()
        invariant
            i <= events@.len(),
            forall|j: int| 0 <= j < i ==> !#[trigger] event_matches(events_view(events@)[j], m@),
        decreases events@.len() - i,
    {
        if m.matches(&events[i]) {
            assert(is_first_match(events_view(events@), m@, i as int));
            proof {
                lemma_first_match_exists(events_view(events@), m@);
                lemma_first_match_unique(events_view(events@), m@, i as int, first_match(events_view(events@), m@)->0);
            }
            return Some(i);
        }
        i = i + 1;
    }
    None
}

/// Whether some event of `events` is a dispatch-failure event.
pub fn has_dispatch_failure(events: &Vec<ChainEvent>) -> (r: bool)
    ensures
        r == contains_dispatch_failure(events_view(events@)),
{
    let m = EventMatcher::dispatch_failure();
    find_first(events, &m).is_some()
}

} // verus!
