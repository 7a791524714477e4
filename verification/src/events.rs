//! What reaches the event loop from the shader file watcher: debounced
//! batches of file events become reload intents, one per changed path.

use vstd::prelude::*;
use crate::shader_path::ShaderPath;

verus! {

/// How long the file watcher collects events before it reports them.
pub const DEBOUNCE_WINDOW_MILLIS: u64 = 250;

/// An event the application sends to its own event loop.
#[derive(Clone, PartialEq, Eq, Debug)]
pub enum UserEvent {
    /// Nothing happened.
    Idle,
    /// The shader source at this path changed.
    GlslUpdate(ShaderPath),
}

impl UserEvent {
    /// The event that stands for nothing.
    pub fn default() -> (event: Self)
        ensures
            event is Idle,
    {
        UserEvent::Idle
    }
}

/// How the watcher came to report an event.
#[derive(Clone, Copy, PartialEq, Eq, Structural, Debug)]
pub enum DebouncedEventKind {
    /// The path went quiet after one or more events.
    Any,
    /// Events kept coming for longer than the debounce window.
    AnyContinuous,
}

/// One path the watcher reports after a debounce window.
#[derive(Clone, PartialEq, Eq, Debug)]
pub struct DebouncedEvent {
    pub path: ShaderPath,
    pub kind: DebouncedEventKind,
}

/// The paths to reload for a batch of debounced events: each path that went
/// quiet, once, in the order of its first report.
pub open spec fn intents_of(events: Seq<DebouncedEvent>) -> Seq<Seq<Seq<char>>>
    decreases events.len(),
{
    if events.len() == 0 {
        Seq::empty()
    } else {
        let before = intents_of(events.drop_last());
        let event = events.last();
        if event.kind == DebouncedEventKind::Any && !before.contains(event.path@) {
            before.push(event.path@)
        } else {
            before
        }
    }
}

/// The path each of a sequence of reload intents names.
pub open spec fn paths_of(intents: Seq<UserEvent>) -> Seq<Seq<Seq<char>>> {
    intents.map_values(
        |intent: UserEvent|
            match intent {
                UserEvent::GlslUpdate(path) => path@,
                UserEvent::Idle => Seq::empty(),
            },
    )
}

/// Tells whether a path is among the intents collected so far.
fn already_listed(intents: &Vec<UserEvent>, path: &ShaderPath) -> (found: bool)
    requires
        forall|i: int| 0 <= i < intents@.len() ==> #[trigger] intents@[i] is GlslUpdate,
    ensures
        found == paths_of(intents@).contains(path@),
{
    let mut i: usize = 0;
    while i < intents.len()
        invariant
            i <= intents@.len(),
            forall|j: int| 0 <= j < intents@.len() ==> #[trigger] intents@[j] is GlslUpdate,
            forall|j: int| 0 <= j < i ==> #[trigger] paths_of(intents@)[j] != path@,
        decreases intents@.len() - i,
    {
        match &intents[i] {
            UserEvent::GlslUpdate(listed) => {
                if listed.same_as(path) {
                    proof {
                        assert(paths_of(intents@)[i as int] == path@);
                    }
                    return true;
                }
            },
            UserEvent::Idle => {},
        }
        i += 1;
    }
    false
}

/// Turns one batch of debounced file events into reload intents: one
/// `GlslUpdate` per distinct path that went quiet, in the order of its first
/// report. Paths that are still being written are left for a later batch.
pub fn reload_intents(events: &Vec<DebouncedEvent>) -> (intents: Vec<UserEvent>)
    ensures
        forall|i: int| 0 <= i < intents@.len() ==> #[trigger] intents@[i] is GlslUpdate,
        paths_of(intents@) == intents_of(events@),
{
    let mut intents: Vec<UserEvent> = Vec::new();
    let mut i: usize = 0;
    proof {
        assert(events@.subrange(0, 0) =~= Seq::<DebouncedEvent>::empty());
        assert(paths_of(intents@) =~= Seq::<Seq<Seq<char>>>::empty());
    }
    while i < events.len()
        invariant
            i <= events@.len(),
            forall|j: int| 0 <= j < intents@.len() ==> #[trigger] intents@[j] is GlslUpdate,
            paths_of(intents@) == intents_of(events@.subrange(0, i as int)),
        decreases events@.len() - i,
    {
        let ghost done = events@.subrange(0, i as int);
        let ghost next = events@.subrange(0, i + 1);
        let ghost listed = intents@;
        proof {
            assert(next.drop_last() =~= done);
            assert(next.last() == events@[i as int]);
        }
        match events[i].kind {
            DebouncedEventKind::Any => {
                if !already_listed(&intents, &events[i].path) {
                    let path = events[i].path.duplicate();
                    intents.push(UserEvent::GlslUpdate(path));
                    proof {
                        assert(paths_of(intents@) =~= paths_of(listed).push(events@[i as int].path@));
                    }
                }
            },
            DebouncedEventKind::AnyContinuous => {},
        }
        i += 1;
    }
    proof {
        assert(events@.subrange(0, events@.len() as int) =~= events@);
    }
    intents
}

/// The intents of any batch name each path at most once.
pub proof fn lemma_intents_are_distinct(events: Seq<DebouncedEvent>)
    ensures
        intents_of(events).no_duplicates(),
    decreases events.len(),
{
    if events.len() > 0 {
        lemma_intents_are_distinct(events.drop_last());
    }
}

/// Coalescing: a batch in which every event is for the same path, and at
/// least one of them reports that the path went quiet, yields exactly one
/// reload intent, for that path, however many events the batch holds.
pub proof fn lemma_same_path_yields_one_intent(events: Seq<DebouncedEvent>, path: Seq<Seq<char>>)
    requires
        forall|i: int| 0 <= i < events.len() ==> (#[trigger] events[i]).path@ == path,
        exists|i: int| 0 <= i < events.len() && (#[trigger] events[i]).kind == DebouncedEventKind::Any,
    ensures
        intents_of(events) == seq![path],
    decreases events.len(),
{
    let front = events.drop_last();
    let last = events.last();
    assert forall|i: int| 0 <= i < front.len() implies (#[trigger] front[i]).path@ == path by {
        assert(front[i] == events[i]);
    }
    if exists|i: int| 0 <= i < front.len() && (#[trigger] front[i]).kind == DebouncedEventKind::Any {
        lemma_same_path_yields_one_intent(front, path);
        assert(intents_of(front)[0] == path);
        assert(intents_of(front).contains(last.path@));
    } else {
        lemma_no_quiet_path_yields_nothing(front);
        let witness = choose|i: int|
            0 <= i < events.len() && (#[trigger] events[i]).kind == DebouncedEventKind::Any;
        if witness < front.len() {
            assert(front[witness] == events[witness]);
        }
        assert(last.kind == DebouncedEventKind::Any);
        assert(intents_of(events) =~= seq![path]);
    }
}

/// A batch in which no path went quiet yields no intent.
pub proof fn lemma_no_quiet_path_yields_nothing(events: Seq<DebouncedEvent>)
    requires
        forall|i: int| 0 <= i < events.len() ==> (#[trigger] events[i]).kind != DebouncedEventKind::Any,
    ensures
        intents_of(events) == Seq::<Seq<Seq<char>>>::empty(),
    decreases events.len(),
{
    if events.len() > 0 {
        let front = events.drop_last();
        assert forall|i: int| 0 <= i < front.len() implies (#[trigger] front[i]).kind
            != DebouncedEventKind::Any by {
            assert(front[i] == events[i]);
        }
        lemma_no_quiet_path_yields_nothing(front);
    }
}

} // verus!
