//! The debounce policy: which change notifications trigger a rebuild.
//!
//! The policy keeps a ledger from path to the instant at which that path last
//! caused an accepted trigger. A notification is accepted when at least one
//! of its paths is new to the ledger, or was last recorded more than the
//! quiet window before the notification. Accepting records every path of the
//! notification; dropping changes nothing.
//!
//! Instants are nanoseconds counted from a start that the embedding program
//! picks, such as the moment the watch was established.

use crate::text::{chars_of, find_last, string_of_range, strings_view, after_last};
use vstd::hash_map::StringHashMap;
use vstd::prelude::*;

verus! {

/// The quiet window: 200 ms, in nanoseconds.
pub const DEBOUNCE_WINDOW_NANOS: u64 = 200_000_000;

/// Coarse kind of a filesystem event. The policy passes it through untouched.
#[derive(Clone, Copy, Debug, PartialEq, Eq, Structural)]
pub enum ChangeKind {
    Created,
    Modified,
    Removed,
    Other,
}

/// One raw change notification, as the watcher delivered it.
#[derive(Clone, Debug)]
pub struct ChangeNotification {
    pub affected_paths: Vec<String>,
    pub kind: ChangeKind,
    pub observed_at: u64,
}

impl ChangeNotification {
    /// The affected paths as character sequences.
    pub open spec fn paths(&self) -> Seq<Seq<char>> {
        strings_view(self.affected_paths@)
    }
}

/// "A rebuild should happen now", with a short cause for the log.
#[derive(Debug)]
pub struct RebuildTrigger {
    pub cause: String,
}

/// The ledger as a mathematical map from path to instant.
pub type Ledger = Map<Seq<char>, u64>;

/// `path` may trigger at `at`: the ledger does not know it, or knows it from
/// more than the quiet window ago.
pub open spec fn qualifies(ledger: Ledger, path: Seq<char>, at: u64) -> bool {
    !ledger.contains_key(path) || at - ledger[path] > DEBOUNCE_WINDOW_NANOS
}

/// A notification with these paths, observed at `at`, is accepted.
pub open spec fn accepts(ledger: Ledger, paths: Seq<Seq<char>>, at: u64) -> bool {
    exists|i: int| 0 <= i < paths.len() && qualifies(ledger, #[trigger] paths[i], at)
}

/// The ledger after every path of `paths` has been set to `at`.
pub open spec fn record(ledger: Ledger, paths: Seq<Seq<char>>, at: u64) -> Ledger {
    Map::new(
        |p: Seq<char>| ledger.contains_key(p) || paths.contains(p),
        |p: Seq<char>|
            if paths.contains(p) {
                at
            } else {
                ledger[p]
            },
    )
}

/// The ledger after one notification has been judged.
pub open spec fn step(ledger: Ledger, paths: Seq<Seq<char>>, at: u64) -> Ledger {
    if accepts(ledger, paths, at) {
        record(ledger, paths, at)
    } else {
        ledger
    }
}

/// The ledger after a queue of notifications has been judged in order.
pub open spec fn run(ledger: Ledger, queue: Seq<ChangeNotification>) -> Ledger
    decreases queue.len(),
{
    if queue.len() == 0 {
        ledger
    } else {
        run(step(ledger, queue[0].paths(), queue[0].observed_at), queue.drop_first())
    }
}

/// How many triggers judging `queue` in order emits.
pub open spec fn triggers_emitted(ledger: Ledger, queue: Seq<ChangeNotification>) -> nat
    decreases queue.len(),
{
    if queue.len() == 0 {
        0
    } else {
        let first: nat = if accepts(ledger, queue[0].paths(), queue[0].observed_at) {
            1
        } else {
            0
        };
        first + triggers_emitted(
            step(ledger, queue[0].paths(), queue[0].observed_at),
            queue.drop_first(),
        )
    }
}

/// The causes of the triggers that judging `queue` in order emits, in order.
pub open spec fn causes_emitted(ledger: Ledger, queue: Seq<ChangeNotification>) -> Seq<Seq<char>>
    decreases queue.len(),
{
    if queue.len() == 0 {
        Seq::<Seq<char>>::empty()
    } else {
        let rest = causes_emitted(
            step(ledger, queue[0].paths(), queue[0].observed_at),
            queue.drop_first(),
        );
        if accepts(ledger, queue[0].paths(), queue[0].observed_at) {
            seq![cause_of(queue[0].paths())] + rest
        } else {
            rest
        }
    }
}

/// The causes of a sequence of triggers.
pub open spec fn causes_of(triggers: Seq<RebuildTrigger>) -> Seq<Seq<char>> {
    triggers.map_values(|t: RebuildTrigger| t.cause@)
}

/// The text that names the cause of a trigger: the file name of the first
/// path (what follows its last `/`), or `files` where there is none.
pub open spec fn cause_of(paths: Seq<Seq<char>>) -> Seq<char> {
    if paths.len() == 0 || after_last(paths[0], '/').len() == 0 {
        "files"@
    } else {
        after_last(paths[0], '/')
    }
}

/// Computes [`cause_of`].
pub fn trigger_cause(paths: &Vec<String>) -> (cause: String)
    ensures
        cause@ == cause_of(strings_view(paths@)),
{
    if paths.len() == 0 {
        return "files".to_owned();
    }
    let chars = chars_of(paths[0].as_str());
    assert(strings_view(paths@)[0] == paths[0]@);
    let start: usize = match find_last(&chars, '/') {
        Some(i) => i + 1,
        None => 0,
    };
    if start == chars.len() {
        "files".to_owned()
    } else {
        string_of_range(&chars, start, chars.len())
    }
}

/// The debounce policy with its ledger.
pub struct DebouncePolicy {
    ledger: StringHashMap<u64>,
}

impl View for DebouncePolicy {
    type V = Ledger;

    closed spec fn view(&self) -> Ledger {
        self.ledger@
    }
}

impl DebouncePolicy {
    /// A policy that has seen no path yet.
    pub fn new() -> (policy: Self)
        ensures
            policy@ == Map::<Seq<char>, u64>::empty(),
    {
        DebouncePolicy { ledger: StringHashMap::new() }
    }

    /// The instant at which `path` last caused an accepted trigger.
    pub fn last_trigger(&self, path: &str) -> (at: Option<u64>)
        ensures
            at == if self@.contains_key(path@) {
                Some(self@[path@])
            } else {
                None
            },
    {
        match self.ledger.get(path) {
            Some(t) => Some(*t),
            None => None,
        }
    }

    /// Whether `path` alone would be accepted at `at`.
    fn path_qualifies(&self, path: &str, at: u64) -> (q: bool)
        ensures
            q == qualifies(self@, path@, at),
    {
        match self.ledger.get(path) {
            Some(last) => at > *last && at - *last > DEBOUNCE_WINDOW_NANOS,
            None => true,
        }
    }

    /// Whether a notification would be accepted, without recording it.
    pub fn would_accept(&self, notification: &ChangeNotification) -> (accept: bool)
        ensures
            accept == accepts(self@, notification.paths(), notification.observed_at),
    {
        let paths = &notification.affected_paths;
        let mut i: usize = 0;
        while i < paths.len()
            invariant
                i <= paths.len(),
                paths == &notification.affected_paths,
                forall|j: int|
                    0 <= j < i ==> !qualifies(
                        self@,
                        #[trigger] strings_view(paths@)[j],
                        notification.observed_at,
                    ),
            decreases paths.len() - i,
        {
            if self.path_qualifies(paths[i].as_str(), notification.observed_at) {
                assert(strings_view(paths@)[i as int] == paths[i as int]@);
                return true;
            }
            assert(strings_view(paths@)[i as int] == paths[i as int]@);
            i += 1;
        }
        false
    }

    /// Judges one notification. An accepted one sets the ledger entry of each
    /// of its paths to the instant of observation and yields a trigger; any
    /// other leaves the ledger as it was and yields nothing.
    pub fn observe(&mut self, notification: &ChangeNotification) -> (trigger: Option<
        RebuildTrigger,
    >)
        ensures
            final(self)@ == step(old(self)@, notification.paths(), notification.observed_at),
            trigger is Some <==> accepts(
                old(self)@,
                notification.paths(),
                notification.observed_at,
            ),
            trigger is Some ==> trigger->0.cause@ == cause_of(notification.paths()),
    {
        if !self.would_accept(notification) {
            return None;
        }
        let paths = &notification.affected_paths;
        let at = notification.observed_at;
        let ghost before = self@;
        let mut i: usize = 0;
        assert(self@ =~= record(before, notification.paths().take(0), at));
        while i < paths.len()
            invariant
                i <= paths.len(),
                paths == &notification.affected_paths,
                at == notification.observed_at,
                self@ == record(before, notification.paths().take(i as int), at),
            decreases paths.len() - i,
        {
            self.ledger.insert(paths[i].clone(), at);
            proof {
                lemma_record_push(before, notification.paths(), i as int, at);
            }
            i += 1;
        }
        assert(notification.paths().take(i as int) == notification.paths());
        Some(RebuildTrigger { cause: trigger_cause(paths) })
    }

    /// Judges a queue of notifications in arrival order and returns the
    /// triggers that it emits, in order.
    pub fn observe_all(&mut self, queue: &Vec<ChangeNotification>) -> (triggers: Vec<
        RebuildTrigger,
    >)
        ensures
            final(self)@ == run(old(self)@, queue@),
            triggers.len() == triggers_emitted(old(self)@, queue@),
            causes_of(triggers@) == causes_emitted(old(self)@, queue@),
    {
        let mut triggers: Vec<RebuildTrigger> = Vec::new();
        let mut i: usize = 0;
        assert(queue@.skip(0) == queue@);
        assert(causes_of(triggers@) + causes_emitted(self@, queue@) =~= causes_emitted(
            self@,
            queue@,
        ));
        while i < queue.len()
            invariant
                i <= queue.len(),
                triggers.len() <= i,
                run(old(self)@, queue@) == run(self@, queue@.skip(i as int)),
                triggers_emitted(old(self)@, queue@) == triggers.len() + triggers_emitted(
                    self@,
                    queue@.skip(i as int),
                ),
                causes_emitted(old(self)@, queue@) == causes_of(triggers@) + causes_emitted(
                    self@,
                    queue@.skip(i as int),
                ),
            decreases queue.len() - i,
        {
            let ghost before = causes_of(triggers@);
            let ghost ledger = self@;
            assert(queue@.skip(i as int).drop_first() == queue@.skip(i + 1));
            assert(queue@.skip(i as int)[0] == queue@[i as int]);
            match self.observe(&queue[i]) {
                Some(trigger) => {
                    triggers.push(trigger);
                    assert(causes_of(triggers@) =~= before.push(trigger.cause@));
                    assert(causes_of(triggers@) + causes_emitted(self@, queue@.skip(i + 1))
                        =~= before + causes_emitted(ledger, queue@.skip(i as int)));
                },
                None => {},
            }
            i += 1;
        }
        assert(causes_of(triggers@) + Seq::<Seq<char>>::empty() =~= causes_of(triggers@));
        triggers
    }
}

/// Recording one more path is one more insertion.
proof fn lemma_record_push(ledger: Ledger, paths: Seq<Seq<char>>, i: int, at: u64)
    requires
        0 <= i < paths.len(),
    ensures
        record(ledger, paths.take(i), at).insert(paths[i], at) == record(
            ledger,
            paths.take(i + 1),
            at,
        ),
{
    let shorter = paths.take(i);
    let longer = paths.take(i + 1);
    assert(longer == shorter.push(paths[i]));
    assert forall|p: Seq<char>| longer.contains(p) <==> (shorter.contains(p) || p == paths[i]) by {
        if longer.contains(p) {
            let j = choose|j: int| 0 <= j < longer.len() && longer[j] == p;
            if j < i {
                assert(shorter[j] == p);
            }
        }
        if shorter.contains(p) {
            let j = choose|j: int| 0 <= j < shorter.len() && shorter[j] == p;
            assert(longer[j] == p);
        }
        if p == paths[i] {
            assert(longer[i] == p);
        }
    }
    assert(record(ledger, shorter, at).insert(paths[i], at) =~= record(ledger, longer, at));
}

/// Every instant in the ledger is at or before `at`.
pub open spec fn none_after(ledger: Ledger, at: u64) -> bool {
    forall|p: Seq<char>| ledger.contains_key(p) ==> #[trigger] ledger[p] <= at
}

/// Every notification of `queue` touches `path` and nothing else.
pub open spec fn all_touch(queue: Seq<ChangeNotification>, path: Seq<char>) -> bool {
    forall|i: int| 0 <= i < queue.len() ==> (#[trigger] queue[i]).paths() == seq![path]
}

/// While a path's entry is no older than the quiet window, notifications that
/// touch only that path are dropped and the ledger stays as it is.
proof fn lemma_quiet_queue(ledger: Ledger, queue: Seq<ChangeNotification>, path: Seq<char>)
    requires
        ledger.contains_key(path),
        all_touch(queue, path),
        forall|i: int|
            0 <= i < queue.len() ==> (#[trigger] queue[i]).observed_at - ledger[path]
                <= DEBOUNCE_WINDOW_NANOS,
    ensures
        triggers_emitted(ledger, queue) == 0,
        run(ledger, queue) == ledger,
    decreases queue.len(),
{
    if queue.len() > 0 {
        let first = queue[0];
        assert(first.paths() == seq![path]);
        assert(!accepts(ledger, first.paths(), first.observed_at)) by {
            assert forall|i: int| 0 <= i < first.paths().len() implies !qualifies(
                ledger,
                #[trigger] first.paths()[i],
                first.observed_at,
            ) by {
                assert(first.paths()[i] == path);
            }
        }
        let rest = queue.drop_first();
        assert forall|i: int| 0 <= i < rest.len() implies (#[trigger] rest[i]).paths() == seq![
            path,
        ] && rest[i].observed_at - ledger[path] <= DEBOUNCE_WINDOW_NANOS by {
            assert(rest[i] == queue[i + 1]);
        }
        lemma_quiet_queue(ledger, rest, path);
    }
}

/// A burst on one path emits one trigger: when the first notification of a
/// queue qualifies, every notification touches the same single path, each
/// follows its predecessor by less than the quiet window, and the whole burst
/// ends within one quiet window of its first notification, then exactly one
/// trigger is emitted.
pub proof fn lemma_burst_emits_one_trigger(
    ledger: Ledger,
    queue: Seq<ChangeNotification>,
    path: Seq<char>,
)
    requires
        queue.len() >= 1,
        all_touch(queue, path),
        qualifies(ledger, path, queue[0].observed_at),
        forall|i: int|
            0 <= i < queue.len() - 1 ==> 0 <= queue[i + 1].observed_at - (
            #[trigger] queue[i]).observed_at < DEBOUNCE_WINDOW_NANOS,
        forall|i: int|
            0 <= i < queue.len() ==> (#[trigger] queue[i]).observed_at - queue[0].observed_at
                <= DEBOUNCE_WINDOW_NANOS,
    ensures
        triggers_emitted(ledger, queue) == 1,
{
    let first = queue[0];
    assert(first.paths() == seq![path]);
    assert(first.paths()[0] == path);
    assert(accepts(ledger, first.paths(), first.observed_at));
    let next = step(ledger, first.paths(), first.observed_at);
    assert(first.paths().contains(path));
    assert(next.contains_key(path) && next[path] == first.observed_at);
    let rest = queue.drop_first();
    assert forall|i: int| 0 <= i < rest.len() implies (#[trigger] rest[i]).paths() == seq![path]
        && rest[i].observed_at - next[path] <= DEBOUNCE_WINDOW_NANOS by {
        assert(rest[i] == queue[i + 1]);
    }
    lemma_quiet_queue(next, rest, path);
}

/// Two notifications on one path, the second more than the quiet window after
/// the first, emit two triggers when the first one qualifies.
pub proof fn lemma_spaced_pair_emits_two_triggers(
    ledger: Ledger,
    first: ChangeNotification,
    second: ChangeNotification,
    path: Seq<char>,
)
    requires
        first.paths() == seq![path],
        second.paths() == seq![path],
        qualifies(ledger, path, first.observed_at),
        second.observed_at - first.observed_at > DEBOUNCE_WINDOW_NANOS,
    ensures
        triggers_emitted(ledger, seq![first, second]) == 2,
{
    let queue = seq![first, second];
    assert(first.paths()[0] == path);
    assert(accepts(ledger, first.paths(), first.observed_at));
    let next = step(ledger, first.paths(), first.observed_at);
    assert(first.paths().contains(path));
    assert(next.contains_key(path) && next[path] == first.observed_at);
    let rest = queue.drop_first();
    assert(rest[0] == second);
    assert(second.paths()[0] == path);
    assert(qualifies(next, second.paths()[0], second.observed_at));
    assert(accepts(next, second.paths(), second.observed_at));
    assert(rest.drop_first().len() == 0);
    assert(triggers_emitted(step(next, second.paths(), second.observed_at), rest.drop_first())
        == 0);
    assert(triggers_emitted(next, rest) == 1);
}

/// The ledger only grows, and only forward: under a clock that does not run
/// backwards, judging a notification keeps every path that the ledger knew,
/// moves no entry to an earlier instant, and changes an entry only to a
/// strictly later one.
pub proof fn lemma_ledger_only_advances(ledger: Ledger, paths: Seq<Seq<char>>, at: u64)
    requires
        none_after(ledger, at),
    ensures
        forall|p: Seq<char>|
            ledger.contains_key(p) ==> step(ledger, paths, at).contains_key(p) && ledger[p]
                <= #[trigger] step(ledger, paths, at)[p],
        forall|p: Seq<char>|
            ledger.contains_key(p) && #[trigger] step(ledger, paths, at)[p] != ledger[p]
                ==> step(ledger, paths, at)[p] > ledger[p],
        none_after(step(ledger, paths, at), at),
{
    let next = step(ledger, paths, at);
    assert forall|p: Seq<char>| ledger.contains_key(p) implies next.contains_key(p) && ledger[p]
        <= #[trigger] next[p] by {
        assert(ledger[p] <= at);
    }
    assert forall|p: Seq<char>| next.contains_key(p) implies #[trigger] next[p] <= at by {
        if ledger.contains_key(p) {
            assert(ledger[p] <= at);
        }
    }
}

} // verus!
