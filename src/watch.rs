use vstd::prelude::*;
use crate::poll::Async;

verus! {

/// What one subscriber has observed of the channel.
#[derive(Debug, Clone, Copy, PartialEq, Eq, Structural)]
pub struct SubState {
    /// The last version this subscriber reported as an update.
    pub seen: u64,
    /// Whether the end of updates was reported to this subscriber.
    pub closed_seen: bool,
    /// The task to wake on the next store or on closure.
    pub task: Option<u64>,
}

/// What a subscriber's poll reports.
#[derive(Debug, Clone, Copy, PartialEq, Eq, Structural)]
pub enum WatchEvent {
    /// A value newer than the last one seen was stored.
    Updated,
    /// The publisher is gone; reported once per subscriber.
    Closed,
    /// Nothing new; the task was registered.
    Pending,
    /// The end of updates was already reported; nothing will ever come.
    Ended,
}

/// The state of a channel as the contracts describe it.
pub struct WatchModel<T> {
    pub value: T,
    pub version: u64,
    pub closed: bool,
    pub subs: Seq<SubState>,
}

/// The tasks registered in `subs`, in subscriber order.
pub open spec fn tasks_of(subs: Seq<SubState>) -> Seq<u64>
    decreases subs.len(),
{
    if subs.len() == 0 {
        Seq::empty()
    } else {
        let prev = tasks_of(subs.drop_last());
        match subs.last().task {
            Some(t) => prev.push(t),
            None => prev,
        }
    }
}

/// `subs` with every registration consumed.
pub open spec fn unregistered(subs: Seq<SubState>) -> Seq<SubState> {
    subs.map_values(|s: SubState| SubState { task: None, ..s })
}

/// The channel after `store(v)`: the value is replaced, the version moves on,
/// and every registered task is woken (its registration consumed).
pub open spec fn after_store<T>(m: WatchModel<T>, v: T) -> WatchModel<T> {
    WatchModel {
        value: v,
        version: (m.version + 1) as u64,
        closed: m.closed,
        subs: unregistered(m.subs),
    }
}

/// The channel after its publisher is dropped.
pub open spec fn after_close<T>(m: WatchModel<T>) -> WatchModel<T> {
    WatchModel { value: m.value, version: m.version, closed: true, subs: unregistered(m.subs) }
}

/// What a poll of subscriber `s` reports on a channel at `version`.
pub open spec fn poll_event(version: u64, closed: bool, s: SubState) -> WatchEvent {
    if s.seen < version {
        WatchEvent::Updated
    } else if closed && !s.closed_seen {
        WatchEvent::Closed
    } else if s.closed_seen {
        WatchEvent::Ended
    } else {
        WatchEvent::Pending
    }
}

/// Subscriber `s` after a poll with `task` registered.
pub open spec fn polled(version: u64, closed: bool, s: SubState, task: u64) -> SubState {
    match poll_event(version, closed, s) {
        WatchEvent::Updated => SubState { seen: version, closed_seen: s.closed_seen, task: Some(task) },
        WatchEvent::Closed => SubState { seen: s.seen, closed_seen: true, task: Some(task) },
        _ => SubState { task: Some(task), ..s },
    }
}

/// The channel after subscriber `i` polls with `task`.
pub open spec fn after_poll<T>(m: WatchModel<T>, i: int, task: u64) -> WatchModel<T> {
    WatchModel {
        value: m.value,
        version: m.version,
        closed: m.closed,
        subs: m.subs.update(i, polled(m.version, m.closed, m.subs[i], task)),
    }
}

/// The channel after subscriber `i` is cloned: the clone is appended and
/// starts from what `i` has seen, with no registration.
pub open spec fn after_clone<T>(m: WatchModel<T>, i: int) -> WatchModel<T> {
    WatchModel {
        value: m.value,
        version: m.version,
        closed: m.closed,
        subs: m.subs.push(SubState { task: None, ..m.subs[i] }),
    }
}

pub open spec fn model_wf<T>(m: WatchModel<T>) -> bool {
    forall|i: int|
        0 <= i < m.subs.len() ==> #[trigger] m.subs[i].seen <= m.version && (
        m.subs[i].closed_seen ==> m.closed)
}

/// A single-slot broadcast channel: one publisher stores values, any number of
/// subscribers, each with its own cursor, observe the latest one.
///
/// Subscribers are named by their index, in the order they were made.
pub struct WatchChannel<T> {
    value: T,
    version: u64,
    closed: bool,
    subs: Vec<SubState>,
}

impl<T> WatchChannel<T> {
    pub closed spec fn model(&self) -> WatchModel<T> {
        WatchModel {
            value: self.value,
            version: self.version,
            closed: self.closed,
            subs: self.subs@,
        }
    }

    pub open spec fn wf(&self) -> bool {
        model_wf(self.model())
    }

    /// A channel holding `initial`, with one subscriber (index 0) that has
    /// seen it.
    pub fn new(initial: T) -> (r: WatchChannel<T>)
        ensures
            r.wf(),
            r.model().value == initial,
            r.model().version == 0,
            !r.model().closed,
            r.model().subs == seq![SubState { seen: 0, closed_seen: false, task: None }],
    {
        let mut subs: Vec<SubState> = Vec::new();
        subs.push(SubState { seen: 0, closed_seen: false, task: None });
        WatchChannel { value: initial, version: 0, closed: false, subs }
    }

    /// Consumes every registration, returning the registered tasks.
    fn take_tasks(&mut self) -> (woken: Vec<u64>)
        requires
            old(self).wf(),
        ensures
            final(self).model() == (WatchModel {
                subs: unregistered(old(self).model().subs),
                ..old(self).model()
            }),
            final(self).wf(),
            woken@ == tasks_of(old(self).model().subs),
    {
        let ghost subs0 = self.subs@;
        let mut woken: Vec<u64> = Vec::new();
        let mut i: usize = 0;
        while i < self.subs.len()
            invariant
                0 <= i <= self.subs@.len(),
                self.subs@.len() == subs0.len(),
                self.value == old(self).value,
                self.version == old(self).version,
                self.closed == old(self).closed,
                forall|j: int| 0 <= j < i ==> #[trigger] self.subs@[j] == (SubState { task: None, ..subs0[j] }),
                forall|j: int| i <= j < subs0.len() ==> #[trigger] self.subs@[j] == subs0[j],
                woken@ == tasks_of(subs0.subrange(0, i as int)),
            decreases subs0.len() - i,
        {
            let s = self.subs[i];
            assert(subs0.subrange(0, i as int + 1).drop_last() =~= subs0.subrange(0, i as int));
            match s.task {
                Some(t) => woken.push(t),
                None => {},
            }
            self.subs.set(i, SubState { seen: s.seen, closed_seen: s.closed_seen, task: None });
            i = i + 1;
        }
        assert(subs0.subrange(0, subs0.len() as int) =~= subs0);
        assert(self.subs@ =~= unregistered(subs0));
        woken
    }

    /// Replaces the value and returns the previous one, together with the
    /// tasks to wake: every subscriber is now behind the new version.
    pub fn store(&mut self, value: T) -> (r: (T, Vec<u64>))
        requires
            old(self).wf(),
            old(self).model().version < u64::MAX,
        ensures
            final(self).wf(),
            final(self).model() == after_store(old(self).model(), value),
            r.0 == old(self).model().value,
            r.1@ == tasks_of(old(self).model().subs),
    {
        let woken = self.take_tasks();
        let mut v = value;
        std::mem::swap(&mut self.value, &mut v);
        self.version = self.version + 1;
        (v, woken)
    }

    /// Marks the channel closed, as dropping the publisher does, and returns
    /// the tasks to wake so that each subscriber learns of it.
    pub fn close(&mut self) -> (woken: Vec<u64>)
        requires
            old(self).wf(),
        ensures
            final(self).wf(),
            final(self).model() == after_close(old(self).model()),
            woken@ == tasks_of(old(self).model().subs),
    {
        let woken = self.take_tasks();
        self.closed = true;
        woken
    }

    /// The latest stored value; does not move any subscriber's cursor.
    pub fn borrow(&self) -> (r: &T)
        ensures
            *r == self.model().value,
    {
        &self.value
    }

    /// Whether the channel was closed by its publisher.
    pub fn is_closed(&self) -> (r: bool)
        ensures
            r == self.model().closed,
    {
        self.closed
    }

    /// The number of subscribers made so far.
    pub fn subscribers(&self) -> (r: usize)
        ensures
            r == self.model().subs.len(),
    {
        self.subs.len()
    }

    /// Whether the end of updates was reported to subscriber `i`.
    pub fn is_final(&self, i: usize) -> (r: bool)
        requires
            i < self.model().subs.len(),
        ensures
            r == self.model().subs[i as int].closed_seen,
    {
        self.subs[i].closed_seen
    }

    /// Registers `task` for subscriber `i`, then reports an update when a
    /// newer version was stored (and moves the cursor to it), else the end
    /// of updates once after closure, else `Pending`, or `Ended` for good
    /// once the end was reported.
    pub fn poll(&mut self, i: usize, task: u64) -> (r: WatchEvent)
        requires
            old(self).wf(),
            i < old(self).model().subs.len(),
        ensures
            final(self).wf(),
            final(self).model() == after_poll(old(self).model(), i as int, task),
            r == poll_event(
                old(self).model().version,
                old(self).model().closed,
                old(self).model().subs[i as int],
            ),
    {
        let s = self.subs[i];
        let (event, next) = if s.seen < self.version {
            (WatchEvent::Updated, SubState { seen: self.version, closed_seen: s.closed_seen, task: Some(task) })
        } else if self.closed && !s.closed_seen {
            (WatchEvent::Closed, SubState { seen: s.seen, closed_seen: true, task: Some(task) })
        } else if s.closed_seen {
            (WatchEvent::Ended, SubState { seen: s.seen, closed_seen: s.closed_seen, task: Some(task) })
        } else {
            (WatchEvent::Pending, SubState { seen: s.seen, closed_seen: s.closed_seen, task: Some(task) })
        };
        self.subs.set(i, next);
        proof {
            assert(self.model().subs =~= old(self).model().subs.update(i as int, next));
            assert forall|j: int| 0 <= j < self.subs@.len() implies #[trigger] self.subs@[j].seen
                <= self.version && (self.subs@[j].closed_seen ==> self.closed) by {
                if j != i {
                    assert(self.subs@[j] == old(self).subs@[j]);
                }
            }
        }
        event
    }

    /// Polls subscriber `i` as `poll` does and maps an update through `then`,
    /// applied to the latest value: `Ready(Some(..))` with what `then`
    /// returned, or its error; `Ready(None)` once the channel is closed;
    /// `NotReady` while there is nothing new.
    pub fn poll_then<O, E, F>(&mut self, i: usize, task: u64, then: F) -> (r: Result<
        Async<Option<O>>,
        E,
    >)
        where
            F: FnOnce(&T) -> Result<O, E>,
        requires
            old(self).wf(),
            i < old(self).model().subs.len(),
            then.requires((&old(self).model().value,)),
        ensures
            final(self).wf(),
            final(self).model() == after_poll(old(self).model(), i as int, task),
            ({
                let ev = poll_event(
                    old(self).model().version,
                    old(self).model().closed,
                    old(self).model().subs[i as int],
                );
                match ev {
                    WatchEvent::Updated => exists|m: Result<O, E>|
                        #![trigger then.ensures((&old(self).model().value,), m)]
                        then.ensures((&old(self).model().value,), m) && match m {
                            Ok(o) => r == Ok::<Async<Option<O>>, E>(Async::Ready(Some(o))),
                            Err(e) => r == Err::<Async<Option<O>>, E>(e),
                        },
                    WatchEvent::Pending => r == Ok::<Async<Option<O>>, E>(Async::NotReady),
                    _ => r == Ok::<Async<Option<O>>, E>(Async::Ready(None)),
                }
            }),
    {
        let ev = self.poll(i, task);
        match ev {
            WatchEvent::Updated => match then(&self.value) {
                Ok(o) => Ok(Async::Ready(Some(o))),
                Err(e) => Err(e),
            },
            WatchEvent::Pending => Ok(Async::NotReady),
            _ => Ok(Async::Ready(None)),
        }
    }

    /// Makes a new subscriber from subscriber `i`: it starts from what `i`
    /// has seen, so it does not report again what `i` already reported.
    /// Returns the new subscriber's index.
    pub fn subscribe(&mut self, i: usize) -> (r: usize)
        requires
            old(self).wf(),
            i < old(self).model().subs.len(),
            old(self).model().subs.len() < usize::MAX,
        ensures
            final(self).wf(),
            final(self).model() == after_clone(old(self).model(), i as int),
            r == old(self).model().subs.len(),
    {
        let s = self.subs[i];
        self.subs.push(SubState { seen: s.seen, closed_seen: s.closed_seen, task: None });
        proof {
            assert(self.model().subs =~= after_clone(old(self).model(), i as int).subs);
            assert forall|j: int| 0 <= j < self.subs@.len() implies #[trigger] self.subs@[j].seen
                <= self.version && (self.subs@[j].closed_seen ==> self.closed) by {
                if j < old(self).subs@.len() {
                    assert(self.subs@[j] == old(self).subs@[j]);
                }
            }
        }
        self.subs.len() - 1
    }
}

/// Two stores before any poll: the value is the second one, the next poll
/// of any subscriber reports a single update, and a poll right after it
/// reports none, so the first value is never observed through polling.
pub proof fn lemma_latest_value<T>(m: WatchModel<T>, v1: T, v2: T, i: int, t1: u64, t2: u64)
    requires
        model_wf(m),
        0 <= i < m.subs.len(),
        m.version + 2 <= u64::MAX,
    ensures
        after_store(after_store(m, v1), v2).value == v2,
        poll_event(
            after_store(after_store(m, v1), v2).version,
            m.closed,
            after_store(after_store(m, v1), v2).subs[i],
        ) == WatchEvent::Updated,
        after_poll(after_store(after_store(m, v1), v2), i, t1).value == v2,
        poll_event(
            after_poll(after_store(after_store(m, v1), v2), i, t1).version,
            m.closed,
            after_poll(after_store(after_store(m, v1), v2), i, t1).subs[i],
        ) != WatchEvent::Updated,
        after_poll(after_poll(after_store(after_store(m, v1), v2), i, t1), i, t2).value == v2,
{
}

/// Two distinct subscribers observe a store each exactly once, whatever the
/// order of their polls: a poll of one leaves the other as it was.
pub proof fn lemma_fan_out<T>(m: WatchModel<T>, v: T, i: int, j: int, ti: u64, tj: u64)
    requires
        model_wf(m),
        0 <= i < m.subs.len(),
        0 <= j < m.subs.len(),
        i != j,
        m.version < u64::MAX,
    ensures
        ({
            let s = after_store(m, v);
            let a = after_poll(s, i, ti);
            let b = after_poll(a, j, tj);
            &&& poll_event(s.version, s.closed, s.subs[i]) == WatchEvent::Updated
            &&& poll_event(s.version, s.closed, s.subs[j]) == WatchEvent::Updated
            &&& a.subs[j] == s.subs[j]
            &&& poll_event(a.version, a.closed, a.subs[i]) != WatchEvent::Updated
            &&& b.subs[i] == a.subs[i]
            &&& poll_event(b.version, b.closed, b.subs[j]) != WatchEvent::Updated
        }),
{
}

/// Once the publisher is gone, a subscriber gets at most one more update
/// (when it was behind), then the end of updates exactly once, and from then
/// on `Ended` at every poll, final for good.
pub proof fn lemma_closure<T>(m: WatchModel<T>, i: int, t1: u64, t2: u64, t3: u64)
    requires
        model_wf(m),
        !m.closed,
        0 <= i < m.subs.len(),
    ensures
        ({
            let c = after_close(m);
            let a = after_poll(c, i, t1);
            let b = after_poll(a, i, t2);
            let d = after_poll(b, i, t3);
            if m.subs[i].seen < m.version {
                &&& poll_event(c.version, c.closed, c.subs[i]) == WatchEvent::Updated
                &&& poll_event(a.version, a.closed, a.subs[i]) == WatchEvent::Closed
                &&& poll_event(b.version, b.closed, b.subs[i]) == WatchEvent::Ended
                &&& b.subs[i].closed_seen
            } else {
                &&& poll_event(c.version, c.closed, c.subs[i]) == WatchEvent::Closed
                &&& poll_event(a.version, a.closed, a.subs[i]) == WatchEvent::Ended
                &&& poll_event(b.version, b.closed, b.subs[i]) == WatchEvent::Ended
                &&& a.subs[i].closed_seen && b.subs[i].closed_seen
            }
        }),
        told_of_end(after_poll(after_poll(after_close(m), i, t1), i, t2), i),
{
    let c = after_close(m);
    assert(c.subs[i] == (SubState { task: None, ..m.subs[i] }));
}

/// A subscriber that has been told of the end and is caught up.
pub open spec fn told_of_end<T>(m: WatchModel<T>, i: int) -> bool {
    m.closed && m.subs[i].closed_seen && m.subs[i].seen == m.version
}

/// A subscriber told of the end stays there: every poll reports `Ended`.
pub proof fn lemma_stays_ended<T>(m: WatchModel<T>, i: int, t: u64)
    requires
        0 <= i < m.subs.len(),
        told_of_end(m, i),
    ensures
        poll_event(m.version, m.closed, m.subs[i]) == WatchEvent::Ended,
        told_of_end(after_poll(m, i, t), i),
{
}

} // verus!
