use vstd::prelude::*;
use crate::poll::Async;

verus! {

/// The borrow-state word of a cell.
#[derive(Debug, Clone, Copy, PartialEq, Eq, Structural)]
pub enum BorrowState {
    /// No guard is live; the next attempt succeeds.
    Unused,
    /// A guard is live.
    Borrowed,
    /// A guard was released abnormally; no attempt will ever succeed again.
    Poisoned,
}

/// What a non-suspending borrow attempt does in a given state.
pub enum Attempt {
    /// The value is handed out.
    Acquired,
    /// A guard is live: try again later.
    Held,
    /// The cell is poisoned: every attempt fails.
    Poisoned,
}

/// The outcome of an attempt in state `s`.
pub open spec fn attempt(s: BorrowState) -> Attempt {
    match s {
        BorrowState::Unused => Attempt::Acquired,
        BorrowState::Borrowed => Attempt::Held,
        BorrowState::Poisoned => Attempt::Poisoned,
    }
}

/// The state after an attempt to borrow.
pub open spec fn state_after_attempt(s: BorrowState) -> BorrowState {
    match s {
        BorrowState::Unused => BorrowState::Borrowed,
        _ => s,
    }
}

/// The state after a guard is released, normally or abnormally.
pub open spec fn state_after_release(s: BorrowState, poisoned: bool) -> BorrowState {
    if s == BorrowState::Borrowed {
        if poisoned { BorrowState::Poisoned } else { BorrowState::Unused }
    } else {
        s
    }
}

/// The borrow state and the waker slot of a cell.
pub struct CellModel {
    pub state: BorrowState,
    pub task: Option<u64>,
}

/// A cell after `poll_ready(task)`: only the registration changes.
pub open spec fn after_register(m: CellModel, task: u64) -> CellModel {
    CellModel { state: m.state, task: Some(task) }
}

/// A cell after `poll_borrow(task)`.
pub open spec fn after_poll_borrow(m: CellModel, task: u64) -> CellModel {
    CellModel { state: state_after_attempt(m.state), task: Some(task) }
}

/// A cell after `try_borrow()`, which registers nothing.
pub open spec fn after_try_borrow(m: CellModel) -> CellModel {
    CellModel { state: state_after_attempt(m.state), task: m.task }
}

/// A cell after a guard is released: the registration is consumed.
pub open spec fn after_release(m: CellModel, poisoned: bool) -> CellModel {
    CellModel { state: state_after_release(m.state, poisoned), task: None }
}

/// The task that a release hands back to be woken.
pub open spec fn woken_by_release(m: CellModel) -> Option<u64> {
    m.task
}

/// The operations on a cell other than the release of a guard.
pub enum CellOp {
    /// `poll_ready(task)`
    PollReady(u64),
    /// `poll_borrow(task)`
    PollBorrow(u64),
    /// `try_borrow()`
    TryBorrow,
}

/// The cell after one operation.
pub open spec fn apply(m: CellModel, op: CellOp) -> CellModel {
    match op {
        CellOp::PollReady(t) => after_register(m, t),
        CellOp::PollBorrow(t) => after_poll_borrow(m, t),
        CellOp::TryBorrow => after_try_borrow(m),
    }
}

/// The cell after the operations `ops`, in order.
pub open spec fn run(m: CellModel, ops: Seq<CellOp>) -> CellModel
    decreases ops.len(),
{
    if ops.len() == 0 {
        m
    } else {
        apply(run(m, ops.drop_last()), ops.last())
    }
}

/// Error produced by a failed `poll_ready` or `poll_borrow`: the cell is poisoned.
#[derive(Debug)]
pub struct BorrowError {
    _priv: (),
}

/// Error produced by a failed `try_borrow`: the value is either held by a live
/// guard or poisoned.
#[derive(Debug)]
pub struct TryBorrowError {
    is_poisoned: bool,
}

impl BorrowError {
    pub fn new() -> (r: BorrowError) {
        BorrowError { _priv: () }
    }
}

impl TryBorrowError {
    pub closed spec fn poisoned(&self) -> bool {
        self.is_poisoned
    }

    pub fn new(is_poisoned: bool) -> (r: TryBorrowError)
        ensures
            r.poisoned() == is_poisoned,
    {
        TryBorrowError { is_poisoned }
    }

    /// `true` when the attempt failed because the cell is poisoned, `false`
    /// when it failed because a guard is live.
    pub fn is_poisoned(&self) -> (r: bool)
        ensures
            r == self.poisoned(),
    {
        self.is_poisoned
    }
}

/// A cell whose value is handed out to one guard at a time, checked at run
/// time, with a waker slot that is woken when the guard is released.
///
/// While a guard is live the value lives in the guard; releasing the guard
/// returns it to the cell.
pub struct Borrow<T> {
    value: Option<T>,
    state: BorrowState,
    task: Option<u64>,
}

/// Exclusive access to the value of a `Borrow`.
pub struct BorrowGuard<T> {
    value: T,
}

/// A guard narrowed to a component `U` of the borrowed value; `rest` holds the
/// remainder until the two are joined again.
pub struct MappedGuard<U, R> {
    part: U,
    rest: R,
}

impl<T> BorrowGuard<T> {
    pub closed spec fn value(&self) -> T {
        self.value
    }

    pub fn get(&self) -> (r: &T)
        ensures
            *r == self.value(),
    {
        &self.value
    }

    pub fn get_mut(&mut self) -> (r: &mut T)
        ensures
            *r == old(self).value(),
            final(self).value() == *final(r),
    {
        &mut self.value
    }
}

impl<U, R> MappedGuard<U, R> {
    pub closed spec fn part(&self) -> U {
        self.part
    }

    pub closed spec fn rest(&self) -> R {
        self.rest
    }

    pub fn get(&self) -> (r: &U)
        ensures
            *r == self.part(),
    {
        &self.part
    }

    pub fn get_mut(&mut self) -> (r: &mut U)
        ensures
            *r == old(self).part(),
            final(self).part() == *final(r),
            final(self).rest() == old(self).rest(),
    {
        &mut self.part
    }
}

impl<T> Borrow<T> {
    pub closed spec fn state(&self) -> BorrowState {
        self.state
    }

    /// The value held by the cell itself; `None` while a guard holds it.
    pub closed spec fn stored(&self) -> Option<T> {
        self.value
    }

    /// The task registered to be woken on release.
    pub closed spec fn task(&self) -> Option<u64> {
        self.task
    }

    pub open spec fn model(&self) -> CellModel {
        CellModel { state: self.state(), task: self.task() }
    }

    /// The value is with the cell exactly when no guard is live.
    pub open spec fn wf(&self) -> bool {
        (self.stored() is Some) <==> (self.state() != BorrowState::Borrowed)
    }

    /// Create a new `Borrow` containing `value`.
    pub fn new(value: T) -> (r: Borrow<T>)
        ensures
            r.wf(),
            r.state() == BorrowState::Unused,
            r.stored() == Some(value),
            r.task() == None::<u64>,
    {
        Borrow { value: Some(value), state: BorrowState::Unused, task: None }
    }

    /// The current borrow state.
    pub fn borrow_state(&self) -> (r: BorrowState)
        ensures
            r == self.state(),
    {
        self.state
    }

    /// `true` when the next attempt will not have to wait: the value is
    /// unused, or poisoned (then the attempt fails at once).
    pub fn is_ready(&self) -> (r: bool)
        ensures
            r == (self.state() != BorrowState::Borrowed),
    {
        match self.state {
            BorrowState::Unused => true,
            BorrowState::Borrowed => false,
            BorrowState::Poisoned => true,
        }
    }

    /// Registers `task` in place of any earlier registration, then reports
    /// `Ready` when the value is unused, `NotReady` while it is borrowed, and
    /// an error when the cell is poisoned.
    pub fn poll_ready(&mut self, task: u64) -> (r: Result<Async<()>, BorrowError>)
        requires
            old(self).wf(),
        ensures
            final(self).model() == after_register(old(self).model(), task),
            final(self).wf(),
            final(self).task() == Some(task),
            final(self).state() == old(self).state(),
            final(self).stored() == old(self).stored(),
            (r is Ok && r->Ok_0 is Ready) <==> old(self).state() == BorrowState::Unused,
            (r is Ok && r->Ok_0 is NotReady) <==> old(self).state() == BorrowState::Borrowed,
            r is Err <==> old(self).state() == BorrowState::Poisoned,
    {
        self.task = Some(task);
        match self.state {
            BorrowState::Unused => Ok(Async::Ready(())),
            BorrowState::Borrowed => Ok(Async::NotReady),
            BorrowState::Poisoned => Err(BorrowError::new()),
        }
    }

    /// Takes the value out of an unused cell, marking it borrowed.
    fn acquire(&mut self) -> (r: BorrowGuard<T>)
        requires
            old(self).wf(),
            old(self).state() == BorrowState::Unused,
        ensures
            final(self).wf(),
            final(self).state() == BorrowState::Borrowed,
            final(self).stored() == None::<T>,
            final(self).task() == old(self).task(),
            Some(r.value()) == old(self).stored(),
    {
        self.state = BorrowState::Borrowed;
        let value = self.value.take().unwrap();
        BorrowGuard { value }
    }

    /// Registers `task`, then attempts to move the cell from unused to
    /// borrowed: a guard on success, `NotReady` while another guard is live,
    /// an error when the cell is poisoned.
    pub fn poll_borrow(&mut self, task: u64) -> (r: Result<Async<BorrowGuard<T>>, BorrowError>)
        requires
            old(self).wf(),
        ensures
            final(self).model() == after_poll_borrow(old(self).model(), task),
            final(self).wf(),
            final(self).task() == Some(task),
            final(self).state() == state_after_attempt(old(self).state()),
            (r is Ok && r->Ok_0 is Ready) <==> old(self).state() == BorrowState::Unused,
            (r is Ok && r->Ok_0 is NotReady) <==> old(self).state() == BorrowState::Borrowed,
            r is Err <==> old(self).state() == BorrowState::Poisoned,
            r is Ok && r->Ok_0 is Ready ==> Some(r->Ok_0->Ready_0.value()) == old(self).stored()
                && final(self).stored() == None::<T>,
            !(r is Ok && r->Ok_0 is Ready) ==> final(self).stored() == old(self).stored(),
    {
        self.task = Some(task);
        match self.state {
            BorrowState::Unused => Ok(Async::Ready(self.acquire())),
            BorrowState::Borrowed => Ok(Async::NotReady),
            BorrowState::Poisoned => Err(BorrowError::new()),
        }
    }

    /// Attempts to borrow without registering any task: a guard on success,
    /// otherwise an error that tells a live guard from poisoning.
    pub fn try_borrow(&mut self) -> (r: Result<BorrowGuard<T>, TryBorrowError>)
        requires
            old(self).wf(),
        ensures
            final(self).model() == after_try_borrow(old(self).model()),
            final(self).wf(),
            final(self).task() == old(self).task(),
            final(self).state() == state_after_attempt(old(self).state()),
            r is Ok <==> attempt(old(self).state()) is Acquired,
            r is Err ==> (r->Err_0.poisoned() <==> attempt(old(self).state()) is Poisoned),
            r is Ok ==> Some(r->Ok_0.value()) == old(self).stored() && final(self).stored()
                == None::<T>,
            r is Err ==> final(self).stored() == old(self).stored(),
    {
        match self.state {
            BorrowState::Unused => Ok(self.acquire()),
            BorrowState::Borrowed => Err(TryBorrowError::new(false)),
            BorrowState::Poisoned => Err(TryBorrowError::new(true)),
        }
    }

    fn give_back(&mut self, guard: BorrowGuard<T>, poisoned: bool) -> (woken: Option<u64>)
        requires
            old(self).wf(),
            old(self).state() == BorrowState::Borrowed,
        ensures
            final(self).wf(),
            final(self).state() == state_after_release(old(self).state(), poisoned),
            final(self).stored() == Some(guard.value()),
            final(self).task() == None::<u64>,
            woken == old(self).task(),
    {
        self.value = Some(guard.value);
        self.state = if poisoned {
            BorrowState::Poisoned
        } else {
            BorrowState::Unused
        };
        self.task.take()
    }

    /// Releases a guard normally: the cell becomes unused again and gets the
    /// value back. Returns the registered task, which the caller must wake;
    /// the registration is consumed.
    pub fn release(&mut self, guard: BorrowGuard<T>) -> (woken: Option<u64>)
        requires
            old(self).wf(),
            old(self).state() == BorrowState::Borrowed,
        ensures
            final(self).model() == after_release(old(self).model(), false),
            final(self).wf(),
            final(self).state() == BorrowState::Unused,
            final(self).stored() == Some(guard.value()),
            final(self).task() == None::<u64>,
            woken == woken_by_release(old(self).model()),
    {
        self.give_back(guard, false)
    }

    /// Releases a guard abnormally, because its holder failed while holding
    /// it: the cell is poisoned for good. Returns the registered task, which
    /// the caller must wake; the registration is consumed.
    pub fn release_poisoned(&mut self, guard: BorrowGuard<T>) -> (woken: Option<u64>)
        requires
            old(self).wf(),
            old(self).state() == BorrowState::Borrowed,
        ensures
            final(self).model() == after_release(old(self).model(), true),
            final(self).wf(),
            final(self).state() == BorrowState::Poisoned,
            final(self).stored() == Some(guard.value()),
            final(self).task() == None::<u64>,
            woken == woken_by_release(old(self).model()),
    {
        self.give_back(guard, true)
    }

    /// Narrows a guard to a component of the borrowed value. `split` takes
    /// the value apart into the component and the remainder; the borrow is
    /// not re-checked, the parent guard already proved it exclusive.
    pub fn map<U, R, F>(guard: BorrowGuard<T>, split: F) -> (r: MappedGuard<U, R>)
        where
            F: FnOnce(T) -> (U, R),
        requires
            split.requires((guard.value(),)),
        ensures
            split.ensures((guard.value(),), (r.part(), r.rest())),
    {
        let (part, rest) = split(guard.value);
        MappedGuard { part, rest }
    }

    /// Narrows a guard as `map` does, with a `split` that may fail. On
    /// failure `split` hands the value back, and the guard over it is
    /// returned beside the error.
    pub fn try_map<U, R, E, F>(guard: BorrowGuard<T>, split: F) -> (r: Result<
        MappedGuard<U, R>,
        (BorrowGuard<T>, E),
    >)
        where
            F: FnOnce(T) -> Result<(U, R), (T, E)>,
        requires
            split.requires((guard.value(),)),
        ensures
            exists|s: Result<(U, R), (T, E)>|
                #![trigger split.ensures((guard.value(),), s)]
                split.ensures((guard.value(),), s) && match s {
                    Ok((part, rest)) => r is Ok && r->Ok_0.part() == part && r->Ok_0.rest()
                        == rest,
                    Err((value, e)) => r is Err && r->Err_0.0.value() == value && r->Err_0.1
                        == e,
                },
    {
        match split(guard.value) {
            Ok((part, rest)) => Ok(MappedGuard { part, rest }),
            Err((value, e)) => Err((BorrowGuard { value }, e)),
        }
    }

    /// Joins a narrowed guard back into a guard over the whole value.
    pub fn unmap<U, R, F>(guard: MappedGuard<U, R>, join: F) -> (r: BorrowGuard<T>)
        where
            F: FnOnce(U, R) -> T,
        requires
            join.requires((guard.part(), guard.rest())),
        ensures
            join.ensures((guard.part(), guard.rest()), r.value()),
    {
        BorrowGuard { value: join(guard.part, guard.rest) }
    }
}

/// While a guard is live, whatever registrations and attempts reach the
/// cell, it stays borrowed and every attempt reports the value as held: at
/// most one guard exists at a time. Narrowing the guard with `map`,
/// `try_map` or `unmap` does not involve the cell, so this holds until the
/// guard, narrowed or not, is joined back and released.
pub proof fn lemma_exclusive_until_release(m: CellModel, ops: Seq<CellOp>)
    requires
        m.state == BorrowState::Borrowed,
    ensures
        run(m, ops).state == BorrowState::Borrowed,
        attempt(run(m, ops).state) is Held,
    decreases ops.len(),
{
    if ops.len() > 0 {
        lemma_exclusive_until_release(m, ops.drop_last());
    }
}

/// Of two attempts on an unused cell, the first acquires the value and the
/// second reports it held.
pub proof fn lemma_second_attempt_held(m: CellModel)
    requires
        m.state == BorrowState::Unused,
    ensures
        attempt(m.state) is Acquired,
        attempt(after_try_borrow(m).state) is Held,
{
}

/// A task registered while the cell is borrowed is handed back by the
/// release, normal or abnormal, and the release consumes the registration:
/// without a new registration, a later release hands back no task.
pub proof fn lemma_wake_on_release(m: CellModel, task: u64, poisoned: bool)
    requires
        m.state == BorrowState::Borrowed,
    ensures
        after_register(m, task).state == BorrowState::Borrowed,
        woken_by_release(after_register(m, task)) == Some(task),
        woken_by_release(after_try_borrow(after_release(after_register(m, task), poisoned)))
            == None::<u64>,
        after_release(after_register(m, task), poisoned).task == None::<u64>,
        after_try_borrow(after_release(after_register(m, task), poisoned)).task == None::<u64>,
{
}

/// After an abnormal release, whatever registrations and attempts follow,
/// the cell stays poisoned: every attempt fails as poisoned, never as held,
/// and none succeeds.
pub proof fn lemma_poison_is_terminal(m: CellModel, ops: Seq<CellOp>)
    requires
        m.state == BorrowState::Borrowed,
    ensures
        run(after_release(m, true), ops).state == BorrowState::Poisoned,
        attempt(run(after_release(m, true), ops).state) is Poisoned,
    decreases ops.len(),
{
    if ops.len() > 0 {
        lemma_poison_is_terminal(m, ops.drop_last());
    }
}

} // verus!
