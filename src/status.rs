use vstd::prelude::*;
use std::sync::atomic::{AtomicU8, Ordering};

verus! {

/// Lifecycle status of a database.
#[derive(PartialEq, Eq, Structural, Clone, Copy, Debug)]
pub enum DbStatus {
    /// Never loaded.
    New,
    /// A load is in flight.
    Loading,
    /// The last load succeeded.
    Loaded,
    /// The last load failed and the failure has not been reported yet.
    ErrorNew,
    /// The last load failed and the failure has been reported.
    Error,
}

impl DbStatus {
    /// The byte that stands for the status in the atomic status word.
    pub open spec fn code(self) -> u8 {
        match self {
            DbStatus::New => 0,
            DbStatus::Loading => 1,
            DbStatus::Loaded => 2,
            DbStatus::ErrorNew => 3,
            DbStatus::Error => 4,
        }
    }

    pub fn to_code(self) -> (r: u8)
        ensures
            r == self.code(),
    {
        match self {
            DbStatus::New => 0,
            DbStatus::Loading => 1,
            DbStatus::Loaded => 2,
            DbStatus::ErrorNew => 3,
            DbStatus::Error => 4,
        }
    }

    pub fn from_code(c: u8) -> (r: Option<DbStatus>)
        ensures
            match r {
                Some(s) => s.code() == c,
                None => c > 4,
            },
    {
        match c {
            0 => Some(DbStatus::New),
            1 => Some(DbStatus::Loading),
            2 => Some(DbStatus::Loaded),
            3 => Some(DbStatus::ErrorNew),
            4 => Some(DbStatus::Error),
            _ => None,
        }
    }
}

/// What a caller of the status check has to do after its transition.
#[derive(PartialEq, Eq, Structural, Clone, Copy, Debug)]
pub enum CheckAction {
    Nothing,
    /// Start a load: this caller won the first-load transition.
    Load,
    /// Report the stored load error once: this caller won the report transition.
    ReportError,
}

/// The status check: a new database starts loading, a fresh error gets
/// reported; any other status is left alone.
pub open spec fn check_next(s: DbStatus) -> (DbStatus, CheckAction) {
    match s {
        DbStatus::New => (DbStatus::Loading, CheckAction::Load),
        DbStatus::ErrorNew => (DbStatus::Error, CheckAction::ReportError),
        _ => (s, CheckAction::Nothing),
    }
}

/// A triggered reload: it starts only from a loaded or a reported-error status,
/// so that reloads never overlap.
pub open spec fn trigger_next(s: DbStatus) -> (DbStatus, bool) {
    match s {
        DbStatus::Loaded => (DbStatus::Loading, true),
        DbStatus::Error => (DbStatus::Loading, true),
        _ => (s, false),
    }
}

/// The status that the end of a load leaves.
pub open spec fn load_done(ok: bool) -> DbStatus {
    if ok {
        DbStatus::Loaded
    } else {
        DbStatus::ErrorNew
    }
}

pub fn on_check(s: DbStatus) -> (r: (DbStatus, CheckAction))
    ensures
        r == check_next(s),
{
    match s {
        DbStatus::New => (DbStatus::Loading, CheckAction::Load),
        DbStatus::ErrorNew => (DbStatus::Error, CheckAction::ReportError),
        _ => (s, CheckAction::Nothing),
    }
}

pub fn on_trigger(s: DbStatus) -> (r: (DbStatus, bool))
    ensures
        r == trigger_next(s),
{
    match s {
        DbStatus::Loaded => (DbStatus::Loading, true),
        DbStatus::Error => (DbStatus::Loading, true),
        _ => (s, false),
    }
}

pub fn on_load_done(ok: bool) -> (r: DbStatus)
    ensures
        r == load_done(ok),
{
    if ok {
        DbStatus::Loaded
    } else {
        DbStatus::ErrorNew
    }
}

/// A change of the status word that one call made, with what it asks of its caller.
#[derive(PartialEq, Eq, Structural, Clone, Copy, Debug)]
pub struct Transition {
    pub from: DbStatus,
    pub to: DbStatus,
    pub action: CheckAction,
}

/// Relies on `AtomicU8::compare_exchange`: it returns `Ok` with the previous
/// value, equal to `current`, when it wrote `new`, and `Err` with the previous
/// value, which differs from `current`, when it did not.
#[verifier::external_body]
fn compare_exchange_u8(a: &AtomicU8, current: u8, new: u8) -> (r: Result<u8, u8>)
    ensures
        match r {
            Ok(v) => v == current,
            Err(v) => v != current,
        },
{
    a.compare_exchange(current, new, Ordering::Acquire, Ordering::Relaxed)
}

/// Whether `r` is an outcome that a compare-and-swap expecting `current` can have.
pub open spec fn swap_fits(r: Result<u8, u8>, current: u8) -> bool {
    match r {
        Ok(v) => v == current,
        Err(v) => v != current,
    }
}

/// What the status check returns for the outcomes of its two swaps: the swap
/// from `New` to `Loading`, and, made exactly when the first one found
/// `ErrorNew`, the swap from `ErrorNew` to `Error`.
pub open spec fn check_result(first: Result<u8, u8>, second: Option<Result<u8, u8>>) -> Option<Transition> {
    match first {
        Ok(_) => Some(
            Transition {
                from: DbStatus::New,
                to: check_next(DbStatus::New).0,
                action: check_next(DbStatus::New).1,
            },
        ),
        Err(p) => if p == DbStatus::ErrorNew.code() && second matches Some(Ok(_)) {
            Some(
                Transition {
                    from: DbStatus::ErrorNew,
                    to: check_next(DbStatus::ErrorNew).0,
                    action: check_next(DbStatus::ErrorNew).1,
                },
            )
        } else {
            None
        },
    }
}

/// What a triggered reload returns for the outcomes of its two swaps: the swap
/// from `Loaded` to `Loading`, and, made exactly when that one failed, the swap
/// from `Error` to `Loading`.
pub open spec fn trigger_result(first: Result<u8, u8>, second: Option<Result<u8, u8>>) -> Option<DbStatus> {
    match first {
        Ok(_) => Some(DbStatus::Loaded),
        Err(_) => if second matches Some(Ok(_)) {
            Some(DbStatus::Error)
        } else {
            None
        },
    }
}

/// The transition that the status check made, given the outcomes of its swaps.
pub fn check_outcome(first: Result<u8, u8>, second: Option<Result<u8, u8>>) -> (r: Option<Transition>)
    ensures
        r == check_result(first, second),
        r == (match first {
            Ok(_) => Some(Transition { from: DbStatus::New, to: DbStatus::Loading, action: CheckAction::Load }),
            Err(p) => if p == DbStatus::ErrorNew.code() && second is Some && second.unwrap() is Ok {
                Some(Transition { from: DbStatus::ErrorNew, to: DbStatus::Error, action: CheckAction::ReportError })
            } else {
                None
            },
        }),
{
    match first {
        Ok(_) => {
            let (to, action) = on_check(DbStatus::New);
            Some(Transition { from: DbStatus::New, to, action })
        },
        Err(p) => {
            if p == DbStatus::ErrorNew.to_code() {
                match second {
                    Some(Ok(_)) => {
                        let (to, action) = on_check(DbStatus::ErrorNew);
                        Some(Transition { from: DbStatus::ErrorNew, to, action })
                    },
                    _ => None,
                }
            } else {
                None
            }
        },
    }
}

/// The status that a triggered reload moved from, given the outcomes of its swaps.
pub fn trigger_outcome(first: Result<u8, u8>, second: Option<Result<u8, u8>>) -> (r: Option<DbStatus>)
    ensures
        r == trigger_result(first, second),
        match r {
            Some(s) => trigger_next(s) == (DbStatus::Loading, true),
            None => true,
        },
{
    let r = match first {
        Ok(_) => Some(DbStatus::Loaded),
        Err(_) => match second {
            Some(Ok(_)) => Some(DbStatus::Error),
            _ => None,
        },
    };
    match r {
        Some(s) => {
            let (to, won) = on_trigger(s);
            if won && to == DbStatus::Loading {
                Some(s)
            } else {
                None
            }
        },
        None => None,
    }
}

/// The status word of a database, shared by all callers without a lock.
/// Every transition is a single compare-and-swap, so of any number of callers
/// at most one wins each transition.
pub struct StatusCell {
    word: AtomicU8,
}

impl StatusCell {
    /// A status word holding `New`.
    pub fn new() -> (r: StatusCell) {
        StatusCell { word: AtomicU8::new(DbStatus::New.to_code()) }
    }

    /// Attempts the status check's transition, from `New` and then from
    /// `ErrorNew`. Returns the transition that this call made, if it made one:
    /// what `check_result` gives for outcomes that its swaps can have had.
    /// In particular `None` means that the word held neither `New` when the
    /// first swap ran nor `ErrorNew` when the second one did.
    pub fn check_status(&self) -> (r: Option<Transition>)
        ensures
            exists|first: Result<u8, u8>, second: Option<Result<u8, u8>>|
                #![trigger check_result(first, second)]
                swap_fits(first, DbStatus::New.code())
                && (second is Some <==> first == Err::<u8, u8>(DbStatus::ErrorNew.code()))
                && (second matches Some(s) ==> swap_fits(s, DbStatus::ErrorNew.code()))
                && r == check_result(first, second),
            match r {
                Some(t) => (t.to, t.action) == check_next(t.from) && t.action != CheckAction::Nothing,
                None => true,
            },
    {
        let fresh = DbStatus::ErrorNew.to_code();
        let first = compare_exchange_u8(&self.word, DbStatus::New.to_code(), DbStatus::Loading.to_code());
        let second = match first {
            Err(p) => if p == fresh {
                Some(compare_exchange_u8(&self.word, fresh, DbStatus::Error.to_code()))
            } else {
                None
            },
            Ok(_) => None,
        };
        let r = check_outcome(first, second);
        assert(check_result(first, second) == r);
        r
    }

    /// Attempts a triggered reload's transition, from `Loaded` and then from
    /// `Error`. Returns the status it moved from when it won; the caller then
    /// owns the load. `None` means that the word held neither `Loaded` when
    /// the first swap ran nor `Error` when the second one did.
    pub fn trigger_reload(&self) -> (r: Option<DbStatus>)
        ensures
            exists|first: Result<u8, u8>, second: Option<Result<u8, u8>>|
                #![trigger trigger_result(first, second)]
                swap_fits(first, DbStatus::Loaded.code())
                && (second is Some <==> first is Err)
                && (second matches Some(s) ==> swap_fits(s, DbStatus::Error.code()))
                && r == trigger_result(first, second),
            match r {
                Some(s) => trigger_next(s) == (DbStatus::Loading, true),
                None => true,
            },
    {
        let loading = DbStatus::Loading.to_code();
        let first = compare_exchange_u8(&self.word, DbStatus::Loaded.to_code(), loading);
        let second = match first {
            Err(_) => Some(compare_exchange_u8(&self.word, DbStatus::Error.to_code(), loading)),
            Ok(_) => None,
        };
        let r = trigger_outcome(first, second);
        assert(trigger_result(first, second) == r);
        r
    }

    /// Records the end of the load in flight; returns the status it stored:
    /// `Loaded` after a success, `ErrorNew` after a failure.
    pub fn finish_load(&self, ok: bool) -> (r: DbStatus)
        ensures
            r == load_done(ok),
            r == (if ok { DbStatus::Loaded } else { DbStatus::ErrorNew }),
    {
        let next = on_load_done(ok);
        self.word.store(next.to_code(), Ordering::Relaxed);
        next
    }
}

/// One step that a database's status word can take.
#[derive(PartialEq, Eq, Structural, Clone, Copy, Debug)]
pub enum Event {
    Check,
    Trigger,
    LoadDone(bool),
}

/// The outcome of one event: the next status, whether a load starts, whether
/// an error gets reported.
pub open spec fn event_next(s: DbStatus, e: Event) -> (DbStatus, bool, bool) {
    match e {
        Event::Check => {
            let (n, a) = check_next(s);
            (n, a == CheckAction::Load, a == CheckAction::ReportError)
        },
        Event::Trigger => {
            let (n, t) = trigger_next(s);
            (n, t, false)
        },
        Event::LoadDone(ok) => (load_done(ok), false, false),
    }
}

/// A history of the status word in the order in which its atomic steps took
/// effect: a load ends only while one is in flight.
pub open spec fn valid_history(s: DbStatus, events: Seq<Event>) -> bool
    decreases events.len(),
{
    if events.len() == 0 {
        true
    } else {
        (events[0] is LoadDone ==> s == DbStatus::Loading) && valid_history(
            event_next(s, events[0]).0,
            events.drop_first(),
        )
    }
}

/// Loads started over a history.
pub open spec fn loads_started(s: DbStatus, events: Seq<Event>) -> nat
    decreases events.len(),
{
    if events.len() == 0 {
        0
    } else {
        let (n, l, _) = event_next(s, events[0]);
        (if l { 1nat } else { 0nat }) + loads_started(n, events.drop_first())
    }
}

/// Errors reported over a history.
pub open spec fn errors_reported(s: DbStatus, events: Seq<Event>) -> nat
    decreases events.len(),
{
    if events.len() == 0 {
        0
    } else {
        let (n, _, r) = event_next(s, events[0]);
        (if r { 1nat } else { 0nat }) + errors_reported(n, events.drop_first())
    }
}

pub open spec fn no_trigger(events: Seq<Event>) -> bool {
    forall|i: int| 0 <= i < events.len() ==> !(#[trigger] events[i] is Trigger)
}

/// Dropping the first event of a history without triggers leaves one without triggers.
proof fn lemma_no_trigger_rest(events: Seq<Event>)
    requires
        events.len() > 0,
        no_trigger(events),
    ensures
        no_trigger(events.drop_first()),
{
    let rest = events.drop_first();
    assert forall|i: int| 0 <= i < rest.len() implies !(#[trigger] rest[i] is Trigger) by {
        assert(rest[i] == events[i + 1]);
    }
}

pub open spec fn no_load_done(events: Seq<Event>) -> bool {
    forall|i: int| 0 <= i < events.len() ==> !(#[trigger] events[i] is LoadDone)
}

proof fn lemma_no_load_done_rest(events: Seq<Event>)
    requires
        events.len() > 0,
        no_load_done(events),
    ensures
        no_load_done(events.drop_first()),
{
    let rest = events.drop_first();
    assert forall|i: int| 0 <= i < rest.len() implies !(#[trigger] rest[i] is LoadDone) by {
        assert(rest[i] == events[i + 1]);
    }
}

/// While a load is in flight, neither checks nor triggers start another one.
pub proof fn lemma_loading_starts_nothing(events: Seq<Event>)
    requires
        no_load_done(events),
    ensures
        loads_started(DbStatus::Loading, events) == 0,
    decreases events.len(),
{
    if events.len() > 0 {
        lemma_no_load_done_rest(events);
        lemma_loading_starts_nothing(events.drop_first());
    }
}

/// However status checks and reload triggers of concurrent callers
/// interleave, from any status at most one load starts before a load ends:
/// loads never overlap.
pub proof fn lemma_loads_never_overlap(s: DbStatus, events: Seq<Event>)
    requires
        no_load_done(events),
    ensures
        loads_started(s, events) <= 1,
    decreases events.len(),
{
    if events.len() > 0 {
        lemma_no_load_done_rest(events);
        let (n, l, _) = event_next(s, events[0]);
        if l {
            assert(n == DbStatus::Loading);
            lemma_loading_starts_nothing(events.drop_first());
        } else {
            lemma_loads_never_overlap(n, events.drop_first());
        }
    }
}

proof fn lemma_no_new_no_load(s: DbStatus, events: Seq<Event>)
    requires
        s != DbStatus::New,
        no_trigger(events),
    ensures
        loads_started(s, events) == 0,
    decreases events.len(),
{
    if events.len() > 0 {
        assert(!(events[0] is Trigger));
        let rest = events.drop_first();
        lemma_no_trigger_rest(events);
        lemma_no_new_no_load(event_next(s, events[0]).0, rest);
    }
}

/// Once a failure has been reported, no further history without a reload
/// trigger reports anything.
pub proof fn lemma_reported_stays_quiet(events: Seq<Event>)
    requires
        valid_history(DbStatus::Error, events),
        no_trigger(events),
    ensures
        errors_reported(DbStatus::Error, events) == 0,
    decreases events.len(),
{
    if events.len() > 0 {
        assert(!(events[0] is Trigger));
        let rest = events.drop_first();
        lemma_no_trigger_rest(events);
        lemma_reported_stays_quiet(rest);
    }
}

/// However the status checks of concurrent callers interleave with the end
/// of the load, a new database starts exactly one load until a reload is
/// triggered.
pub proof fn lemma_first_load_starts_once(events: Seq<Event>)
    requires
        events.len() > 0,
        valid_history(DbStatus::New, events),
        no_trigger(events),
    ensures
        loads_started(DbStatus::New, events) == 1,
{
    assert(!(events[0] is Trigger));
    let rest = events.drop_first();
    lemma_no_trigger_rest(events);
    lemma_no_new_no_load(DbStatus::Loading, rest);
}

/// However many status checks run after a failed load, the failure is
/// reported exactly once until a reload is triggered.
pub proof fn lemma_failure_reported_once(events: Seq<Event>)
    requires
        events.len() > 0,
        valid_history(DbStatus::ErrorNew, events),
        no_trigger(events),
    ensures
        errors_reported(DbStatus::ErrorNew, events) == 1,
        loads_started(DbStatus::ErrorNew, events) == 0,
{
    assert(!(events[0] is Trigger));
    let rest = events.drop_first();
    lemma_no_trigger_rest(events);
    lemma_reported_stays_quiet(rest);
    lemma_no_new_no_load(DbStatus::ErrorNew, events);
}

} // verus!
