//! One run as a state machine. The caller performs each action that the run
//! issues and hands back what came of it; the run decides what follows.

use crate::error::{ErrorKind, RunError, RunErrorView};
use crate::identity::{are_identifiers, fresh_identifiers};
use crate::reconcile::{
    chronological, cursor_of, is_new, lemma_second_run_writes_nothing, lemma_written_iff_new,
    new_records, new_under, plan_run, stamp_all, stamp_each, state_after, state_to_write,
    state_view, texts_of,
};
use crate::retry::{jittered_delay, Decision, RetryPolicy};
use crate::time::Timestamp;
use crate::types::{views_of, SpotPrice, SpotPriceView, State, StateView};
use vstd::prelude::*;
use vstd::string::StringExecFns;

verus! {

/// Where a run stands: which answer it waits for, or how it ended.
#[derive(Clone, Copy, Debug, PartialEq, Eq, Structural)]
pub enum Phase {
    /// The destination schema is being created or updated.
    Provisioning,
    /// The progress document is being read.
    Loading,
    /// The price source is being asked.
    Fetching,
    /// Waiting before the price source is asked again.
    FetchPause,
    /// One record is being written.
    Writing,
    /// Waiting before the same record is written again.
    WritePause,
    /// The new progress document is being written.
    Persisting,
    Succeeded,
    Failed,
}

/// What came of the action that the run issued last.
#[derive(Debug, PartialEq, Eq)]
pub enum Event {
    SchemaReady(Result<(), RunError>),
    /// The document of the previous run, if the store holds one.
    StateLoaded(Result<Option<State>, RunError>),
    /// The quotations of today and tomorrow, without identifier or source tag.
    Fetched(Result<Vec<SpotPrice>, RunError>),
    Inserted(Result<(), RunError>),
    StateStored(Result<(), RunError>),
    /// The wait is over.
    Waited,
}

/// What the caller is to do next.
#[derive(Debug, PartialEq, Eq)]
pub enum Action {
    EnsureSchema,
    ReadState,
    Fetch,
    Insert(SpotPrice),
    Sleep { millis: u64 },
    WriteState(State),
    /// The run is over, with this result.
    Finish(Result<(), RunError>),
}

/// The value of an [`Event`].
pub ghost enum EventView {
    SchemaReady(Result<(), RunErrorView>),
    StateLoaded(Result<Option<StateView>, RunErrorView>),
    Fetched(Result<Seq<SpotPriceView>, RunErrorView>),
    Inserted(Result<(), RunErrorView>),
    StateStored(Result<(), RunErrorView>),
    Waited,
}

/// The value of an [`Action`].
pub ghost enum ActionView {
    EnsureSchema,
    ReadState,
    Fetch,
    Insert(SpotPriceView),
    Sleep { millis: u64 },
    WriteState(StateView),
    Finish(Result<(), RunErrorView>),
}

/// The value of a result without payload.
pub open spec fn outcome_view(outcome: Result<(), RunError>) -> Result<(), RunErrorView> {
    match outcome {
        Ok(_) => Ok(()),
        Err(e) => Err(e@),
    }
}

impl View for Event {
    type V = EventView;

    open spec fn view(&self) -> EventView {
        match *self {
            Event::SchemaReady(r) => EventView::SchemaReady(outcome_view(r)),
            Event::StateLoaded(r) => EventView::StateLoaded(
                match r {
                    Ok(state) => Ok(state_view(state)),
                    Err(e) => Err(e@),
                },
            ),
            Event::Fetched(r) => EventView::Fetched(
                match r {
                    Ok(records) => Ok(views_of(records@)),
                    Err(e) => Err(e@),
                },
            ),
            Event::Inserted(r) => EventView::Inserted(outcome_view(r)),
            Event::StateStored(r) => EventView::StateStored(outcome_view(r)),
            Event::Waited => EventView::Waited,
        }
    }
}

impl View for Action {
    type V = ActionView;

    open spec fn view(&self) -> ActionView {
        match *self {
            Action::EnsureSchema => ActionView::EnsureSchema,
            Action::ReadState => ActionView::ReadState,
            Action::Fetch => ActionView::Fetch,
            Action::Insert(record) => ActionView::Insert(record@),
            Action::Sleep { millis } => ActionView::Sleep { millis },
            Action::WriteState(state) => ActionView::WriteState(state@),
            Action::Finish(r) => ActionView::Finish(outcome_view(r)),
        }
    }
}

/// The value of a [`Run`].
pub ghost struct RunView {
    /// The instant taken when the run began; it classifies every record.
    pub now: Timestamp,
    pub source: Seq<char>,
    pub policy: RetryPolicy,
    pub phase: Phase,
    /// Failed attempts of the operation in progress.
    pub failures: nat,
    /// The cursor that the previous run left.
    pub cursor: Option<Timestamp>,
    /// The fetched records, each with its identifier and source tag.
    pub records: Seq<SpotPriceView>,
    /// The records to write, in order: the new ones among `records`.
    pub pending: Seq<SpotPriceView>,
    /// How many of `pending` the sink has confirmed.
    pub written: nat,
    /// The document to persist after the last write.
    pub document: Option<StateView>,
}

impl RunView {
    pub open spec fn wf(self) -> bool {
        &&& self.failures == 0 || self.failures < self.policy.max_attempts
        &&& self.pending == new_records(self.cursor, self.records)
        &&& self.document == state_to_write(self.now, self.cursor, self.records)
        &&& self.written <= self.pending.len()
        &&& (self.phase == Phase::Provisioning || self.phase == Phase::Loading)
            ==> self.records.len() == 0
        &&& (self.phase == Phase::Writing || self.phase == Phase::WritePause) ==> self.written
            < self.pending.len()
        &&& self.phase == Phase::Persisting ==> self.written == self.pending.len()
            && self.pending.len() > 0
        &&& self.phase == Phase::Succeeded ==> self.written == self.pending.len()
    }

    pub open spec fn is_finished(self) -> bool {
        self.phase == Phase::Succeeded || self.phase == Phase::Failed
    }

    /// The records that the sink has confirmed in this run, in order.
    pub open spec fn confirmed(self) -> Seq<SpotPriceView> {
        self.pending.take(self.written as int)
    }
}

/// The text of the failure that ends a run on an event that answers no pending action.
pub open spec fn protocol_message() -> Seq<char> {
    "the event does not answer the action that the run issued"@
}

pub open spec fn protocol_error() -> RunErrorView {
    RunErrorView { kind: ErrorKind::Fatal, message: protocol_message() }
}

/// A run at its beginning. The first action is always to ensure the schema.
pub open spec fn initial(now: Timestamp, source: Seq<char>, policy: RetryPolicy) -> RunView {
    RunView {
        now,
        source,
        policy,
        phase: Phase::Provisioning,
        failures: 0,
        cursor: None,
        records: Seq::empty(),
        pending: Seq::empty(),
        written: 0,
        document: None,
    }
}

/// The run ends with `error`, unchanged.
pub open spec fn failed(pre: RunView, error: RunErrorView) -> (RunView, ActionView) {
    (RunView { phase: Phase::Failed, ..pre }, ActionView::Finish(Err(error)))
}

/// An attempt failed: wait and try again while the policy grants it, else end the run.
pub open spec fn after_failure(pre: RunView, error: RunErrorView, pause: Phase) -> (
    RunView,
    ActionView,
) {
    match pre.policy.decision(pre.failures + 1, error.kind) {
        Decision::Retry { delay_millis } => (
            RunView { phase: pause, failures: pre.failures + 1, ..pre },
            ActionView::Sleep { millis: delay_millis },
        ),
        Decision::GiveUp => failed(pre, error),
    }
}

/// The source answered: stamp the records, sort them, and begin to write.
pub open spec fn after_fetch(pre: RunView, records: Seq<SpotPriceView>, ids: Seq<Seq<char>>) -> (
    RunView,
    ActionView,
) {
    if ids.len() < records.len() {
        failed(pre, protocol_error())
    } else {
        let stamped = stamp_each(records, ids, pre.source);
        let pending = new_records(pre.cursor, stamped);
        let document = state_to_write(pre.now, pre.cursor, stamped);
        let sorted = RunView {
            failures: 0,
            records: stamped,
            pending,
            written: 0,
            document,
            ..pre
        };
        if pending.len() == 0 {
            (RunView { phase: Phase::Succeeded, ..sorted }, ActionView::Finish(Ok(())))
        } else {
            (RunView { phase: Phase::Writing, ..sorted }, ActionView::Insert(pending[0]))
        }
    }
}

/// The sink confirmed a record: write the next, or persist the document after the last.
pub open spec fn after_insert(pre: RunView) -> (RunView, ActionView) {
    let written = pre.written + 1;
    if written == pre.pending.len() {
        (
            RunView { phase: Phase::Persisting, failures: 0, written, ..pre },
            ActionView::WriteState(pre.document->0),
        )
    } else {
        (
            RunView { phase: Phase::Writing, failures: 0, written, ..pre },
            ActionView::Insert(pre.pending[written as int]),
        )
    }
}

/// The cursor that the run takes from what the store answered: a failed read
/// counts as an empty store.
pub open spec fn loaded_cursor(loaded: Result<Option<StateView>, RunErrorView>) -> Option<
    Timestamp,
> {
    match loaded {
        Ok(Some(state)) => Some(state.last_from),
        _ => None,
    }
}

/// The transition of a run: its next value and the action it issues, given
/// the event and the identifiers at hand for newly fetched records.
pub open spec fn step(pre: RunView, event: EventView, ids: Seq<Seq<char>>) -> (RunView, ActionView) {
    match (pre.phase, event) {
        (Phase::Provisioning, EventView::SchemaReady(Ok(_))) => (
            RunView { phase: Phase::Loading, ..pre },
            ActionView::ReadState,
        ),
        (Phase::Provisioning, EventView::SchemaReady(Err(e))) => failed(pre, e),
        (Phase::Loading, EventView::StateLoaded(loaded)) => (
            RunView { phase: Phase::Fetching, failures: 0, cursor: loaded_cursor(loaded), ..pre },
            ActionView::Fetch,
        ),
        (Phase::Fetching, EventView::Fetched(Ok(records))) => after_fetch(pre, records, ids),
        (Phase::Fetching, EventView::Fetched(Err(e))) => after_failure(pre, e, Phase::FetchPause),
        (Phase::FetchPause, EventView::Waited) => (
            RunView { phase: Phase::Fetching, ..pre },
            ActionView::Fetch,
        ),
        (Phase::Writing, EventView::Inserted(Ok(_))) => after_insert(pre),
        (Phase::Writing, EventView::Inserted(Err(e))) => after_failure(pre, e, Phase::WritePause),
        (Phase::WritePause, EventView::Waited) => (
            RunView { phase: Phase::Writing, ..pre },
            ActionView::Insert(pre.pending[pre.written as int]),
        ),
        (Phase::Persisting, EventView::StateStored(Ok(_))) => (
            RunView { phase: Phase::Succeeded, ..pre },
            ActionView::Finish(Ok(())),
        ),
        (Phase::Persisting, EventView::StateStored(Err(e))) => failed(pre, e),
        _ => failed(pre, protocol_error()),
    }
}

/// Of no records none is new, and there is no document to persist.
pub proof fn lemma_nothing_to_sort(now: Timestamp, cursor: Option<Timestamp>)
    ensures
        new_records(cursor, Seq::empty()) == Seq::<SpotPriceView>::empty(),
        state_to_write(now, cursor, Seq::empty()) is None,
{
    reveal(Seq::filter);
}

/// How many identifiers an event takes: one for each record of a successful fetch.
pub open spec fn fetched_count(event: EventView) -> nat {
    match event {
        EventView::Fetched(Ok(records)) => records.len(),
        _ => 0,
    }
}

/// `issued` is `exact`, but that a wait may be shorter.
pub open spec fn with_jitter(exact: ActionView, issued: ActionView) -> bool {
    match exact {
        ActionView::Sleep { millis } => issued matches ActionView::Sleep { millis: shorter }
            && shorter <= millis,
        _ => issued == exact,
    }
}

/// One run in progress.
pub struct Run {
    now: Timestamp,
    source: String,
    policy: RetryPolicy,
    phase: Phase,
    failures: u32,
    cursor: Option<Timestamp>,
    records: Vec<SpotPrice>,
    pending: Vec<SpotPrice>,
    written: usize,
    document: Option<State>,
}

impl View for Run {
    type V = RunView;

    closed spec fn view(&self) -> RunView {
        RunView {
            now: self.now,
            source: self.source@,
            policy: self.policy,
            phase: self.phase,
            failures: self.failures as nat,
            cursor: self.cursor,
            records: views_of(self.records@),
            pending: views_of(self.pending@),
            written: self.written as nat,
            document: state_view(self.document),
        }
    }
}

impl Run {
    /// Begins a run at the instant `now`, for records tagged `source`.
    pub fn start(now: Timestamp, source: &str, policy: RetryPolicy) -> (started: (Run, Action))
        ensures
            started.0@ == initial(now, source@, policy),
            started.0@.wf(),
            started.1@ == ActionView::EnsureSchema,
    {
        let run = Run {
            now,
            source: String::from_str(source),
            policy,
            phase: Phase::Provisioning,
            failures: 0,
            cursor: None,
            records: Vec::new(),
            pending: Vec::new(),
            written: 0,
            document: None,
        };
        proof {
            assert(views_of(run.pending@) =~= Seq::empty());
            assert(views_of(run.records@) =~= Seq::empty());
            lemma_nothing_to_sort(now, None);
        }
        (run, Action::EnsureSchema)
    }

    pub fn phase(&self) -> (phase: Phase)
        ensures
            phase == self@.phase,
    {
        self.phase
    }

    /// The run is over: it issues no further action.
    pub fn is_finished(&self) -> (finished: bool)
        ensures
            finished == self@.is_finished(),
    {
        match self.phase {
            Phase::Succeeded => true,
            Phase::Failed => true,
            _ => false,
        }
    }

    fn fail(&mut self, error: RunError) -> (action: Action)
        requires
            old(self)@.wf(),
        ensures
            (final(self)@, action@) == failed(old(self)@, error@),
            final(self)@.wf(),
    {
        self.phase = Phase::Failed;
        Action::Finish(Err(error))
    }

    fn reject(&mut self) -> (action: Action)
        requires
            old(self)@.wf(),
        ensures
            (final(self)@, action@) == failed(old(self)@, protocol_error()),
            final(self)@.wf(),
    {
        self.fail(RunError::fatal("the event does not answer the action that the run issued"))
    }

    fn retry_or_fail(&mut self, error: RunError, pause: Phase) -> (action: Action)
        requires
            old(self)@.wf(),
            pause == Phase::FetchPause || (pause == Phase::WritePause && old(self)@.written < old(
                self,
            )@.pending.len()),
        ensures
            (final(self)@, action@) == after_failure(old(self)@, error@, pause),
            final(self)@.wf(),
    {
        let failures = self.failures + 1;
        match self.policy.decide(failures, error.kind) {
            Decision::Retry { delay_millis } => {
                self.phase = pause;
                self.failures = failures;
                Action::Sleep { millis: delay_millis }
            },
            Decision::GiveUp => self.fail(error),
        }
    }

    fn insert_next(&self) -> (action: Action)
        requires
            self@.written < self@.pending.len(),
        ensures
            action@ == ActionView::Insert(self@.pending[self@.written as int]),
    {
        Action::Insert(self.pending[self.written].clone())
    }

    fn sort_fetched(&mut self, records: Vec<SpotPrice>, ids: &Vec<String>) -> (action: Action)
        requires
            old(self)@.wf(),
        ensures
            (final(self)@, action@) == after_fetch(
                old(self)@,
                views_of(records@),
                texts_of(ids@),
            ),
            final(self)@.wf(),
    {
        if ids.len() < records.len() {
            return self.reject();
        }
        let stamped = stamp_all(&records, ids, self.source.as_str());
        let plan = plan_run(self.now, self.cursor, &stamped);
        self.records = stamped;
        self.pending = plan.writes;
        self.document = plan.state;
        self.written = 0;
        self.failures = 0;
        if self.pending.len() == 0 {
            self.phase = Phase::Succeeded;
            Action::Finish(Ok(()))
        } else {
            self.phase = Phase::Writing;
            self.insert_next()
        }
    }

    fn confirm_insert(&mut self) -> (action: Action)
        requires
            old(self)@.wf(),
            old(self)@.phase == Phase::Writing,
        ensures
            (final(self)@, action@) == after_insert(old(self)@),
            final(self)@.wf(),
    {
        let total = self.pending.len();
        assert(self@.pending.len() == total);
        self.written = self.written + 1;
        self.failures = 0;
        if self.written == total {
            self.phase = Phase::Persisting;
            match &self.document {
                Some(document) => Action::WriteState(document.clone()),
                None => Action::Finish(Ok(())),
            }
        } else {
            self.insert_next()
        }
    }

    /// Takes the answer to the pending action and issues the next one.
    /// `ids` are the identifiers for the records of a successful fetch, one
    /// for each record, in order; no other event uses them. An event that
    /// does not answer the pending action ends the run with a fatal failure.
    pub fn advance(&mut self, event: Event, ids: &Vec<String>) -> (action: Action)
        requires
            old(self)@.wf(),
        ensures
            (final(self)@, action@) == step(old(self)@, event@, texts_of(ids@)),
            final(self)@.wf(),
    {
        match event {
            Event::SchemaReady(outcome) => match self.phase {
                Phase::Provisioning => match outcome {
                    Ok(_) => {
                        self.phase = Phase::Loading;
                        Action::ReadState
                    },
                    Err(e) => self.fail(e),
                },
                _ => self.reject(),
            },
            Event::StateLoaded(loaded) => match self.phase {
                Phase::Loading => {
                    proof {
                        assert(self@.records =~= Seq::empty());
                        lemma_nothing_to_sort(self.now, self.cursor);
                    }
                    self.cursor = match loaded {
                        Ok(Some(state)) => Some(state.last_from),
                        _ => None,
                    };
                    proof {
                        assert(self@.records =~= Seq::empty());
                        lemma_nothing_to_sort(self.now, self.cursor);
                    }
                    self.phase = Phase::Fetching;
                    self.failures = 0;
                    Action::Fetch
                },
                _ => self.reject(),
            },
            Event::Fetched(fetched) => match self.phase {
                Phase::Fetching => match fetched {
                    Ok(records) => self.sort_fetched(records, ids),
                    Err(e) => self.retry_or_fail(e, Phase::FetchPause),
                },
                _ => self.reject(),
            },
            Event::Inserted(outcome) => match self.phase {
                Phase::Writing => match outcome {
                    Ok(_) => self.confirm_insert(),
                    Err(e) => self.retry_or_fail(e, Phase::WritePause),
                },
                _ => self.reject(),
            },
            Event::StateStored(outcome) => match self.phase {
                Phase::Persisting => match outcome {
                    Ok(_) => {
                        self.phase = Phase::Succeeded;
                        Action::Finish(Ok(()))
                    },
                    Err(e) => self.fail(e),
                },
                _ => self.reject(),
            },
            Event::Waited => match self.phase {
                Phase::FetchPause => {
                    self.phase = Phase::Fetching;
                    Action::Fetch
                },
                Phase::WritePause => {
                    self.phase = Phase::Writing;
                    self.insert_next()
                },
                _ => self.reject(),
            },
        }
    }
    /// Takes the answer to the pending action and issues the next one, as
    /// [`Run::advance`] does, with fresh random identifiers for newly fetched
    /// records and with jitter on every wait.
    pub fn handle(&mut self, event: Event) -> (action: Action)
        requires
            old(self)@.wf(),
        ensures
            final(self)@.wf(),
            exists|ids: Seq<Seq<char>>|
                {
                    &&& ids.len() == fetched_count(event@)
                    &&& are_identifiers(ids)
                    &&& final(self)@ == (#[trigger] step(old(self)@, event@, ids)).0
                    &&& with_jitter(step(old(self)@, event@, ids).1, action@)
                },
    {
        let count = match &event {
            Event::Fetched(Ok(records)) => records.len(),
            _ => 0,
        };
        let ids = fresh_identifiers(count);
        let ghost drawn = texts_of(ids@);
        let ghost before = self@;
        let ghost happened = event@;
        let exact = self.advance(event, &ids);
        let action = match exact {
            Action::Sleep { millis } => Action::Sleep { millis: jittered_delay(millis) },
            other => other,
        };
        proof {
            assert(drawn.len() == fetched_count(happened));
            assert(with_jitter(step(before, happened, drawn).1, action@));
        }
        action
    }
}

/// The transition keeps a run well-formed.
pub proof fn lemma_step_keeps_wf(pre: RunView, event: EventView, ids: Seq<Seq<char>>)
    requires
        pre.wf(),
    ensures
        step(pre, event, ids).0.wf(),
{
    if pre.phase == Phase::Loading {
        assert(pre.records =~= Seq::empty());
        lemma_nothing_to_sort(pre.now, pre.cursor);
        lemma_nothing_to_sort(pre.now, step(pre, event, ids).0.cursor);
    }
}

/// A run writes one record at a time, in the order of the new records: the
/// record of every insert is the first that the sink has not confirmed, and
/// the count of confirmed records grows by one with each confirmation and
/// in no other way.
pub proof fn lemma_writes_are_in_order(pre: RunView, event: EventView, ids: Seq<Seq<char>>)
    requires
        pre.wf(),
    ensures
        ({
            let (post, action) = step(pre, event, ids);
            &&& action matches ActionView::Insert(record) ==> post.written < post.pending.len()
                && record == post.pending[post.written as int]
            &&& (pre.phase == Phase::Writing && event matches EventView::Inserted(Ok(_)))
                ==> post.written == pre.written + 1 && post.pending == pre.pending
            &&& !(pre.phase == Phase::Writing && event matches EventView::Inserted(Ok(_))) && !(
            pre.phase == Phase::Fetching && event matches EventView::Fetched(Ok(_)))
                ==> post.written == pre.written && post.pending == pre.pending
        }),
{
}

/// Dedup, for the run: every record that the sink has confirmed is a
/// fetched record that is new; and once the run has succeeded, a fetched
/// record has been written if and only if it is new.
pub proof fn lemma_run_writes_what_is_new(run: RunView)
    requires
        run.wf(),
    ensures
        forall|k: int|
            0 <= k < run.confirmed().len() ==> run.records.contains(
                #[trigger] run.confirmed()[k],
            ) && is_new(run.cursor, run.confirmed()[k]),
        run.phase == Phase::Succeeded ==> run.confirmed() == new_records(
            run.cursor,
            run.records,
        ),
        run.phase == Phase::Succeeded ==> forall|i: int|
            0 <= i < run.records.len() ==> (run.confirmed().contains(#[trigger] run.records[i])
                <==> is_new(run.cursor, run.records[i])),
{
    lemma_written_iff_new(run.cursor, run.records);
    assert forall|k: int| 0 <= k < run.confirmed().len() implies run.records.contains(
        #[trigger] run.confirmed()[k],
    ) && is_new(run.cursor, run.confirmed()[k]) by {
        assert(run.confirmed()[k] == run.pending[k]);
        run.records.lemma_filter_pred(new_under(run.cursor), k);
    }
    if run.phase == Phase::Succeeded {
        assert(run.confirmed() =~= run.pending);
    }
}

/// A run succeeds without a write to the store if and only if no fetched
/// record is new; an empty answer of the source is such a run.
pub proof fn lemma_nothing_new_ends_the_run(pre: RunView, records: Seq<SpotPriceView>, ids: Seq<Seq<char>>)
    requires
        pre.wf(),
        pre.phase == Phase::Fetching,
        ids.len() >= records.len(),
    ensures
        ({
            let (post, action) = step(pre, EventView::Fetched(Ok(records)), ids);
            let stamped = stamp_each(records, ids, pre.source);
            &&& post.records == stamped
            &&& post.written == 0
            &&& action == ActionView::Finish(Ok(())) <==> new_records(pre.cursor, stamped).len()
                == 0
            &&& records.len() == 0 ==> action == ActionView::Finish(Ok(()))
            &&& action != ActionView::Finish(Ok(())) ==> action == ActionView::Insert(
                new_records(pre.cursor, stamped)[0],
            )
        }),
{
    let stamped = stamp_each(records, ids, pre.source);
    if records.len() == 0 {
        assert(stamped =~= Seq::empty());
        lemma_nothing_to_sort(pre.now, pre.cursor);
    }
}

/// Idempotence, for the run: after a run that succeeded, a second run
/// that finds the document of the first and fetches the same records, in
/// chronological order, ends at once and writes nothing.
pub proof fn lemma_rerun_finishes_at_once(
    now: Timestamp,
    previous: Option<StateView>,
    fetched: Seq<SpotPriceView>,
    first_ids: Seq<Seq<char>>,
    second: RunView,
    second_ids: Seq<Seq<char>>,
)
    requires
        chronological(fetched),
        second.wf(),
        second.phase == Phase::Fetching,
        second.cursor == cursor_of(
            state_after(now, previous, stamp_each(fetched, first_ids, second.source)),
        ),
        second_ids.len() >= fetched.len(),
    ensures
        step(second, EventView::Fetched(Ok(fetched)), second_ids).1 == ActionView::Finish(Ok(())),
        step(second, EventView::Fetched(Ok(fetched)), second_ids).0.phase == Phase::Succeeded,
        step(second, EventView::Fetched(Ok(fetched)), second_ids).0.document is None,
{
    lemma_second_run_writes_nothing(now, previous, fetched, first_ids, second_ids, second.source);
}

/// The progress document is written only after the last new record is
/// confirmed, and only if there was one: a run without new records leaves
/// the store untouched.
pub proof fn lemma_document_follows_last_write(pre: RunView, event: EventView, ids: Seq<Seq<char>>)
    requires
        pre.wf(),
    ensures
        ({
            let (post, action) = step(pre, event, ids);
            action matches ActionView::WriteState(document) ==> {
                &&& pre.phase == Phase::Writing
                &&& event matches EventView::Inserted(Ok(_))
                &&& post.written == post.pending.len()
                &&& post.pending.len() > 0
                &&& Some(document) == state_to_write(pre.now, pre.cursor, pre.records)
            }
        }),
{
}

/// A failure ends the run with the collaborator's error unchanged, unless
/// the policy grants another attempt; only a fetch or an insert is attempted
/// again, and only after a transient failure.
pub proof fn lemma_failure_is_surfaced(pre: RunView, error: RunErrorView, ids: Seq<Seq<char>>)
    requires
        pre.wf(),
    ensures
        pre.phase == Phase::Provisioning ==> step(pre, EventView::SchemaReady(Err(error)), ids).1
            == ActionView::Finish(Err(error)),
        pre.phase == Phase::Persisting ==> step(pre, EventView::StateStored(Err(error)), ids).1
            == ActionView::Finish(Err(error)),
        pre.phase == Phase::Fetching && !pre.policy.grants_retry(pre.failures + 1, error.kind)
            ==> step(pre, EventView::Fetched(Err(error)), ids).1 == ActionView::Finish(
            Err(error),
        ),
        pre.phase == Phase::Writing && !pre.policy.grants_retry(pre.failures + 1, error.kind)
            ==> step(pre, EventView::Inserted(Err(error)), ids).1 == ActionView::Finish(
            Err(error),
        ),
        pre.phase == Phase::Fetching && pre.policy.grants_retry(pre.failures + 1, error.kind)
            ==> step(pre, EventView::Fetched(Err(error)), ids).1 is Sleep,
        pre.phase == Phase::Writing && pre.policy.grants_retry(pre.failures + 1, error.kind)
            ==> step(pre, EventView::Inserted(Err(error)), ids).1 is Sleep,
{
}

/// A run that is over stays over: whatever arrives, it reports a failure and issues nothing else.
pub proof fn lemma_finished_run_stays_finished(pre: RunView, event: EventView, ids: Seq<Seq<char>>)
    requires
        pre.is_finished(),
    ensures
        step(pre, event, ids).0.phase == Phase::Failed,
        step(pre, event, ids).1 == ActionView::Finish(Err(protocol_error())),
{
}

} // verus!
