use crate::client::EsClient;
use crate::ConfigurationError;
use std::sync::Arc;
use vstd::arithmetic::div_mod::{lemma_fundamental_div_mod, lemma_mod_pos_bound};
use vstd::prelude::*;

verus! {

#[verifier::external_type_specification]
#[verifier::external_body]
pub struct ExValue(serde_json::Value);

/// Largest `from + size` that the backend serves for a windowed search.
pub const RESULT_WINDOW: usize = 10000;

/// What a `FillEsArg` says, as plain values.
pub ghost struct FillSettings {
    pub doc_index: Seq<char>,
    pub doc_type: Seq<char>,
    pub num_docs: nat,
    pub query: serde_json::Value,
    pub es_client: Arc<EsClient>,
}

/// Settings of one extraction source: where to search, how many documents
/// each page holds, the query to match, and the shared client.
pub struct FillEsArg {
    doc_index: &'static str,
    doc_type: &'static str,
    num_docs: usize,
    query: serde_json::Value,
    es_client: Arc<EsClient>,
}

impl View for FillEsArg {
    type V = FillSettings;

    closed spec fn view(&self) -> FillSettings {
        FillSettings {
            doc_index: self.doc_index@,
            doc_type: self.doc_type@,
            num_docs: self.num_docs as nat,
            query: self.query,
            es_client: self.es_client,
        }
    }
}

impl FillEsArg {
    /// Returns the settings of a source that searches `doc_index` / `doc_type`
    /// for `query`, `num_docs` documents per page, through `es_client`.
    pub fn new(
        doc_index: &'static str,
        doc_type: &'static str,
        num_docs: usize,
        query: serde_json::Value,
        es_client: Arc<EsClient>,
    ) -> (r: FillEsArg)
        ensures
            r@ == (FillSettings {
                doc_index: doc_index@,
                doc_type: doc_type@,
                num_docs: num_docs as nat,
                query,
                es_client,
            }),
    {
        FillEsArg { doc_index, doc_type, num_docs, query, es_client }
    }

    pub fn doc_index(&self) -> (r: &'static str)
        ensures
            r@ == self@.doc_index,
    {
        self.doc_index
    }

    pub fn doc_type(&self) -> (r: &'static str)
        ensures
            r@ == self@.doc_type,
    {
        self.doc_type
    }

    pub fn num_docs(&self) -> (r: usize)
        ensures
            r as nat == self@.num_docs,
    {
        self.num_docs
    }

    /// The query that every page of the run matches documents against.
    pub fn query(&self) -> (r: &serde_json::Value)
        ensures
            *r == self@.query,
    {
        &self.query
    }

    pub fn es_client(&self) -> (r: &Arc<EsClient>)
        ensures
            *r == self@.es_client,
    {
        &self.es_client
    }

    /// A pager for one run over this source, in its first state.
    pub fn pager(&self) -> (r: Pager)
        ensures
            r.wf(),
            r@ == initial(self@.num_docs),
    {
        Pager::new(self.num_docs)
    }
}

/// The settings an extraction stage was given, or
/// `ConfigurationError::MissingArgument` when it was given none; in that case
/// no search may be issued.
pub fn fill_settings(params: Option<&FillEsArg>) -> (r: Result<&FillEsArg, ConfigurationError>)
    ensures
        params is None <==> r == Err::<&FillEsArg, ConfigurationError>(
            ConfigurationError::MissingArgument,
        ),
        params is Some ==> r == Ok::<&FillEsArg, ConfigurationError>(params->0),
{
    match params {
        Some(p) => Ok(p),
        None => Err(ConfigurationError::MissingArgument),
    }
}

/// Builder of the extraction stage; see `FillEsArg` for its settings.
pub struct FillEsTea {}

/// Where an extraction run stands.
#[derive(Clone, Copy, Debug, PartialEq, Eq, Structural)]
pub enum Phase {
    /// Nothing has been asked of the backend yet.
    Idle,
    /// A windowed search at the cursor is outstanding.
    FetchingPage,
    /// A non-empty page is being handed to the pipeline.
    Submitting,
    /// The run is over: an empty page came back, or the next window would
    /// pass the backend's ceiling.
    Done,
    /// A page could not be fetched; the run is over and the error is the caller's.
    Failed,
}

/// What happened since the last step.
#[derive(Clone, Copy, Debug, PartialEq, Eq, Structural)]
pub enum Event {
    /// The run begins.
    Start,
    /// The outstanding search came back with `hits` documents.
    Page { hits: usize },
    /// The page was handed to the pipeline.
    Submitted,
    /// The outstanding search failed in transport or was rejected.
    FetchFailed,
}

/// What the caller does next.
#[derive(Clone, Copy, Debug, PartialEq, Eq, Structural)]
pub enum Step {
    /// Nothing yet: the run waits for `Event::Start`.
    Ready,
    /// Issue a search for `size` documents starting at offset `from`.
    Fetch { from: usize, size: usize },
    /// Hand the `count` documents just fetched to the pipeline.
    Submit { count: usize },
    /// Stop: the run is complete.
    Finish,
    /// Stop: the run failed and the fetch error is propagated.
    Abort,
}

/// The abstract state of a run.
pub ghost struct PagerState {
    pub batch_size: nat,
    pub cursor: nat,
    pub pending: nat,
    pub phase: Phase,
}

/// State of the run that searches `batch_size` documents at a time.
pub open spec fn initial(batch_size: nat) -> PagerState {
    PagerState { batch_size, cursor: 0, pending: 0, phase: Phase::Idle }
}

/// Whether a search for `size` documents from `from` stays inside the result window.
pub open spec fn fits_window(from: nat, size: nat) -> bool {
    from + size <= RESULT_WINDOW
}

/// The phase that follows once the cursor stands at `cursor`: a fetch there,
/// unless that window would pass the ceiling.
pub open spec fn fetch_or_done(batch_size: nat, cursor: nat) -> Phase {
    if fits_window(cursor, batch_size) {
        Phase::FetchingPage
    } else {
        Phase::Done
    }
}

pub open spec fn on_start(s: PagerState) -> PagerState {
    PagerState { cursor: 0, pending: 0, phase: fetch_or_done(s.batch_size, 0), ..s }
}

pub open spec fn on_page(s: PagerState, hits: nat) -> PagerState {
    if hits == 0 {
        PagerState { phase: Phase::Done, ..s }
    } else {
        PagerState { pending: hits, phase: Phase::Submitting, ..s }
    }
}

pub open spec fn on_submitted(s: PagerState) -> PagerState {
    let cursor = s.cursor + s.batch_size;
    PagerState { cursor, pending: 0, phase: fetch_or_done(s.batch_size, cursor), ..s }
}

pub open spec fn on_failure(s: PagerState) -> PagerState {
    PagerState { phase: Phase::Failed, ..s }
}

/// The state that follows `s` on `e`. An event that has no meaning in the
/// current phase changes nothing.
pub open spec fn next(s: PagerState, e: Event) -> PagerState {
    match (s.phase, e) {
        (Phase::Idle, Event::Start) => on_start(s),
        (Phase::FetchingPage, Event::Page { hits }) => on_page(s, hits as nat),
        (Phase::FetchingPage, Event::FetchFailed) => on_failure(s),
        (Phase::Submitting, Event::Submitted) => on_submitted(s),
        _ => s,
    }
}

/// What the caller is asked to do in state `s`.
pub open spec fn action(s: PagerState) -> Step {
    match s.phase {
        Phase::Idle => Step::Ready,
        Phase::FetchingPage => Step::Fetch { from: s.cursor as usize, size: s.batch_size as usize },
        Phase::Submitting => Step::Submit { count: s.pending as usize },
        Phase::Done => Step::Finish,
        Phase::Failed => Step::Abort,
    }
}

/// The cursor stays inside the window, a fetch or a submission is never
/// pending for a window that passes the ceiling, and only non-empty pages are
/// submitted.
pub open spec fn valid(s: PagerState) -> bool {
    &&& s.cursor <= RESULT_WINDOW
    &&& (s.phase == Phase::FetchingPage || s.phase == Phase::Submitting) ==> fits_window(
        s.cursor,
        s.batch_size,
    )
    &&& s.phase == Phase::Idle ==> s.cursor == 0
    &&& s.phase == Phase::Submitting ==> s.pending > 0
}

/// The pagination loop of one extraction run, as a state machine: the caller
/// performs each `Step` and reports back with an `Event`.
pub struct Pager {
    batch_size: usize,
    cursor: usize,
    pending: usize,
    phase: Phase,
}

impl View for Pager {
    type V = PagerState;

    closed spec fn view(&self) -> PagerState {
        PagerState {
            batch_size: self.batch_size as nat,
            cursor: self.cursor as nat,
            pending: self.pending as nat,
            phase: self.phase,
        }
    }
}

impl Pager {
    pub open spec fn wf(&self) -> bool {
        valid(self@)
    }

    /// A run that fetches `batch_size` documents per page, with its cursor at 0.
    pub fn new(batch_size: usize) -> (r: Pager)
        ensures
            r.wf(),
            r@ == initial(batch_size as nat),
    {
        Pager { batch_size, cursor: 0, pending: 0, phase: Phase::Idle }
    }

    pub fn phase(&self) -> (r: Phase)
        ensures
            r == self@.phase,
    {
        self.phase
    }

    pub fn cursor(&self) -> (r: usize)
        ensures
            r as nat == self@.cursor,
    {
        self.cursor
    }

    /// The step asked for in the current state.
    pub fn step(&self) -> (r: Step)
        requires
            self.wf(),
        ensures
            r == action(self@),
    {
        match self.phase {
            Phase::Idle => Step::Ready,
            Phase::FetchingPage => Step::Fetch { from: self.cursor, size: self.batch_size },
            Phase::Submitting => Step::Submit { count: self.pending },
            Phase::Done => Step::Finish,
            Phase::Failed => Step::Abort,
        }
    }

    /// Takes in what happened and returns what to do next. A fetch that is
    /// asked for always lies inside the result window.
    pub fn advance(&mut self, e: Event) -> (r: Step)
        requires
            old(self).wf(),
        ensures
            final(self).wf(),
            final(self)@ == next(old(self)@, e),
            r == action(final(self)@),
            r matches Step::Fetch { from, size } ==> fits_window(from as nat, size as nat),
    {
        match (self.phase, e) {
            (Phase::Idle, Event::Start) => {
                self.cursor = 0;
                self.pending = 0;
                self.phase = if self.batch_size <= RESULT_WINDOW {
                    Phase::FetchingPage
                } else {
                    Phase::Done
                };
            },
            (Phase::FetchingPage, Event::Page { hits }) => {
                if hits == 0 {
                    self.phase = Phase::Done;
                } else {
                    self.pending = hits;
                    self.phase = Phase::Submitting;
                }
            },
            (Phase::FetchingPage, Event::FetchFailed) => {
                self.phase = Phase::Failed;
            },
            (Phase::Submitting, Event::Submitted) => {
                let cursor = self.cursor + self.batch_size;
                self.cursor = cursor;
                self.pending = 0;
                self.phase = if self.batch_size <= RESULT_WINDOW - cursor {
                    Phase::FetchingPage
                } else {
                    Phase::Done
                };
            },
            _ => {},
        }
        self.step()
    }
}

/// The documents that a search for `size` documents from offset `from` returns
/// when the ordered matches of the query are `docs`.
pub open spec fn window<D>(docs: Seq<D>, from: nat, size: nat) -> Seq<D> {
    if from >= docs.len() {
        Seq::empty()
    } else if from + size >= docs.len() {
        docs.subrange(from as int, docs.len() as int)
    } else {
        docs.subrange(from as int, (from + size) as int)
    }
}

pub open spec fn run_measure<D>(s: PagerState, docs: Seq<D>) -> nat {
    if s.phase == Phase::Idle {
        docs.len() + 2
    } else if s.cursor <= docs.len() {
        (docs.len() + 1 - s.cursor) as nat
    } else {
        0
    }
}

/// The batches handed to the pipeline, in order, and the state the run ends
/// in, when the run in state `s` is driven to its end against a backend whose
/// ordered matches are `docs`: each fetch is answered with its window, and
/// each submission is reported done.
pub open spec fn run<D>(s: PagerState, docs: Seq<D>) -> (Seq<Seq<D>>, PagerState)
    decreases run_measure(s, docs),
{
    match s.phase {
        Phase::Idle => run(on_start(s), docs),
        Phase::FetchingPage => {
            let page = window(docs, s.cursor, s.batch_size);
            let fetched = on_page(s, page.len());
            if fetched.phase == Phase::Submitting {
                let (rest, last) = run(on_submitted(fetched), docs);
                (seq![page] + rest, last)
            } else {
                (Seq::empty(), fetched)
            }
        },
        _ => (Seq::empty(), s),
    }
}

/// Number of pages of `batch_size` documents that `total` documents fill.
pub open spec fn pages_for(total: nat, batch_size: nat) -> nat
    recommends
        batch_size > 0,
{
    ((total + batch_size - 1) / batch_size as int) as nat
}

proof fn lemma_pages_for_bounds(total: nat, b: nat)
    requires
        b > 0,
    ensures
        total <= pages_for(total, b) * b,
        pages_for(total, b) * b < total + b,
{
    let x = total + b - 1;
    lemma_fundamental_div_mod(x, b as int);
    lemma_mod_pos_bound(x, b as int);
    assert(b * (x / b as int) == (x / b as int) * b) by (nonlinear_arith);
}

proof fn lemma_run_from_page<D>(s: PagerState, docs: Seq<D>, k: nat)
    requires
        s.phase == Phase::FetchingPage,
        s.batch_size > 0,
        s.cursor == k * s.batch_size,
        fits_window(s.cursor, s.batch_size),
        pages_for(docs.len(), s.batch_size) * s.batch_size <= RESULT_WINDOW,
        k <= pages_for(docs.len(), s.batch_size),
    ensures
        run(s, docs).0.len() + k == pages_for(docs.len(), s.batch_size),
        run(s, docs).1.cursor == pages_for(docs.len(), s.batch_size) * s.batch_size,
        run(s, docs).1.phase == Phase::Done,
        s.cursor <= docs.len() ==> run(s, docs).0.flatten() == docs.subrange(
            s.cursor as int,
            docs.len() as int,
        ),
    decreases pages_for(docs.len(), s.batch_size) - k,
{
    let b = s.batch_size;
    let q = pages_for(docs.len(), b);
    lemma_pages_for_bounds(docs.len(), b);
    if k == q {
        assert(window(docs, s.cursor, b).len() == 0);
        assert(run(s, docs) == (Seq::<Seq<D>>::empty(), on_page(s, 0)));
        if s.cursor <= docs.len() {
            assert(docs.subrange(s.cursor as int, docs.len() as int) =~= Seq::<D>::empty());
        }
    } else {
        assert(k * b + b <= q * b) by (nonlinear_arith)
            requires k < q, b > 0;
        assert(s.cursor < docs.len());
        let page = window(docs, s.cursor, b);
        assert(page.len() > 0);
        let fetched = on_page(s, page.len());
        let sub = on_submitted(fetched);
        assert(sub.cursor == (k + 1) * b) by (nonlinear_arith)
            requires sub.cursor == k * b + b;
        assert(run(s, docs) == (seq![page] + run(sub, docs).0, run(sub, docs).1));
        let rest = run(sub, docs).0;
        if sub.phase == Phase::FetchingPage {
            lemma_run_from_page(sub, docs, k + 1);
            if sub.cursor > docs.len() {
                assert(q <= k + 1) by (nonlinear_arith)
                    requires (k + 1) * b > docs.len(), q * b < docs.len() + b, b > 0;
            }
        } else {
            assert(run(sub, docs) == (Seq::<Seq<D>>::empty(), sub));
            assert(k + 1 == q) by (nonlinear_arith)
                requires k < q, (k + 1) * b + b > RESULT_WINDOW, q * b <= RESULT_WINDOW, b > 0;
        }
        assert((seq![page] + rest).first() == page);
        assert((seq![page] + rest).drop_first() =~= rest);
        if rest.len() == 0 {
            assert(rest.flatten() =~= Seq::<D>::empty());
        }
        if sub.cursor < docs.len() {
            assert(page =~= docs.subrange(s.cursor as int, sub.cursor as int));
        } else {
            assert(page =~= docs.subrange(s.cursor as int, docs.len() as int));
        }
        assert(run(s, docs).0.flatten() =~= docs.subrange(s.cursor as int, docs.len() as int));
    }
}

proof fn lemma_batches_nonempty<D>(s: PagerState, docs: Seq<D>)
    ensures
        forall|i: int| 0 <= i < run(s, docs).0.len() ==> #[trigger] run(s, docs).0[i].len() > 0,
    decreases run_measure(s, docs),
{
    match s.phase {
        Phase::Idle => {
            assert(run(s, docs) == run(on_start(s), docs));
            lemma_batches_nonempty(on_start(s), docs);
        },
        Phase::FetchingPage => {
            let page = window(docs, s.cursor, s.batch_size);
            let fetched = on_page(s, page.len());
            if fetched.phase == Phase::Submitting {
                let sub = on_submitted(fetched);
                lemma_batches_nonempty(sub, docs);
                let rest = run(sub, docs).0;
                assert forall|i: int| 0 <= i < run(s, docs).0.len() implies #[trigger] run(s, docs).0[i].len() > 0 by {
                    if i > 0 {
                        assert(run(s, docs).0[i] == rest[i - 1]);
                    }
                }
            }
        },
        _ => {},
    }
}

/// A run with pages of `batch_size > 0` over `total` matching documents hands
/// exactly `pages_for(total, batch_size)` non-empty batches to the pipeline and
/// ends done with its cursor at the least multiple of `batch_size` that is at
/// least `total`, provided that multiple lies inside the result window. The
/// batches, one after the other, are then exactly the matching documents in
/// the backend's order.
pub proof fn lemma_run_submits_every_page<D>(batch_size: nat, docs: Seq<D>)
    requires
        batch_size > 0,
        pages_for(docs.len(), batch_size) * batch_size <= RESULT_WINDOW,
    ensures
        run(initial(batch_size), docs).0.len() == pages_for(docs.len(), batch_size),
        run(initial(batch_size), docs).1.cursor == pages_for(docs.len(), batch_size) * batch_size,
        run(initial(batch_size), docs).1.phase == Phase::Done,
        forall|i: int| 0 <= i < run(initial(batch_size), docs).0.len()
            ==> #[trigger] run(initial(batch_size), docs).0[i].len() > 0,
        run(initial(batch_size), docs).0.flatten() == docs,
{
    let s = on_start(initial(batch_size));
    let q = pages_for(docs.len(), batch_size);
    lemma_pages_for_bounds(docs.len(), batch_size);
    assert(run(initial(batch_size), docs) == run(s, docs));
    if s.phase == Phase::FetchingPage {
        assert(s.cursor == 0 * batch_size);
        lemma_run_from_page(s, docs, 0);
        assert(docs.subrange(0, docs.len() as int) =~= docs);
    } else {
        assert(q == 0) by (nonlinear_arith)
            requires q * batch_size <= RESULT_WINDOW, batch_size > RESULT_WINDOW;
        assert(q * batch_size == 0);
        assert(run(s, docs) == (Seq::<Seq<D>>::empty(), s));
        assert(docs =~= Seq::<D>::empty());
    }
    lemma_batches_nonempty(initial(batch_size), docs);
}

/// A run against a backend with no matching documents hands nothing to the
/// pipeline and ends done, whatever the batch size.
pub proof fn lemma_empty_source<D>(batch_size: nat, docs: Seq<D>)
    requires
        docs.len() == 0,
    ensures
        run(initial(batch_size), docs).0.len() == 0,
        run(initial(batch_size), docs).1.phase == Phase::Done,
{
    let s = on_start(initial(batch_size));
    assert(run(initial(batch_size), docs) == run(s, docs));
    if s.phase == Phase::FetchingPage {
        assert(window(docs, s.cursor, s.batch_size).len() == 0);
        assert(run(s, docs) == (Seq::<Seq<D>>::empty(), on_page(s, 0)));
    } else {
        assert(run(s, docs) == (Seq::<Seq<D>>::empty(), s));
    }
}

/// Every state the transitions reach from a valid state is valid.
pub proof fn lemma_next_keeps_valid(s: PagerState, e: Event)
    requires
        valid(s),
    ensures
        valid(next(s, e)),
{
}

proof fn lemma_run_ends_from<D>(s: PagerState, docs: Seq<D>)
    requires
        valid(s),
        s.phase != Phase::Submitting,
        s.phase != Phase::Failed,
    ensures
        run(s, docs).1.phase == Phase::Done,
        valid(run(s, docs).1),
    decreases run_measure(s, docs),
{
    match s.phase {
        Phase::Idle => {
            assert(run(s, docs) == run(on_start(s), docs));
            lemma_run_ends_from(on_start(s), docs);
        },
        Phase::FetchingPage => {
            let page = window(docs, s.cursor, s.batch_size);
            let fetched = on_page(s, page.len());
            if fetched.phase == Phase::Submitting {
                let sub = on_submitted(fetched);
                assert(run(s, docs) == (seq![page] + run(sub, docs).0, run(sub, docs).1));
                lemma_run_ends_from(sub, docs);
            } else {
                assert(run(s, docs) == (Seq::<Seq<D>>::empty(), fetched));
            }
        },
        _ => {
            assert(run(s, docs) == (Seq::<Seq<D>>::empty(), s));
        },
    }
}

/// Whatever the batch size and the matching documents, a run whose fetches
/// all succeed ends done, with its cursor inside the result window: a window
/// that would pass the ceiling ends the run instead of being fetched.
pub proof fn lemma_run_ends_inside_window<D>(batch_size: nat, docs: Seq<D>)
    ensures
        run(initial(batch_size), docs).1.phase == Phase::Done,
        run(initial(batch_size), docs).1.cursor <= RESULT_WINDOW,
{
    lemma_run_ends_from(initial(batch_size), docs);
}

/// Two runs with the same batch size against the same matching documents hand
/// the same batches to the pipeline, in the same order, and end alike.
pub proof fn lemma_runs_repeat<D>(batch_size: nat, first: Seq<D>, second: Seq<D>)
    requires
        first == second,
    ensures
        run(initial(batch_size), first) == run(initial(batch_size), second),
{
}

} // verus!
