use crate::client::EsClient;
use crate::ConfigurationError;
use std::sync::Arc;
use vstd::prelude::*;

verus! {

/// What a `PourEsArg` says, as plain values.
pub ghost struct PourSettings {
    pub doc_index: Seq<char>,
    pub doc_type: Seq<char>,
    pub es_client: Arc<EsClient>,
}

/// Settings of one load destination: the index and document type that
/// records are written to, and the shared client.
pub struct PourEsArg {
    doc_index: &'static str,
    doc_type: &'static str,
    es_client: Arc<EsClient>,
}

impl View for PourEsArg {
    type V = PourSettings;

    closed spec fn view(&self) -> PourSettings {
        PourSettings {
            doc_index: self.doc_index@,
            doc_type: self.doc_type@,
            es_client: self.es_client,
        }
    }
}

impl PourEsArg {
    /// Returns the settings of a destination that writes to `doc_index` /
    /// `doc_type` through `es_client`.
    pub fn new(doc_index: &'static str, doc_type: &'static str, es_client: Arc<EsClient>) -> (r:
        PourEsArg)
        ensures
            r@ == (PourSettings { doc_index: doc_index@, doc_type: doc_type@, es_client }),
    {
        PourEsArg { doc_index, doc_type, es_client }
    }

    pub fn doc_index(&self) -> (r: &'static str)
        ensures
            r@ == self@.doc_index,
    {
        self.doc_index
    }

    pub fn doc_type(&self) -> (r: &'static str)
        ensures
            r@ == self@.doc_type,
    {
        self.doc_type
    }

    pub fn es_client(&self) -> (r: &Arc<EsClient>)
        ensures
            *r == self@.es_client,
    {
        &self.es_client
    }
}

/// Builder of the load stage; see `PourEsArg` for its settings.
pub struct PourEsTea {}

/// The settings a load stage was given, or `ConfigurationError::MissingArgument`
/// when it was given none; in that case nothing may be sent to the backend.
pub fn load_settings(params: Option<&PourEsArg>) -> (r: Result<&PourEsArg, ConfigurationError>)
    ensures
        params is None <==> r == Err::<&PourEsArg, ConfigurationError>(
            ConfigurationError::MissingArgument,
        ),
        params is Some ==> r == Ok::<&PourEsArg, ConfigurationError>(params->0),
{
    match params {
        Some(p) => Ok(p),
        None => Err(ConfigurationError::MissingArgument),
    }
}

/// How the backend answered one bulk write.
pub enum BulkReply {
    /// The backend answered: `errors` is its top-level error flag and
    /// `item_ok[i]` whether the record at position `i` of the batch was written.
    Answered { errors: bool, item_ok: Vec<bool> },
    /// The backend rejected the request as a whole.
    Rejected,
    /// The request could not be sent, or its answer could not be read.
    Unsent,
}

/// The abstract form of a `BulkReply`.
pub ghost enum BulkReplyView {
    Answered { errors: bool, item_ok: Seq<bool> },
    Rejected,
    Unsent,
}

impl View for BulkReply {
    type V = BulkReplyView;

    open spec fn view(&self) -> BulkReplyView {
        match self {
            BulkReply::Answered { errors, item_ok } => BulkReplyView::Answered {
                errors: *errors,
                item_ok: item_ok@,
            },
            BulkReply::Rejected => BulkReplyView::Rejected,
            BulkReply::Unsent => BulkReplyView::Unsent,
        }
    }
}

/// One thing a load reports about a bulk write.
#[derive(Clone, Copy, Debug, PartialEq, Eq, Structural)]
pub enum LoadNote {
    /// The request as a whole was rejected by the backend.
    Rejected,
    /// The request could not be sent or its answer not read.
    Unsent,
    /// The backend flagged that some items failed.
    ItemsFailed,
    /// The record at `position` of the batch was not written.
    ItemFailed { position: usize },
}

/// One `ItemFailed` note for each item that was not written, in batch order.
pub open spec fn item_notes(item_ok: Seq<bool>) -> Seq<LoadNote>
    decreases item_ok.len(),
{
    if item_ok.len() == 0 {
        Seq::empty()
    } else {
        let before = item_notes(item_ok.drop_last());
        if item_ok.last() {
            before
        } else {
            before.push(LoadNote::ItemFailed { position: (item_ok.len() - 1) as usize })
        }
    }
}

/// What a load reports for `reply`: the rejection or the transport failure;
/// or, when the backend flags failed items, that flag followed by one note per
/// failed item; or nothing.
pub open spec fn report(reply: BulkReplyView) -> Seq<LoadNote> {
    match reply {
        BulkReplyView::Answered { errors, item_ok } => if errors {
            seq![LoadNote::ItemsFailed] + item_notes(item_ok)
        } else {
            Seq::empty()
        },
        BulkReplyView::Rejected => seq![LoadNote::Rejected],
        BulkReplyView::Unsent => seq![LoadNote::Unsent],
    }
}

/// Returns what is to be reported for `reply`.
pub fn load_report(reply: &BulkReply) -> (r: Vec<LoadNote>)
    ensures
        r@ == report(reply@),
{
    match reply {
        BulkReply::Answered { errors, item_ok } => {
            let mut notes: Vec<LoadNote> = Vec::new();
            if *errors {
                notes.push(LoadNote::ItemsFailed);
                let mut i: usize = 0;
                while i < item_ok.len()
                    invariant
                        i <= item_ok@.len(),
                        notes@ == seq![LoadNote::ItemsFailed] + item_notes(item_ok@.take(i as int)),
                    decreases item_ok@.len() - i,
                {
                    proof {
                        assert(item_ok@.take(i + 1).drop_last() == item_ok@.take(i as int));
                    }
                    if !item_ok[i] {
                        notes.push(LoadNote::ItemFailed { position: i });
                    }
                    i = i + 1;
                }
                proof {
                    assert(item_ok@.take(i as int) == item_ok@);
                }
            }
            notes
        },
        BulkReply::Rejected => vec![LoadNote::Rejected],
        BulkReply::Unsent => vec![LoadNote::Unsent],
    }
}

/// Each item that was not written is named by exactly one note, notes come in
/// batch order, and no item that was written is named.
pub proof fn lemma_each_failure_noted_once(item_ok: Seq<bool>)
    requires
        item_ok.len() <= usize::MAX,
    ensures
        forall|j: int|
            0 <= j < item_notes(item_ok).len() ==> {
                let note = #[trigger] item_notes(item_ok)[j];
                &&& note is ItemFailed
                &&& note->position < item_ok.len()
                &&& !item_ok[note->position as int]
            },
        forall|j1: int, j2: int|
            0 <= j1 < j2 < item_notes(item_ok).len() ==> (#[trigger] item_notes(item_ok)[j1])->position
                < (#[trigger] item_notes(item_ok)[j2])->position,
        forall|i: int|
            0 <= i < item_ok.len() && !item_ok[i] ==> exists|j: int|
                0 <= j < item_notes(item_ok).len() && #[trigger] item_notes(item_ok)[j]
                    == (LoadNote::ItemFailed { position: i as usize }),
    decreases item_ok.len(),
{
    if item_ok.len() > 0 {
        let prev = item_ok.drop_last();
        lemma_each_failure_noted_once(prev);
        let notes = item_notes(item_ok);
        let before = item_notes(prev);
        assert forall|i: int| 0 <= i < item_ok.len() && !item_ok[i] implies exists|j: int|
            0 <= j < notes.len() && #[trigger] notes[j] == (LoadNote::ItemFailed {
                position: i as usize,
            }) by {
            if i < item_ok.len() - 1 {
                assert(prev[i] == item_ok[i]);
                let j = choose|j: int|
                    0 <= j < before.len() && #[trigger] before[j] == (LoadNote::ItemFailed {
                        position: i as usize,
                    });
                assert(notes[j] == before[j]);
            } else {
                assert(notes[before.len() as int] == (LoadNote::ItemFailed {
                    position: i as usize,
                }));
            }
        }
    }
}

/// Ends a load: the batch goes back to the pipeline exactly as it came,
/// whatever the backend answered, together with what is to be reported.
pub fn finish_load<T>(batch: Vec<T>, reply: &BulkReply) -> (r: (Vec<T>, Vec<LoadNote>))
    ensures
        r.0 == batch,
        r.1@ == report(reply@),
{
    let notes = load_report(reply);
    (batch, notes)
}

} // verus!
