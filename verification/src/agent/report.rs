//! The usage report: what one execution contributes to it, and how a drained
//! batch is folded into the wire artifact.

use crate::duration::duration_nanos;
use crate::text::{clone_option, non_empty, non_empty_string, option_text};
use std::time::Duration;
use vstd::prelude::*;

verus! {

/// The record of one operation's outcome, as the host hands it to the agent.
#[derive(Debug, Clone, PartialEq, Eq)]
pub struct ExecutionReport {
    pub client_name: Option<String>,
    pub client_version: Option<String>,
    pub timestamp: u64,
    pub duration: Duration,
    pub ok: bool,
    pub errors: usize,
    pub operation_body: String,
    pub operation_name: Option<String>,
    pub persisted_document_hash: Option<String>,
}

/// The mathematical content of an [`ExecutionReport`].
pub struct ExecutionReportView {
    pub client_name: Option<Seq<char>>,
    pub client_version: Option<Seq<char>>,
    pub timestamp: u64,
    pub duration_nanos: nat,
    pub ok: bool,
    pub errors: usize,
    pub operation_body: Seq<char>,
    pub operation_name: Option<Seq<char>>,
    pub persisted_document_hash: Option<Seq<char>>,
}

impl View for ExecutionReport {
    type V = ExecutionReportView;

    open spec fn view(&self) -> ExecutionReportView {
        ExecutionReportView {
            client_name: option_text(self.client_name),
            client_version: option_text(self.client_version),
            timestamp: self.timestamp,
            duration_nanos: duration_nanos(self.duration),
            ok: self.ok,
            errors: self.errors,
            operation_body: self.operation_body@,
            operation_name: option_text(self.operation_name),
            persisted_document_hash: option_text(self.persisted_document_hash),
        }
    }
}

/// What the operation processor makes of one body against one schema: the
/// canonical text, its stable hash, and the schema coordinates it touches.
#[derive(Debug, Clone, PartialEq, Eq)]
pub struct NormalizedOperation {
    pub operation: String,
    pub hash: String,
    pub coordinates: Vec<String>,
}

/// The mathematical content of a [`NormalizedOperation`].
pub struct NormalizedOperationView {
    pub operation: Seq<char>,
    pub hash: Seq<char>,
    pub coordinates: Seq<Seq<char>>,
}

impl View for NormalizedOperation {
    type V = NormalizedOperationView;

    open spec fn view(&self) -> NormalizedOperationView {
        NormalizedOperationView {
            operation: self.operation@,
            hash: self.hash@,
            coordinates: self.coordinates.deep_view(),
        }
    }
}

/// What the processor answers for one report: a normalized operation, a skip
/// (`Ok(None)`, such as an introspection-only query), or an error text.
pub type Processed = Result<Option<NormalizedOperation>, String>;

/// The mathematical content of a [`Processed`].
pub type ProcessedView = Result<Option<NormalizedOperationView>, Seq<char>>;

/// The view of a processor's answer.
pub open spec fn processed_view(outcome: Processed) -> ProcessedView {
    match outcome {
        Ok(Some(n)) => Ok(Some(n@)),
        Ok(None) => Ok(None),
        Err(reason) => Err(reason@),
    }
}

/// Name and version of the client that ran an operation.
#[derive(Debug, Clone, PartialEq, Eq)]
pub struct ClientInfo {
    pub name: Option<String>,
    pub version: Option<String>,
}

/// The mathematical content of a [`ClientInfo`].
pub struct ClientInfoView {
    pub name: Option<Seq<char>>,
    pub version: Option<Seq<char>>,
}

impl View for ClientInfo {
    type V = ClientInfoView;

    open spec fn view(&self) -> ClientInfoView {
        ClientInfoView { name: option_text(self.name), version: option_text(self.version) }
    }
}

/// The optional metadata of a report entry.
#[derive(Debug, Clone, PartialEq, Eq)]
pub struct Metadata {
    pub client: Option<ClientInfo>,
}

/// The mathematical content of a [`Metadata`].
pub struct MetadataView {
    pub client: Option<ClientInfoView>,
}

impl View for Metadata {
    type V = MetadataView;

    open spec fn view(&self) -> MetadataView {
        MetadataView {
            client: match self.client {
                Some(c) => Some(c@),
                None => None,
            },
        }
    }
}

/// The execution summary of a report entry. The duration is in nanoseconds.
#[derive(Debug, Clone, Copy, PartialEq, Eq)]
pub struct Execution {
    pub ok: bool,
    pub duration: u128,
    pub errors_total: usize,
}

/// One entry of a report's `operations` list.
#[derive(Debug, Clone, PartialEq, Eq)]
pub struct Operation {
    pub operation_map_key: String,
    pub timestamp: u64,
    pub execution: Execution,
    pub metadata: Option<Metadata>,
    pub persisted_document_hash: Option<String>,
}

/// The mathematical content of an [`Operation`].
pub struct OperationView {
    pub operation_map_key: Seq<char>,
    pub timestamp: u64,
    pub execution: Execution,
    pub metadata: Option<MetadataView>,
    pub persisted_document_hash: Option<Seq<char>>,
}

impl View for Operation {
    type V = OperationView;

    open spec fn view(&self) -> OperationView {
        OperationView {
            operation_map_key: self.operation_map_key@,
            timestamp: self.timestamp,
            execution: self.execution,
            metadata: match self.metadata {
                Some(m) => Some(m@),
                None => None,
            },
            persisted_document_hash: option_text(self.persisted_document_hash),
        }
    }
}

/// What a report's `map` holds under one operation hash.
#[derive(Debug, Clone, PartialEq, Eq)]
pub struct OperationMapRecord {
    pub operation: String,
    pub operation_name: Option<String>,
    pub fields: Vec<String>,
}

/// The mathematical content of an [`OperationMapRecord`].
pub struct OperationMapRecordView {
    pub operation: Seq<char>,
    pub operation_name: Option<Seq<char>>,
    pub fields: Seq<Seq<char>>,
}

impl View for OperationMapRecord {
    type V = OperationMapRecordView;

    open spec fn view(&self) -> OperationMapRecordView {
        OperationMapRecordView {
            operation: self.operation@,
            operation_name: option_text(self.operation_name),
            fields: self.fields.deep_view(),
        }
    }
}

/// One key of a report's `map` with its record.
#[derive(Debug, Clone, PartialEq, Eq)]
pub struct MapEntry {
    pub key: String,
    pub record: OperationMapRecord,
}

/// The metadata of an entry: the client, if its name or its version is a
/// non-empty string, and nothing at all otherwise.
pub open spec fn metadata_of(
    client_name: Option<Seq<char>>,
    client_version: Option<Seq<char>>,
) -> Option<MetadataView> {
    if non_empty(client_name) is Some || non_empty(client_version) is Some {
        Some(
            MetadataView {
                client: Some(
                    ClientInfoView {
                        name: non_empty(client_name),
                        version: non_empty(client_version),
                    },
                ),
            },
        )
    } else {
        None
    }
}

/// The entry that an execution contributes to `operations` once its body has
/// been normalized.
pub open spec fn entry_of(op: ExecutionReportView, n: NormalizedOperationView) -> OperationView {
    OperationView {
        operation_map_key: n.hash,
        timestamp: op.timestamp,
        execution: Execution {
            ok: op.ok,
            duration: op.duration_nanos as u128,
            errors_total: op.errors,
        },
        metadata: metadata_of(op.client_name, op.client_version),
        persisted_document_hash: non_empty(op.persisted_document_hash),
    }
}

/// The record that an execution contributes to `map` when its hash is new.
pub open spec fn record_of(
    op: ExecutionReportView,
    n: NormalizedOperationView,
) -> OperationMapRecordView {
    OperationMapRecordView {
        operation: n.operation,
        operation_name: non_empty(op.operation_name),
        fields: n.coordinates,
    }
}

/// Why a report was left out of the batch.
#[derive(Debug, Clone, PartialEq, Eq)]
pub enum DropNotice {
    /// The processor failed on the operation: to be logged as a warning.
    Invalid { operation_name: String, reason: String },
    /// The processor asked to skip the operation: to be logged at debug level.
    Skipped,
}

/// The mathematical content of a [`DropNotice`].
pub enum DropNoticeView {
    Invalid { operation_name: Seq<char>, reason: Seq<char> },
    Skipped,
}

impl View for DropNotice {
    type V = DropNoticeView;

    open spec fn view(&self) -> DropNoticeView {
        match self {
            DropNotice::Invalid { operation_name, reason } => DropNoticeView::Invalid {
                operation_name: operation_name@,
                reason: reason@,
            },
            DropNotice::Skipped => DropNoticeView::Skipped,
        }
    }
}

/// The name under which a dropped operation is reported.
pub open spec fn reported_name(operation_name: Option<Seq<char>>) -> Seq<char> {
    match operation_name {
        Some(name) => name,
        None => "anonymous"@,
    }
}

/// The notice owed for one report, if it is dropped.
pub open spec fn notice_of(op: ExecutionReportView, outcome: ProcessedView) -> Option<
    DropNoticeView,
> {
    match outcome {
        Ok(Some(_)) => None,
        Ok(None) => Some(DropNoticeView::Skipped),
        Err(reason) => Some(
            DropNoticeView::Invalid { operation_name: reported_name(op.operation_name), reason },
        ),
    }
}

/// How loudly a notice is logged.
#[derive(Debug, Clone, Copy, PartialEq, Eq)]
pub enum NoticeLevel {
    Warn,
    Debug,
}

impl DropNoticeView {
    /// The line to log.
    pub open spec fn message(self) -> Seq<char> {
        match self {
            DropNoticeView::Invalid { operation_name, reason } => "Dropping operation \""@
                + operation_name + "\" (phase: PROCESSING): "@ + reason,
            DropNoticeView::Skipped =>
                "Dropping operation (phase: PROCESSING): probably introspection query"@,
        }
    }

    /// A failed operation is worth a warning, a skipped one a debug line.
    pub open spec fn level(self) -> NoticeLevel {
        match self {
            DropNoticeView::Invalid { .. } => NoticeLevel::Warn,
            DropNoticeView::Skipped => NoticeLevel::Debug,
        }
    }
}

impl DropNotice {
    /// The line to log.
    pub fn message(&self) -> (text: String)
        ensures
            text@ == self@.message(),
    {
        match self {
            DropNotice::Invalid { operation_name, reason } => {
                let mut text = String::from_str("Dropping operation \"");
                text.append(operation_name.as_str());
                text.append("\" (phase: PROCESSING): ");
                text.append(reason.as_str());
                text
            },
            DropNotice::Skipped => String::from_str(
                "Dropping operation (phase: PROCESSING): probably introspection query",
            ),
        }
    }

    /// The level at which the notice is logged.
    pub fn level(&self) -> (level: NoticeLevel)
        ensures
            level == self@.level(),
    {
        match self {
            DropNotice::Invalid { .. } => NoticeLevel::Warn,
            DropNotice::Skipped => NoticeLevel::Debug,
        }
    }
}

/// An entry carries metadata exactly when the client's name or version is a
/// non-empty string; the metadata then holds the client with what is known
/// of it. In particular an empty name with an empty version leaves the entry
/// without `metadata.client`, and so without `metadata`.
pub proof fn lemma_metadata_only_for_known_client(
    client_name: Option<Seq<char>>,
    client_version: Option<Seq<char>>,
)
    ensures
        metadata_of(client_name, client_version) is Some <==> (non_empty(client_name) is Some
            || non_empty(client_version) is Some),
        metadata_of(client_name, client_version) matches Some(metadata) ==> metadata.client
            == Some(
            ClientInfoView { name: non_empty(client_name), version: non_empty(client_version) },
        ),
        metadata_of(Some(Seq::<char>::empty()), Some(Seq::<char>::empty())) is None,
        metadata_of(None, None) is None,
{
}

/// The mathematical content of a [`Report`]. Its `size` is the length of
/// `operations`.
pub struct ReportView {
    pub map: Map<Seq<char>, OperationMapRecordView>,
    pub operations: Seq<OperationView>,
}

impl ReportView {
    /// The report of an empty batch.
    pub open spec fn empty() -> ReportView {
        ReportView { map: Map::empty(), operations: Seq::empty() }
    }

    /// The number of operations included.
    pub open spec fn size(self) -> nat {
        self.operations.len()
    }

    /// The report after one more execution, given the processor's answer.
    pub open spec fn record(self, op: ExecutionReportView, outcome: ProcessedView) -> ReportView {
        match outcome {
            Ok(Some(n)) => ReportView {
                map: if self.map.dom().contains(n.hash) {
                    self.map
                } else {
                    self.map.insert(n.hash, record_of(op, n))
                },
                operations: self.operations.push(entry_of(op, n)),
            },
            _ => self,
        }
    }

    /// Every entry refers to a key of the map.
    pub open spec fn keys_resolve(self) -> bool {
        forall|i: int|
            0 <= i < self.operations.len() ==> self.map.dom().contains(
                #[trigger] self.operations[i].operation_map_key,
            )
    }
}

/// The map that a list of keyed records stands for. Where a key occurs twice
/// the first record counts.
pub open spec fn entries_map(entries: Seq<MapEntry>) -> Map<Seq<char>, OperationMapRecordView>
    decreases entries.len(),
{
    if entries.len() == 0 {
        Map::empty()
    } else {
        let rest = entries_map(entries.drop_last());
        let last = entries.last();
        if rest.dom().contains(last.key@) {
            rest
        } else {
            rest.insert(last.key@, last.record@)
        }
    }
}

/// No key occurs twice.
pub open spec fn distinct_keys(entries: Seq<MapEntry>) -> bool {
    forall|i: int, j: int|
        0 <= i < j < entries.len() ==> (#[trigger] entries[i]).key@ != (#[trigger] entries[j]).key@
}

/// The keys of `entries_map` are the keys of the entries, and with distinct
/// keys each entry's record is the one stored under its key.
pub proof fn lemma_entries_map(entries: Seq<MapEntry>)
    ensures
        forall|k: Seq<char>|
            entries_map(entries).dom().contains(k) <==> exists|i: int|
                0 <= i < entries.len() && (#[trigger] entries[i]).key@ == k,
        distinct_keys(entries) ==> forall|i: int|
            0 <= i < entries.len() ==> entries_map(entries)[(#[trigger] entries[i]).key@]
                == entries[i].record@,
        entries_map(entries).dom().finite(),
    decreases entries.len(),
{
    if entries.len() > 0 {
        let front = entries.drop_last();
        let last = entries.last();
        lemma_entries_map(front);
        assert forall|k: Seq<char>|
            entries_map(entries).dom().contains(k) <==> exists|i: int|
                0 <= i < entries.len() && (#[trigger] entries[i]).key@ == k by {
            if entries_map(entries).dom().contains(k) {
                if entries_map(front).dom().contains(k) {
                    let i = choose|i: int| 0 <= i < front.len() && (#[trigger] front[i]).key@ == k;
                    assert(entries[i].key@ == k);
                } else {
                    assert(entries[entries.len() - 1].key@ == k);
                }
            }
            if exists|i: int| 0 <= i < entries.len() && (#[trigger] entries[i]).key@ == k {
                let i = choose|i: int| 0 <= i < entries.len() && (#[trigger] entries[i]).key@ == k;
                if i < front.len() {
                    assert(front[i].key@ == k);
                }
            }
        }
        if distinct_keys(entries) {
            assert(distinct_keys(front)) by {
                assert forall|i: int, j: int| 0 <= i < j < front.len() implies (
                #[trigger] front[i]).key@ != (#[trigger] front[j]).key@ by {
                    assert(entries[i].key@ != entries[j].key@);
                }
            }
            assert(!entries_map(front).dom().contains(last.key@)) by {
                if entries_map(front).dom().contains(last.key@) {
                    let i = choose|i: int|
                        0 <= i < front.len() && (#[trigger] front[i]).key@ == last.key@;
                    assert(entries[i].key@ != entries[entries.len() - 1].key@);
                }
            }
            assert forall|i: int| 0 <= i < entries.len() implies entries_map(entries)[(
            #[trigger] entries[i]).key@] == entries[i].record@ by {
                if i < front.len() {
                    assert(front[i].key@ == entries[i].key@);
                    assert(entries[i].key@ != entries[entries.len() - 1].key@);
                }
            }
        }
    }
}

/// The wire artifact built from one drained batch: the operations in drain
/// order, and one record for each distinct operation hash among them.
#[derive(Debug, Clone, PartialEq, Eq)]
pub struct Report {
    map: Vec<MapEntry>,
    operations: Vec<Operation>,
}

impl View for Report {
    type V = ReportView;

    closed spec fn view(&self) -> ReportView {
        ReportView { map: entries_map(self.map@), operations: operation_views(self.operations@) }
    }
}

/// The views of a list of entries.
pub open spec fn operation_views(operations: Seq<Operation>) -> Seq<OperationView> {
    Seq::new(operations.len(), |i: int| operations[i]@)
}

impl Report {
    /// The invariant of a report: no hash is recorded twice, and every entry
    /// of `operations` refers to a recorded hash.
    pub closed spec fn wf(&self) -> bool {
        &&& distinct_keys(self.map@)
        &&& self@.keys_resolve()
    }

    /// A well-formed report has a finite map of which every entry of
    /// `operations` holds a key.
    pub proof fn lemma_wf(&self)
        requires
            self.wf(),
        ensures
            self@.keys_resolve(),
            self@.map.dom().finite(),
    {
        lemma_entries_map(self.map@);
    }

    /// A report without operations.
    pub fn new() -> (report: Report)
        ensures
            report.wf(),
            report@ == ReportView::empty(),
    {
        let report = Report { map: Vec::new(), operations: Vec::new() };
        assert(report@.operations =~= Seq::empty());
        report
    }

    /// The number of operations included: the `size` of the wire format.
    pub fn size(&self) -> (n: usize)
        ensures
            n == self@.size(),
    {
        self.operations.len()
    }

    /// The position of `key` among the recorded hashes.
    fn position(&self, key: &String) -> (found: Option<usize>)
        ensures
            match found {
                Some(i) => i < self.map@.len() && self.map@[i as int].key@ == key@,
                None => !self@.map.dom().contains(key@),
            },
    {
        let mut i: usize = 0;
        while i < self.map.len()
            invariant
                i <= self.map@.len(),
                forall|j: int| 0 <= j < i ==> (#[trigger] self.map@[j]).key@ != key@,
            decreases self.map@.len() - i,
        {
            if self.map[i].key == *key {
                return Some(i);
            }
            i += 1;
        }
        proof {
            lemma_entries_map(self.map@);
        }
        None
    }

    /// Whether the map holds a record under `key`.
    pub fn contains_key(&self, key: &String) -> (found: bool)
        ensures
            found == self@.map.dom().contains(key@),
    {
        let found = self.position(key);
        proof {
            lemma_entries_map(self.map@);
        }
        found.is_some()
    }

    /// The record stored under `key`.
    pub fn get(&self, key: &String) -> (found: Option<&OperationMapRecord>)
        requires
            self.wf(),
        ensures
            match found {
                Some(record) => self@.map.dom().contains(key@) && self@.map[key@] == record@,
                None => !self@.map.dom().contains(key@),
            },
    {
        proof {
            lemma_entries_map(self.map@);
        }
        match self.position(key) {
            Some(i) => Some(&self.map[i].record),
            None => None,
        }
    }

    /// The keyed records, each hash once, in the order of first occurrence.
    pub fn map_entries(&self) -> (entries: &Vec<MapEntry>)
        ensures
            entries_map(entries@) == self@.map,
            self.wf() ==> distinct_keys(entries@),
    {
        &self.map
    }

    /// The entries in drain order.
    pub fn operations(&self) -> (operations: &Vec<Operation>)
        ensures
            operation_views(operations@) == self@.operations,
    {
        &self.operations
    }

    /// Takes one execution into the report, given what the processor made of
    /// its body. A normalized operation is appended to `operations`, and its
    /// record enters `map` unless its hash is there already. A skipped or
    /// failed one leaves the report as it is and yields the notice to log.
    pub fn record(&mut self, op: &ExecutionReport, outcome: Processed) -> (notice: Option<
        DropNotice,
    >)
        requires
            old(self).wf(),
        ensures
            final(self).wf(),
            final(self)@ == old(self)@.record(op@, processed_view(outcome)),
            match notice {
                Some(n) => notice_of(op@, processed_view(outcome)) == Some(n@),
                None => notice_of(op@, processed_view(outcome)) is None,
            },
    {
        match outcome {
            Err(reason) => {
                let operation_name = match &op.operation_name {
                    Some(name) => name.clone(),
                    None => String::from_str("anonymous"),
                };
                Some(DropNotice::Invalid { operation_name, reason })
            },
            Ok(None) => Some(DropNotice::Skipped),
            Ok(Some(normalized)) => {
                let ghost before = *self;
                let ghost n = normalized@;
                let nanos: u128 = op.duration.as_nanos();
                let client_name = non_empty_string(clone_option(&op.client_name));
                let client_version = non_empty_string(clone_option(&op.client_version));
                let metadata = if client_name.is_some() || client_version.is_some() {
                    Some(
                        Metadata {
                            client: Some(ClientInfo { name: client_name, version: client_version }),
                        },
                    )
                } else {
                    None
                };
                let entry = Operation {
                    operation_map_key: normalized.hash.clone(),
                    timestamp: op.timestamp,
                    execution: Execution { ok: op.ok, duration: nanos, errors_total: op.errors },
                    metadata,
                    persisted_document_hash: non_empty_string(
                        clone_option(&op.persisted_document_hash),
                    ),
                };
                assert(entry@ == entry_of(op@, n));
                let known = self.contains_key(&normalized.hash);
                proof {
                    lemma_entries_map(self.map@);
                }
                if !known {
                    let record = OperationMapRecord {
                        operation: normalized.operation,
                        operation_name: non_empty_string(clone_option(&op.operation_name)),
                        fields: normalized.coordinates,
                    };
                    assert(record@ == record_of(op@, n));
                    let key = normalized.hash;
                    let ghost fresh = MapEntry { key, record };
                    self.map.push(MapEntry { key, record });
                    proof {
                        assert(self.map@.drop_last() =~= before.map@);
                        assert(self.map@.last() == fresh);
                        assert(distinct_keys(self.map@)) by {
                            assert forall|i: int, j: int| 0 <= i < j < self.map@.len() implies (
                            #[trigger] self.map@[i]).key@ != (#[trigger] self.map@[j]).key@ by {
                                if j == self.map@.len() - 1 {
                                    assert(before.map@[i].key@ == self.map@[i].key@);
                                } else {
                                    assert(before.map@[i].key@ != before.map@[j].key@);
                                }
                            }
                        }
                    }
                }
                self.operations.push(entry);
                proof {
                    let after = *self;
                    let target = before@.record(op@, Ok(Some(n)));
                    assert(after@.map == target.map);
                    assert(after@.operations =~= target.operations);
                    assert(after@.keys_resolve()) by {
                        assert forall|i: int| 0 <= i < after@.operations.len() implies after@.map.dom().contains(
                        #[trigger] after@.operations[i].operation_map_key) by {
                            if i < before@.operations.len() {
                                assert(after@.operations[i] == before@.operations[i]);
                                assert(before@.map.dom().contains(
                                    before@.operations[i].operation_map_key,
                                ));
                            }
                        }
                    }
                }
                None
            },
        }
    }
}

} // verus!
