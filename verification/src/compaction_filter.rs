//! Compaction filters: what becomes of a record when a compaction meets it.
use vstd::prelude::*;

verus! {

/// Decision used in `CompactionFilter::filter`.
pub enum CompactionFilterDecision {
    /// The record will be kept instead of filtered.
    Keep,
    /// The record will be filtered, and a tombstone will be left.
    Remove,
    /// The record will be kept but the value will be replaced.
    ChangeValue(Vec<u8>),
    /// All records between [current, `until`) will be filtered without any tombstones left.
    RemoveAndSkipUntil(Vec<u8>),
}

/// The kind of entry that a compaction hands to a filter.
#[derive(Debug, Clone, Copy, PartialEq, Eq, Structural)]
pub enum CompactionFilterValueType {
    Value,
    MergeOperand,
    BlobIndex,
}

/// The decision as the engine's filter callback reports it.
#[derive(Debug, Clone, Copy, PartialEq, Eq, Structural)]
pub enum RawCompactionFilterDecision {
    Keep,
    Remove,
    ChangeValue,
    RemoveAndSkipUntil,
}

/// Why a thread is creating a table file.
#[derive(Debug, Clone, Copy, PartialEq, Eq, Structural)]
pub enum TableFileCreationReason {
    Flush,
    Compaction,
    Recovery,
    Misc,
}

/// The decision taken on an ordinary value from what the plain `filter`
/// reported: removed wins over a changed value.
pub open spec fn filter_outcome(removed: bool, value_changed: bool) -> RawCompactionFilterDecision {
    if removed {
        RawCompactionFilterDecision::Remove
    } else if value_changed {
        RawCompactionFilterDecision::ChangeValue
    } else {
        RawCompactionFilterDecision::Keep
    }
}

impl CompactionFilterDecision {
    /// The kind of the decision, without the bytes it carries.
    pub open spec fn kind(&self) -> RawCompactionFilterDecision {
        match self {
            CompactionFilterDecision::Keep => RawCompactionFilterDecision::Keep,
            CompactionFilterDecision::Remove => RawCompactionFilterDecision::Remove,
            CompactionFilterDecision::ChangeValue(_) => RawCompactionFilterDecision::ChangeValue,
            CompactionFilterDecision::RemoveAndSkipUntil(_) => RawCompactionFilterDecision::RemoveAndSkipUntil,
        }
    }

    /// The replacement value a decision carries (empty unless it changes the value).
    pub open spec fn new_value(&self) -> Seq<u8> {
        match self {
            CompactionFilterDecision::ChangeValue(v) => v@,
            _ => Seq::empty(),
        }
    }

    /// The key up to which a decision skips (empty unless it skips).
    pub open spec fn skip_until(&self) -> Seq<u8> {
        match self {
            CompactionFilterDecision::RemoveAndSkipUntil(u) => u@,
            _ => Seq::empty(),
        }
    }
}

/// Turns what the plain `filter` reported into a decision: `Remove` when it
/// asked for removal, else `ChangeValue` with the new value when it changed
/// the value, else `Keep`.
pub fn filter_decision(removed: bool, value_changed: bool, new_value: Vec<u8>) -> (d: CompactionFilterDecision)
    ensures
        d.kind() == filter_outcome(removed, value_changed),
        d.kind() == RawCompactionFilterDecision::ChangeValue ==> d.new_value() == new_value@,
{
    if removed {
        CompactionFilterDecision::Remove
    } else if value_changed {
        CompactionFilterDecision::ChangeValue(new_value)
    } else {
        CompactionFilterDecision::Keep
    }
}

/// What the engine's filter callback reports for a decision: its kind, the
/// bytes of the new value and the bytes of the key to skip to; the byte
/// strings not used by the kind are empty.
pub fn raw_decision(d: CompactionFilterDecision) -> (r: (RawCompactionFilterDecision, Vec<u8>, Vec<u8>))
    ensures
        r.0 == d.kind(),
        r.1@ == d.new_value(),
        r.2@ == d.skip_until(),
{
    match d {
        CompactionFilterDecision::Keep => (RawCompactionFilterDecision::Keep, Vec::new(), Vec::new()),
        CompactionFilterDecision::Remove => (RawCompactionFilterDecision::Remove, Vec::new(), Vec::new()),
        CompactionFilterDecision::ChangeValue(v) => (RawCompactionFilterDecision::ChangeValue, v, Vec::new()),
        CompactionFilterDecision::RemoveAndSkipUntil(u) => (
            RawCompactionFilterDecision::RemoveAndSkipUntil,
            Vec::new(),
            u,
        ),
    }
}

/// `CompactionFilter` allows an application to modify/delete a key-value at
/// the time of compaction.
pub trait CompactionFilter {
    /// The compaction process invokes this
    /// method for kv that is being compacted. A return value
    /// of false indicates that the kv should be preserved in the
    /// output of this compaction run and a return value of true
    /// indicates that this key-value should be removed from the
    /// output of the compaction. The application can inspect
    /// the existing value of the key and make decision based on it.
    fn filter(
        &mut self,
        _level: usize,
        _key: &[u8],
        _value: &[u8],
        _new_value: &mut Vec<u8>,
        _value_changed: &mut bool,
    ) -> bool {
        false
    }

    /// This method will overwrite `filter` if a `CompactionFilter` implements both of them.
    /// Merge operands and blob indexes are always kept.
    fn featured_filter(
        &mut self,
        level: usize,
        key: &[u8],
        _seqno: u64,
        value: &[u8],
        value_type: CompactionFilterValueType,
    ) -> (d: CompactionFilterDecision)
        default_ensures
            value_type != CompactionFilterValueType::Value ==> d.kind() == RawCompactionFilterDecision::Keep,
    {
        match value_type {
            CompactionFilterValueType::Value => {
                let mut new_value: Vec<u8> = Vec::new();
                let mut value_changed = false;
                let removed = self.filter(level, key, value, &mut new_value, &mut value_changed);
                filter_decision(removed, value_changed, new_value)
            },
            _ => CompactionFilterDecision::Keep,
        }
    }
}

/// What a compaction tells a filter factory about itself.
pub struct CompactionFilterContext {
    pub full_compaction: bool,
    pub manual_compaction: bool,
    pub bottommost_level: bool,
    pub file_numbers: Vec<u64>,
    pub start_key: Vec<u8>,
    pub end_key: Vec<u8>,
}

impl CompactionFilterContext {
    /// Whether the compaction covers every file.
    pub fn is_full_compaction(&self) -> (b: bool)
        ensures
            b == self.full_compaction,
    {
        self.full_compaction
    }

    /// Whether the compaction was asked for by the application.
    pub fn is_manual_compaction(&self) -> (b: bool)
        ensures
            b == self.manual_compaction,
    {
        self.manual_compaction
    }

    /// Whether the compaction writes the bottommost level.
    pub fn is_bottommost_level(&self) -> (b: bool)
        ensures
            b == self.bottommost_level,
    {
        self.bottommost_level
    }

    /// The numbers of the files compacted.
    pub fn file_numbers(&self) -> (r: &[u64])
        ensures
            r@ == self.file_numbers@,
    {
        self.file_numbers.as_slice()
    }

    /// The smallest key the compaction meets.
    pub fn start_key(&self) -> (r: &[u8])
        ensures
            r@ == self.start_key@,
    {
        self.start_key.as_slice()
    }

    /// The largest key the compaction meets.
    pub fn end_key(&self) -> (r: &[u8])
        ensures
            r@ == self.end_key@,
    {
        self.end_key.as_slice()
    }
}

/// Whether a filter applies to table files created for `reason` unless a
/// factory says otherwise: only to those written by a compaction.
pub fn default_should_filter(reason: TableFileCreationReason) -> (b: bool)
    ensures
        b == (reason == TableFileCreationReason::Compaction),
{
    match reason {
        TableFileCreationReason::Compaction => true,
        _ => false,
    }
}

/// Makes the compaction filters of a column family, one per compaction.
pub trait CompactionFilterFactory {
    /// The filters this factory makes.
    type Filter: CompactionFilter;

    /// A filter for the compaction described by `context`.
    fn create_compaction_filter(&self, context: &CompactionFilterContext) -> Self::Filter;

    /// Returns whether a thread creating table files for the specified `reason`
    /// should have invoke `create_compaction_filter` and pass KVs through the returned
    /// filter.
    fn should_filter_table_file_creation(&self, reason: TableFileCreationReason) -> (b: bool)
        default_ensures
            b == (reason == TableFileCreationReason::Compaction),
    {
        // For compatibility, `CompactionFilter`s by default apply during compaction.
        default_should_filter(reason)
    }
}

} // verus!
