use vstd::prelude::*;

use crate::text::{starts_with_text, str_equal};

verus! {

/// Types whose values decide capability: only trusted writers may produce them.
#[derive(Clone, Copy, Debug, PartialEq, Eq, Hash, Structural)]
pub enum CriticalType {
    CapabilityState,
    CapabilityTransitionRequest,
    Decision,
    DecisionReason,
    PolicyStack,
    RoleSet,
    ReversalPolicyFlags,
    ReversalContext,
    RoHScore,
}

/// The functions allowed to write critical values: the kernel, the state
/// machine, and the ledger's append.
#[derive(Clone, Copy, Debug, PartialEq, Eq, Hash, Structural)]
pub enum TrustedWriter {
    ReversalConditionsEvaluate,
    CapabilityTransitionEvaluate,
    LedgerAppend,
}

/// Advisory modules that may read critical values but never write them.
#[derive(Clone, Copy, Debug, PartialEq, Eq, Hash, Structural)]
pub enum TrustedReader {
    EnvelopeModule,
    TreeOfLifeModule,
    AutoChurchModule,
    NeuroprintModule,
}

/// Language patterns banned around critical types.
#[derive(Clone, Copy, Debug, PartialEq, Eq, Hash, Structural)]
pub enum BannedPattern {
    UnsafeFn,
    RawPtr,
    FfiWrite,
    DynTraitCritical,
    GlobalMutable,
}

/// Diagnostic sources whose values count as tainted.
#[derive(Clone, Copy, Debug, PartialEq, Eq, Hash, Structural)]
pub enum DiagnosticSource {
    TreeOfLifeView,
    TreeOfLifeDiagnostics,
    NeuroprintView,
    AutoChurchDiagnostics,
    EnvelopeContextView,
}

/// The one place where diagnostics may influence a downgrade: by setting
/// `no_safer_alternative`.
#[derive(Clone, Copy, Debug, PartialEq, Eq, Hash, Structural)]
pub enum DiagnosticJoinPoint {
    ComputeNoSaferAlternative,
}

/// Path of each critical type in this crate.
pub open spec fn critical_type_path(t: CriticalType) -> Seq<char> {
    match t {
        CriticalType::CapabilityState => "crate::tier::CapabilityState"@,
        CriticalType::CapabilityTransitionRequest => "crate::transition::CapabilityTransition"@,
        CriticalType::Decision => "crate::kernel::Decision"@,
        CriticalType::DecisionReason => "crate::kernel::DecisionReason"@,
        CriticalType::PolicyStack => "crate::policy_stack::PolicyStack"@,
        CriticalType::RoleSet => "crate::roles::RoleSet"@,
        CriticalType::ReversalPolicyFlags => "crate::kernel::ReversalPolicyFlags"@,
        CriticalType::ReversalContext => "crate::kernel::ReversalContext"@,
        CriticalType::RoHScore => "crate::risk::RohScore"@,
    }
}

/// Path of each trusted writer in this crate.
pub open spec fn writer_path(w: TrustedWriter) -> Seq<char> {
    match w {
        TrustedWriter::ReversalConditionsEvaluate => "crate::kernel::evaluate_reversal"@,
        TrustedWriter::CapabilityTransitionEvaluate => "crate::transition::CapabilityTransition::validate"@,
        TrustedWriter::LedgerAppend => "crate::ledger::Ledger::append"@,
    }
}

/// Module prefix of each trusted reader.
pub open spec fn reader_prefix(r: TrustedReader) -> Seq<char> {
    match r {
        TrustedReader::EnvelopeModule => "crate::envelope"@,
        TrustedReader::TreeOfLifeModule => "crate::treeoflife"@,
        TrustedReader::AutoChurchModule => "crate::autochurch"@,
        TrustedReader::NeuroprintModule => "crate::neuroprint"@,
    }
}

/// Path of the diagnostic join point.
pub open spec fn join_point_path(j: DiagnosticJoinPoint) -> Seq<char> {
    match j {
        DiagnosticJoinPoint::ComputeNoSaferAlternative => "crate::diagnostics::compute_no_safer_alternative"@,
    }
}

impl CriticalType {
    /// Path of the type in this crate.
    pub fn path(self) -> (r: &'static str)
        ensures
            r@ == critical_type_path(self),
    {
        match self {
            CriticalType::CapabilityState => "crate::tier::CapabilityState",
            CriticalType::CapabilityTransitionRequest => "crate::transition::CapabilityTransition",
            CriticalType::Decision => "crate::kernel::Decision",
            CriticalType::DecisionReason => "crate::kernel::DecisionReason",
            CriticalType::PolicyStack => "crate::policy_stack::PolicyStack",
            CriticalType::RoleSet => "crate::roles::RoleSet",
            CriticalType::ReversalPolicyFlags => "crate::kernel::ReversalPolicyFlags",
            CriticalType::ReversalContext => "crate::kernel::ReversalContext",
            CriticalType::RoHScore => "crate::risk::RohScore",
        }
    }
}

impl TrustedWriter {
    /// Path of the writing function in this crate.
    pub fn path(self) -> (r: &'static str)
        ensures
            r@ == writer_path(self),
    {
        match self {
            TrustedWriter::ReversalConditionsEvaluate => "crate::kernel::evaluate_reversal",
            TrustedWriter::CapabilityTransitionEvaluate => "crate::transition::CapabilityTransition::validate",
            TrustedWriter::LedgerAppend => "crate::ledger::Ledger::append",
        }
    }
}

impl TrustedReader {
    /// Module prefix of the reader.
    pub fn prefix(self) -> (r: &'static str)
        ensures
            r@ == reader_prefix(self),
    {
        match self {
            TrustedReader::EnvelopeModule => "crate::envelope",
            TrustedReader::TreeOfLifeModule => "crate::treeoflife",
            TrustedReader::AutoChurchModule => "crate::autochurch",
            TrustedReader::NeuroprintModule => "crate::neuroprint",
        }
    }
}

impl DiagnosticJoinPoint {
    /// Path of the join-point function.
    pub fn path(self) -> (r: &'static str)
        ensures
            r@ == join_point_path(self),
    {
        match self {
            DiagnosticJoinPoint::ComputeNoSaferAlternative => "crate::diagnostics::compute_no_safer_alternative",
        }
    }
}

/// The taint table read by an out-of-band analyser: which types are critical,
/// who may write and read them, and where diagnostics may join.
#[derive(Clone, Debug)]
pub struct TaintPolicy {
    pub critical_types: Vec<CriticalType>,
    pub trusted_writers: Vec<TrustedWriter>,
    pub trusted_readers: Vec<TrustedReader>,
    pub banned_patterns: Vec<BannedPattern>,
    pub diagnostic_sources: Vec<DiagnosticSource>,
    pub diagnostic_join: DiagnosticJoinPoint,
}

impl TaintPolicy {
    /// The full table: every critical type, writer, reader, banned pattern and
    /// diagnostic source.
    pub fn new() -> (r: TaintPolicy)
        ensures
            r.critical_types@ == seq![
                CriticalType::CapabilityState,
                CriticalType::CapabilityTransitionRequest,
                CriticalType::Decision,
                CriticalType::DecisionReason,
                CriticalType::PolicyStack,
                CriticalType::RoleSet,
                CriticalType::ReversalPolicyFlags,
                CriticalType::ReversalContext,
                CriticalType::RoHScore,
            ],
            r.trusted_writers@ == seq![
                TrustedWriter::ReversalConditionsEvaluate,
                TrustedWriter::CapabilityTransitionEvaluate,
                TrustedWriter::LedgerAppend,
            ],
            r.trusted_readers@ == seq![
                TrustedReader::EnvelopeModule,
                TrustedReader::TreeOfLifeModule,
                TrustedReader::AutoChurchModule,
                TrustedReader::NeuroprintModule,
            ],
            r.banned_patterns@ == seq![
                BannedPattern::UnsafeFn,
                BannedPattern::RawPtr,
                BannedPattern::FfiWrite,
                BannedPattern::DynTraitCritical,
                BannedPattern::GlobalMutable,
            ],
            r.diagnostic_sources@ == seq![
                DiagnosticSource::TreeOfLifeView,
                DiagnosticSource::TreeOfLifeDiagnostics,
                DiagnosticSource::NeuroprintView,
                DiagnosticSource::AutoChurchDiagnostics,
                DiagnosticSource::EnvelopeContextView,
            ],
            r.diagnostic_join == DiagnosticJoinPoint::ComputeNoSaferAlternative,
    {
        let r = TaintPolicy {
            critical_types: vec![
                CriticalType::CapabilityState,
                CriticalType::CapabilityTransitionRequest,
                CriticalType::Decision,
                CriticalType::DecisionReason,
                CriticalType::PolicyStack,
                CriticalType::RoleSet,
                CriticalType::ReversalPolicyFlags,
                CriticalType::ReversalContext,
                CriticalType::RoHScore,
            ],
            trusted_writers: vec![
                TrustedWriter::ReversalConditionsEvaluate,
                TrustedWriter::CapabilityTransitionEvaluate,
                TrustedWriter::LedgerAppend,
            ],
            trusted_readers: vec![
                TrustedReader::EnvelopeModule,
                TrustedReader::TreeOfLifeModule,
                TrustedReader::AutoChurchModule,
                TrustedReader::NeuroprintModule,
            ],
            banned_patterns: vec![
                BannedPattern::UnsafeFn,
                BannedPattern::RawPtr,
                BannedPattern::FfiWrite,
                BannedPattern::DynTraitCritical,
                BannedPattern::GlobalMutable,
            ],
            diagnostic_sources: vec![
                DiagnosticSource::TreeOfLifeView,
                DiagnosticSource::TreeOfLifeDiagnostics,
                DiagnosticSource::NeuroprintView,
                DiagnosticSource::AutoChurchDiagnostics,
                DiagnosticSource::EnvelopeContextView,
            ],
            diagnostic_join: DiagnosticJoinPoint::ComputeNoSaferAlternative,
        };
        assert(r.critical_types@ =~= seq![
            CriticalType::CapabilityState,
            CriticalType::CapabilityTransitionRequest,
            CriticalType::Decision,
            CriticalType::DecisionReason,
            CriticalType::PolicyStack,
            CriticalType::RoleSet,
            CriticalType::ReversalPolicyFlags,
            CriticalType::ReversalContext,
            CriticalType::RoHScore,
        ]);
        assert(r.trusted_writers@ =~= seq![
            TrustedWriter::ReversalConditionsEvaluate,
            TrustedWriter::CapabilityTransitionEvaluate,
            TrustedWriter::LedgerAppend,
        ]);
        assert(r.trusted_readers@ =~= seq![
            TrustedReader::EnvelopeModule,
            TrustedReader::TreeOfLifeModule,
            TrustedReader::AutoChurchModule,
            TrustedReader::NeuroprintModule,
        ]);
        assert(r.banned_patterns@ =~= seq![
            BannedPattern::UnsafeFn,
            BannedPattern::RawPtr,
            BannedPattern::FfiWrite,
            BannedPattern::DynTraitCritical,
            BannedPattern::GlobalMutable,
        ]);
        assert(r.diagnostic_sources@ =~= seq![
            DiagnosticSource::TreeOfLifeView,
            DiagnosticSource::TreeOfLifeDiagnostics,
            DiagnosticSource::NeuroprintView,
            DiagnosticSource::AutoChurchDiagnostics,
            DiagnosticSource::EnvelopeContextView,
        ]);
        r
    }

    /// Whether `fq_type` is the path of one of the table's critical types.
    pub fn is_critical_type(&self, fq_type: &str) -> (r: bool)
        ensures
            r == exists|k: int|
                0 <= k < self.critical_types@.len() && critical_type_path(
                    #[trigger] self.critical_types@[k],
                ) == fq_type@,
    {
        let mut i: usize = 0;
        while i < self.critical_types.len()
            invariant
                i <= self.critical_types@.len(),
                forall|k: int|
                    0 <= k < i ==> critical_type_path(#[trigger] self.critical_types@[k]) != fq_type@,
            decreases self.critical_types@.len() - i,
        {
            if str_equal(self.critical_types[i].path(), fq_type) {
                return true;
            }
            i = i + 1;
        }
        false
    }

    /// Whether `fn_path` is the path of one of the table's trusted writers.
    pub fn is_trusted_writer(&self, fn_path: &str) -> (r: bool)
        ensures
            r == exists|k: int|
                0 <= k < self.trusted_writers@.len() && writer_path(
                    #[trigger] self.trusted_writers@[k],
                ) == fn_path@,
    {
        let mut i: usize = 0;
        while i < self.trusted_writers.len()
            invariant
                i <= self.trusted_writers@.len(),
                forall|k: int|
                    0 <= k < i ==> writer_path(#[trigger] self.trusted_writers@[k]) != fn_path@,
            decreases self.trusted_writers@.len() - i,
        {
            if str_equal(self.trusted_writers[i].path(), fn_path) {
                return true;
            }
            i = i + 1;
        }
        false
    }

    /// Whether `mod_path` lies under one of the trusted readers' modules.
    pub fn is_trusted_reader_module(&self, mod_path: &str) -> (r: bool)
        ensures
            r == exists|k: int|
                0 <= k < self.trusted_readers@.len() && {
                    let p = reader_prefix(#[trigger] self.trusted_readers@[k]);
                    p.len() <= mod_path@.len() && mod_path@.subrange(0, p.len() as int) == p
                },
    {
        let mut i: usize = 0;
        while i < self.trusted_readers.len()
            invariant
                i <= self.trusted_readers@.len(),
                forall|k: int|
                    0 <= k < i ==> !({
                        let p = reader_prefix(#[trigger] self.trusted_readers@[k]);
                        p.len() <= mod_path@.len() && mod_path@.subrange(0, p.len() as int)
                            == p
                    }),
            decreases self.trusted_readers@.len() - i,
        {
            if starts_with_text(mod_path, self.trusted_readers[i].prefix()) {
                return true;
            }
            i = i + 1;
        }
        false
    }

    /// Whether `fn_path` is the diagnostic join point.
    pub fn is_diag_join_point(&self, fn_path: &str) -> (r: bool)
        ensures
            r == (join_point_path(self.diagnostic_join) == fn_path@),
    {
        str_equal(self.diagnostic_join.path(), fn_path)
    }
}

} // verus!
