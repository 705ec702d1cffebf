//! Claims: the verified facts that evidence yields, and how they compare
//! with the operator's reference values.

use vstd::prelude::*;

verus! {

/// The hardware families whose evidence the broker knows by name.
#[derive(Clone, Copy, Debug, PartialEq, Eq, Structural)]
pub enum TeeKind {
    AzSnpVtpm,
    AzTdxVtpm,
    Sev,
    Sgx,
    Snp,
    Tdx,
    Cca,
    Csv,
    Se,
    Sample,
}

/// How the measurement in a set of claims compares with the reference
/// value on record for its hardware family.
#[derive(Clone, Copy, Debug, PartialEq, Eq, Structural)]
pub enum ReferenceStatus {
    /// No reference value is on record.
    Unknown,
    /// The measurement equals the reference value.
    Matched,
    /// The measurement differs from the reference value.
    Mismatched,
}

/// One named fact.
#[derive(Clone, Debug, PartialEq, Eq)]
pub struct Claim {
    pub name: Vec<u8>,
    pub value: Vec<u8>,
}

/// The facts extracted from one piece of evidence.
#[derive(Clone, Debug, PartialEq, Eq)]
pub struct Claims {
    pub tee: TeeKind,
    pub measurement: Vec<u8>,
    pub entries: Vec<Claim>,
    pub reference: ReferenceStatus,
}

/// The mathematical content of a set of claims.
pub struct ClaimsView {
    pub tee: TeeKind,
    pub measurement: Seq<u8>,
    pub entries: Seq<(Seq<u8>, Seq<u8>)>,
    pub reference: ReferenceStatus,
}

impl View for Claim {
    type V = (Seq<u8>, Seq<u8>);

    open spec fn view(&self) -> (Seq<u8>, Seq<u8>) {
        (self.name@, self.value@)
    }
}

/// The view of a list of named facts, each by its bytes.
pub open spec fn entries_view(entries: Vec<Claim>) -> Seq<(Seq<u8>, Seq<u8>)> {
    entries@.map_values(|c: Claim| c@)
}

impl View for Claims {
    type V = ClaimsView;

    open spec fn view(&self) -> ClaimsView {
        ClaimsView {
            tee: self.tee,
            measurement: self.measurement@,
            entries: entries_view(self.entries),
            reference: self.reference,
        }
    }
}

} // verus!
