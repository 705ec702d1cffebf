//! The reference value store: the measurement that the operator expects of
//! each hardware family.

use vstd::prelude::*;
use crate::bytes::bytes_eq;
use crate::claims::{Claims, ClaimsView, ReferenceStatus, TeeKind};

verus! {

/// The expected measurement of one hardware family.
#[derive(Clone, Debug, PartialEq, Eq)]
pub struct ReferenceValue {
    pub tee: TeeKind,
    pub measurement: Vec<u8>,
}

impl View for ReferenceValue {
    type V = (TeeKind, Seq<u8>);

    open spec fn view(&self) -> (TeeKind, Seq<u8>) {
        (self.tee, self.measurement@)
    }
}

/// The reference values on record. Where a family is listed twice, the
/// earlier entry counts.
#[derive(Clone, Debug, PartialEq, Eq)]
pub struct ReferenceStore {
    pub values: Vec<ReferenceValue>,
}

impl View for ReferenceStore {
    type V = Seq<(TeeKind, Seq<u8>)>;

    open spec fn view(&self) -> Seq<(TeeKind, Seq<u8>)> {
        self.values@.map_values(|v: ReferenceValue| v@)
    }
}

/// The measurement of the first entry for `tee` at or after `from`.
pub open spec fn lookup_from(values: Seq<(TeeKind, Seq<u8>)>, tee: TeeKind, from: int) -> Option<
    Seq<u8>,
>
    decreases values.len() - from,
{
    if from < 0 || from >= values.len() {
        None
    } else if values[from].0 == tee {
        Some(values[from].1)
    } else {
        lookup_from(values, tee, from + 1)
    }
}

/// The reference value on record for `tee`, if any.
pub open spec fn reference_for(values: Seq<(TeeKind, Seq<u8>)>, tee: TeeKind) -> Option<Seq<u8>> {
    lookup_from(values, tee, 0)
}

/// How a measurement compares with what is on record.
pub open spec fn status_of(expected: Option<Seq<u8>>, measurement: Seq<u8>) -> ReferenceStatus {
    match expected {
        None => ReferenceStatus::Unknown,
        Some(m) => if m == measurement {
            ReferenceStatus::Matched
        } else {
            ReferenceStatus::Mismatched
        },
    }
}

/// The claims with the outcome of the comparison merged in.
pub open spec fn appraised(claims: ClaimsView, values: Seq<(TeeKind, Seq<u8>)>) -> ClaimsView {
    ClaimsView {
        reference: status_of(reference_for(values, claims.tee), claims.measurement),
        ..claims
    }
}

/// The view of an optional borrowed measurement.
pub open spec fn measurement_view(m: Option<&Vec<u8>>) -> Option<Seq<u8>> {
    match m {
        Some(v) => Some(v@),
        None => None,
    }
}

impl ReferenceStore {
    /// The reference value on record for a hardware family. That none is
    /// on record is an answer, not a failure.
    pub fn lookup(&self, tee: TeeKind) -> (found: Option<&Vec<u8>>)
        ensures
            measurement_view(found) == reference_for(self@, tee),
    {
        let mut i: usize = 0;
        while i < self.values.len()
            invariant
                i <= self.values.len(),
                reference_for(self@, tee) == lookup_from(self@, tee, i as int),
            decreases self.values.len() - i,
        {
            if self.values[i].tee == tee {
                return Some(&self.values[i].measurement);
            }
            i += 1;
        }
        None
    }

    /// Merges the comparison with the reference value into the claims.
    /// Nothing else in them changes.
    pub fn appraise(&self, claims: Claims) -> (merged: Claims)
        ensures
            merged@ == appraised(claims@, self@),
    {
        let reference = match self.lookup(claims.tee) {
            None => ReferenceStatus::Unknown,
            Some(m) => if bytes_eq(m, &claims.measurement) {
                ReferenceStatus::Matched
            } else {
                ReferenceStatus::Mismatched
            },
        };
        Claims {
            tee: claims.tee,
            measurement: claims.measurement,
            entries: claims.entries,
            reference,
        }
    }
}

} // verus!
