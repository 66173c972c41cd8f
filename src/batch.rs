//! Reduction of a batch of files. Each location comes with what the parser
//! made of it: a descriptor, or the reason it could not produce one.
use vstd::prelude::*;

use crate::descriptor::FileDescriptor;
use crate::reduce::reduce_file;
use crate::schema::Proto;

verus! {

/// The parser could not produce a descriptor for `location`.
#[derive(Debug, Clone, PartialEq, Eq)]
pub struct ParseError {
    pub location: String,
    pub reason: String,
}

/// The outcome that one location of a batch must have: the reduced file
/// where it parsed, else a `ParseError` naming the location and the reason.
pub open spec fn outcome_of(
    location: String,
    parsed: Result<FileDescriptor, String>,
    r: Result<Proto, ParseError>,
) -> bool {
    match parsed {
        Ok(d) => r is Ok && r->Ok_0@ == reduce_file(d@),
        Err(reason) => r is Err && r->Err_0.location@ == location@ && r->Err_0.reason@ == reason@,
    }
}

/// Reduces the files of a batch, one outcome per location, in input order:
/// a location that failed to parse does not stop the others.
pub fn reduce_batch(locations: &Vec<String>, parsed: &Vec<Result<FileDescriptor, String>>) -> (r:
    Vec<Result<Proto, ParseError>>)
    requires
        locations@.len() == parsed@.len(),
    ensures
        r@.len() == parsed@.len(),
        forall|i: int| 0 <= i < r@.len() ==> outcome_of(locations@[i], parsed@[i], #[trigger] r@[i]),
{
    let mut out: Vec<Result<Proto, ParseError>> = Vec::new();
    let mut i: usize = 0;
    while i < parsed.len()
        invariant
            i <= parsed@.len(),
            locations@.len() == parsed@.len(),
            out@.len() == i,
            forall|j: int| 0 <= j < i ==> outcome_of(locations@[j], parsed@[j], #[trigger] out@[j]),
        decreases parsed@.len() - i,
    {
        let o = match &parsed[i] {
            Ok(d) => Ok(Proto::from_descriptor(d)),
            Err(e) => Err(ParseError { location: locations[i].clone(), reason: e.clone() }),
        };
        out.push(o);
        i += 1;
    }
    out
}

/// Reduces the files of a batch into one sequence in input order, or fails
/// on the first location that did not parse, naming it.
pub fn reduce_all(locations: &Vec<String>, parsed: &Vec<Result<FileDescriptor, String>>) -> (r:
    Result<Vec<Proto>, ParseError>)
    requires
        locations@.len() == parsed@.len(),
    ensures
        r is Ok <==> forall|i: int| 0 <= i < parsed@.len() ==> (#[trigger] parsed@[i]) is Ok,
        r is Ok ==> r->Ok_0@.len() == parsed@.len() && forall|i: int|
            0 <= i < parsed@.len() ==> (#[trigger] r->Ok_0@[i])@ == reduce_file(parsed@[i]->Ok_0@),
        r is Err ==> exists|k: int|
            0 <= k < parsed@.len() && (forall|j: int| 0 <= j < k ==> (#[trigger] parsed@[j]) is Ok)
                && (#[trigger] parsed@[k]) is Err && r->Err_0.location@ == locations@[k]@
                && r->Err_0.reason@ == parsed@[k]->Err_0@,
{
    let mut out: Vec<Proto> = Vec::new();
    let mut i: usize = 0;
    while i < parsed.len()
        invariant
            i <= parsed@.len(),
            locations@.len() == parsed@.len(),
            out@.len() == i,
            forall|j: int| 0 <= j < i ==> (#[trigger] parsed@[j]) is Ok,
            forall|j: int| 0 <= j < i ==> (#[trigger] out@[j])@ == reduce_file(parsed@[j]->Ok_0@),
        decreases parsed@.len() - i,
    {
        match &parsed[i] {
            Ok(d) => {
                out.push(Proto::from_descriptor(d));
            },
            Err(e) => {
                let err = ParseError { location: locations[i].clone(), reason: e.clone() };
                return Err(err);
            },
        }
        i += 1;
    }
    Ok(out)
}

} // verus!
