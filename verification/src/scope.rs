//! Scope validator, the engine's share: which validation a request needs, and
//! which bundled binary a sidecar name stands for.

use crate::error::{Error, ErrorModel};
use vstd::prelude::*;

verus! {

/// `Path::with_extension` with an empty extension: the program's path
/// without its file extension, as text. What counts as the extension follows
/// the platform's path syntax, so nothing is stated of the result.
#[verifier::external_body]
pub(crate) fn without_extension(program: &str) -> (stripped: String) {
    std::path::Path::new(program).with_extension("").display().to_string()
}

/// What the allowlist is asked to validate.
#[derive(Debug, Clone, PartialEq, Eq)]
pub enum ScopeRequest {
    /// A program named by the caller.
    Program { program: String },
    /// A bundled binary, found in the list of external binaries.
    Sidecar { program: String, sidecar: String },
}

/// The mathematical value of a [`ScopeRequest`].
pub enum ScopeRequestModel {
    Program { program: Seq<char> },
    Sidecar { program: Seq<char>, sidecar: Seq<char> },
}

impl View for ScopeRequest {
    type V = ScopeRequestModel;

    open spec fn view(&self) -> ScopeRequestModel {
        match self {
            ScopeRequest::Program { program } => ScopeRequestModel::Program { program: program@ },
            ScopeRequest::Sidecar { program, sidecar } => ScopeRequestModel::Sidecar {
                program: program@,
                sidecar: sidecar@,
            },
        }
    }
}

/// Whether a configured binary is the sidecar that a program names: it equals
/// the program's path as written, or that path without its extension.
pub open spec fn names_sidecar(bin: Seq<char>, literal: Seq<char>, stripped: Seq<char>) -> bool {
    bin == literal || bin == stripped
}

/// The first configured binary from index `start` on that the program names.
pub open spec fn sidecar_from(
    bins: Seq<String>,
    start: int,
    literal: Seq<char>,
    stripped: Seq<char>,
) -> Option<Seq<char>>
    decreases bins.len() - start,
{
    if start < 0 || start >= bins.len() {
        None
    } else if names_sidecar(bins[start]@, literal, stripped) {
        Some(bins[start]@)
    } else {
        sidecar_from(bins, start + 1, literal, stripped)
    }
}

/// The configured sidecar that a program names, if the list holds one.
pub open spec fn configured_sidecar(
    bins: Option<Seq<String>>,
    literal: Seq<char>,
    stripped: Seq<char>,
) -> Option<Seq<char>> {
    match bins {
        None => None,
        Some(b) => sidecar_from(b, 0, literal, stripped),
    }
}

/// The view of an optional list of binaries.
pub open spec fn bins_model(bins: Option<Vec<String>>) -> Option<Seq<String>> {
    match bins {
        None => None,
        Some(b) => Some(b@),
    }
}

/// Searches the configured external binaries for the first that equals the
/// program's path as written or without its extension.
pub fn find_sidecar(external_bin: &Option<Vec<String>>, literal: &String, stripped: &String) -> (r:
    Option<String>)
    ensures
        match r {
            Some(s) => configured_sidecar(bins_model(*external_bin), literal@, stripped@) == Some(
                s@,
            ),
            None => configured_sidecar(bins_model(*external_bin), literal@, stripped@) is None,
        },
{
    match external_bin {
        None => None,
        Some(bins) => {
            let mut i: usize = 0;
            while i < bins.len()
                invariant
                    i <= bins.len(),
                    bins_model(*external_bin) == Some(bins@),
                    sidecar_from(bins@, 0, literal@, stripped@) == sidecar_from(
                        bins@,
                        i as int,
                        literal@,
                        stripped@,
                    ),
                decreases bins.len() - i,
            {
                if bins[i] == *literal || bins[i] == *stripped {
                    return Some(bins[i].clone());
                }
                i += 1;
            }
            None
        },
    }
}

/// The validation that a request needs, where `stripped` is the program's
/// path without its extension: a sidecar must be configured, and is refused
/// before any rule is consulted where it is not.
pub open spec fn request_for(
    program: Seq<char>,
    sidecar: bool,
    bins: Option<Seq<String>>,
    stripped: Seq<char>,
) -> Result<ScopeRequestModel, ErrorModel> {
    if !sidecar {
        Ok(ScopeRequestModel::Program { program })
    } else {
        match configured_sidecar(bins, program, stripped) {
            Some(s) => Ok(ScopeRequestModel::Sidecar { program, sidecar: s }),
            None => Err(ErrorModel::SidecarNotAllowed(program)),
        }
    }
}

/// The view of a planned request.
pub open spec fn request_model(r: Result<ScopeRequest, Error>) -> Result<
    ScopeRequestModel,
    ErrorModel,
> {
    match r {
        Ok(request) => Ok(request@),
        Err(e) => Err(e@),
    }
}

/// Decides which validation a request needs, given the program's path without
/// its extension.
pub fn plan_scope_request(
    program: String,
    sidecar: bool,
    external_bin: &Option<Vec<String>>,
    stripped: &String,
) -> (r: Result<ScopeRequest, Error>)
    ensures
        request_model(r) == request_for(program@, sidecar, bins_model(*external_bin), stripped@),
{
    if sidecar {
        match find_sidecar(external_bin, &program, stripped) {
            Some(found) => Ok(ScopeRequest::Sidecar { program, sidecar: found }),
            None => Err(Error::SidecarNotAllowed(program)),
        }
    } else {
        Ok(ScopeRequest::Program { program })
    }
}

/// Decides which validation a request needs. The extension is stripped by the
/// platform's path rules; the contract holds for whatever they give.
pub fn scope_request(program: String, sidecar: bool, external_bin: &Option<Vec<String>>) -> (r:
    Result<ScopeRequest, Error>)
    ensures
        exists|stripped: Seq<char>|
            request_model(r) == #[trigger] request_for(
                program@,
                sidecar,
                bins_model(*external_bin),
                stripped,
            ),
        !sidecar ==> request_model(r) == Ok::<ScopeRequestModel, ErrorModel>(
            ScopeRequestModel::Program { program: program@ },
        ),
{
    let stripped = without_extension(program.as_str());
    plan_scope_request(program, sidecar, external_bin, &stripped)
}

/// A sidecar that matches no configured binary, neither as written nor
/// without its extension, is refused as not allowed.
pub proof fn lemma_unlisted_sidecar_refused(
    program: Seq<char>,
    bins: Option<Seq<String>>,
    stripped: Seq<char>,
)
    requires
        bins matches Some(b) ==> forall|i: int|
            0 <= i < b.len() ==> !names_sidecar(#[trigger] b[i]@, program, stripped),
    ensures
        request_for(program, true, bins, stripped) == Err::<ScopeRequestModel, ErrorModel>(
            ErrorModel::SidecarNotAllowed(program),
        ),
{
    if let Some(b) = bins {
        lemma_no_match_from(b, 0, program, stripped);
    }
}

/// Where no binary from `start` on is named, the search from there finds none.
proof fn lemma_no_match_from(bins: Seq<String>, start: int, literal: Seq<char>, stripped: Seq<char>)
    requires
        0 <= start,
        forall|i: int|
            start <= i < bins.len() ==> !names_sidecar(#[trigger] bins[i]@, literal, stripped),
    ensures
        sidecar_from(bins, start, literal, stripped) is None,
    decreases bins.len() - start,
{
    if start < bins.len() {
        lemma_no_match_from(bins, start + 1, literal, stripped);
    }
}

/// A sidecar whose name, as written, is among the configured binaries is
/// accepted for validation, whatever its path is without the extension.
pub proof fn lemma_listed_sidecar_found(
    program: Seq<char>,
    bins: Seq<String>,
    stripped: Seq<char>,
    at: int,
)
    requires
        0 <= at < bins.len(),
        bins[at]@ == program,
    ensures
        request_for(program, true, Some(bins), stripped) is Ok,
{
    lemma_match_from(bins, 0, at, program, stripped);
}

/// Where a binary at or after `start` is named, the search from there finds one.
proof fn lemma_match_from(
    bins: Seq<String>,
    start: int,
    at: int,
    literal: Seq<char>,
    stripped: Seq<char>,
)
    requires
        0 <= start <= at < bins.len(),
        names_sidecar(bins[at]@, literal, stripped),
    ensures
        sidecar_from(bins, start, literal, stripped) is Some,
    decreases at - start,
{
    if start < at && !names_sidecar(bins[start]@, literal, stripped) {
        lemma_match_from(bins, start + 1, at, literal, stripped);
    }
}

} // verus!
