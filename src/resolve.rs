//! Symbol resolution: the absolute path under which generated code reaches a
//! crate, whether it is expanded inside that crate or in one that depends on it.

use vstd::prelude::*;
use crate::model::{ExpandError, SymbolPath};

verus! {

#[verifier::external_type_specification]
#[verifier::external_body]
pub struct ExCrateLookupError(proc_macro_crate::Error);

/// Where a crate was found in the dependencies of the crate being built.
pub enum FoundCrate {
    /// The crate being built is the searched crate itself.
    Itself,
    /// The searched crate is a dependency, known under this name.
    Name(String),
}

/// The name under which generated code refers to `crate_name`.
pub open spec fn found_name(crate_name: Seq<char>, found: FoundCrate) -> Seq<char> {
    match found {
        FoundCrate::Itself => crate_name,
        FoundCrate::Name(n) => n@,
    }
}

/// Relies on `proc_macro_crate::crate_name`, which reads the manifest of the
/// crate being built; what it finds depends on that file alone, so nothing is
/// stated of the result.
#[verifier::external_body]
fn lookup_crate(crate_name: &str) -> (r: Result<FoundCrate, proc_macro_crate::Error>) {
    match proc_macro_crate::crate_name(crate_name) {
        Ok(proc_macro_crate::FoundCrate::Itself) => Ok(FoundCrate::Itself),
        Ok(proc_macro_crate::FoundCrate::Name(name)) => Ok(FoundCrate::Name(name)),
        Err(e) => Err(e),
    }
}

/// The absolute path of a crate, given where it was found: the crate's own name
/// inside itself, and otherwise the name that the dependency was given.
pub fn resolve_crate_name(crate_name: &str, found_crate: FoundCrate) -> (r: SymbolPath)
    ensures
        r@ == seq![found_name(crate_name@, found_crate)],
{
    let ghost expected = found_name(crate_name@, found_crate);
    let name = match found_crate {
        FoundCrate::Itself => String::from_str(crate_name),
        FoundCrate::Name(n) => n,
    };
    let mut segments: Vec<String> = Vec::new();
    segments.push(name);
    let r = SymbolPath { segments };
    assert(r@ =~= seq![expected]);
    r
}

/// Looks `name` up among the dependencies of the crate being built and
/// resolves its absolute path; fails when it is not there.
pub fn crate_name(name: &str) -> (r: Result<SymbolPath, ExpandError>)
    ensures
        match r {
            Ok(p) => p@.len() == 1,
            Err(ExpandError::MissingDependency { crate_name: n }) => n@ == name@,
            Err(ExpandError::UnsupportedReceiver) => false,
        },
{
    match lookup_crate(name) {
        Ok(found) => Ok(resolve_crate_name(name, found)),
        Err(_) => Err(ExpandError::MissingDependency { crate_name: String::from_str(name) }),
    }
}

/// A crate expanded inside itself is reached by its own name, whatever name a
/// dependency on it would have given.
pub proof fn lemma_self_resolution(crate_name: Seq<char>)
    ensures
        found_name(crate_name, FoundCrate::Itself) == crate_name,
{
}

} // verus!
