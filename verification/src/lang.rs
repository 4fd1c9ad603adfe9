//! The closed set of lookup results and the branch dispatcher.

use vstd::prelude::*;
use crate::text::str_eq;

verus! {

/// The closed set of categories a key can resolve to: one tag per supported
/// language name, no state, no catch-all value.
#[derive(Debug, Clone, Copy, PartialEq, Eq)]
pub enum Lang {
    Rust,
    Java,
    JavaScript,
    Python,
    C,
    Cpp,
    Haskell,
    WebAssembly,
    Perl,
    Ruby,
}

/// The one fixed key-to-category mapping every resolver must realize:
/// each of the ten known keys resolves to its tag, every other string to
/// `None`. The keys are tested in declaration order of `Lang`; since they
/// are pairwise distinct, the order cannot change the result.
pub open spec fn spec_lookup(k: Seq<char>) -> Option<Lang> {
    if k == "rust"@ {
        Some(Lang::Rust)
    } else if k == "java"@ {
        Some(Lang::Java)
    } else if k == "javascript"@ {
        Some(Lang::JavaScript)
    } else if k == "python"@ {
        Some(Lang::Python)
    } else if k == "c"@ {
        Some(Lang::C)
    } else if k == "cpp"@ {
        Some(Lang::Cpp)
    } else if k == "haskell"@ {
        Some(Lang::Haskell)
    } else if k == "webassembly"@ {
        Some(Lang::WebAssembly)
    } else if k == "perl"@ {
        Some(Lang::Perl)
    } else if k == "ruby"@ {
        Some(Lang::Ruby)
    } else {
        None
    }
}

/// Branch dispatcher: resolves a key through an explicit equality chain,
/// testing the ten known keys in declaration order.
pub fn lookup_match(key: &str) -> (r: Option<Lang>)
    ensures
        r == spec_lookup(key@),
{
    if str_eq(key, "rust") {
        Some(Lang::Rust)
    } else if str_eq(key, "java") {
        Some(Lang::Java)
    } else if str_eq(key, "javascript") {
        Some(Lang::JavaScript)
    } else if str_eq(key, "python") {
        Some(Lang::Python)
    } else if str_eq(key, "c") {
        Some(Lang::C)
    } else if str_eq(key, "cpp") {
        Some(Lang::Cpp)
    } else if str_eq(key, "haskell") {
        Some(Lang::Haskell)
    } else if str_eq(key, "webassembly") {
        Some(Lang::WebAssembly)
    } else if str_eq(key, "perl") {
        Some(Lang::Perl)
    } else if str_eq(key, "ruby") {
        Some(Lang::Ruby)
    } else {
        None
    }
}

} // verus!
