//! The fixed benchmark workload — ten keys that resolve and three that do
//! not — and one full resolution pass over a key list for each strategy.

use vstd::prelude::*;
use crate::lang::{lookup_match, spec_lookup, Lang};
use crate::shared::{lookup_map_static, SharedTable};
use crate::table::{lookup_map_local, table_model, Table};

verus! {

/// The canonical workload: the ten known keys in declaration order of
/// `Lang`, then three keys absent from the table. Every strategy is driven
/// over this same sequence so the comparison stays fair.
pub open spec fn workload_model() -> Seq<Seq<char>> {
    seq![
        "rust"@,
        "java"@,
        "javascript"@,
        "python"@,
        "c"@,
        "cpp"@,
        "haskell"@,
        "webassembly"@,
        "perl"@,
        "ruby"@,
        "does_not_exists1"@,
        "does_not_exists2"@,
        "does_not_exists3"@,
    ]
}

/// Builds the workload key list. Read-only by convention: callers pass it
/// by shared reference to the resolution passes.
pub fn keys() -> (v: Vec<&'static str>)
    ensures
        v@.len() == 13,
        forall|i: int| 0 <= i < 13 ==> (#[trigger] v@[i])@ == workload_model()[i],
{
    let mut v: Vec<&'static str> = Vec::new();
    v.push("rust");
    v.push("java");
    v.push("javascript");
    v.push("python");
    v.push("c");
    v.push("cpp");
    v.push("haskell");
    v.push("webassembly");
    v.push("perl");
    v.push("ruby");
    v.push("does_not_exists1");
    v.push("does_not_exists2");
    v.push("does_not_exists3");
    v
}

/// One full pass of the branch dispatcher over a key list: the result at
/// each position is `spec_lookup` of the key at that position.
pub fn resolve_all_match(keys: &Vec<&str>) -> (r: Vec<Option<Lang>>)
    ensures
        r@.len() == keys@.len(),
        forall|i: int| 0 <= i < keys@.len() ==> #[trigger] r@[i] == spec_lookup(keys@[i]@),
{
    let n = keys.len();
    let mut r: Vec<Option<Lang>> = Vec::new();
    let mut i: usize = 0;
    while i < n
        invariant
            n == keys@.len(),
            i <= n,
            r@.len() == i,
            forall|j: int| 0 <= j < i ==> #[trigger] r@[j] == spec_lookup(keys@[j]@),
        decreases n - i,
    {
        r.push(lookup_match(keys[i]));
        i = i + 1;
    }
    r
}

/// One full pass over a key list through the process-wide table. Position
/// by position it returns exactly what `resolve_all_match` returns: the
/// contracts of all three passes pin every result to `spec_lookup`.
pub fn resolve_all_map_static(shared: &SharedTable, keys: &Vec<&str>) -> (r: Vec<Option<Lang>>)
    ensures
        r@.len() == keys@.len(),
        forall|i: int| 0 <= i < keys@.len() ==> #[trigger] r@[i] == spec_lookup(keys@[i]@),
{
    let n = keys.len();
    let mut r: Vec<Option<Lang>> = Vec::new();
    let mut i: usize = 0;
    while i < n
        invariant
            n == keys@.len(),
            i <= n,
            r@.len() == i,
            forall|j: int| 0 <= j < i ==> #[trigger] r@[j] == spec_lookup(keys@[j]@),
        decreases n - i,
    {
        r.push(lookup_map_static(shared, keys[i]));
        i = i + 1;
    }
    r
}

/// One full pass over a key list through a caller-owned table; same
/// position-by-position contract as the other two passes.
pub fn resolve_all_map_local(mapping: &Table, keys: &Vec<&str>) -> (r: Vec<Option<Lang>>)
    requires
        mapping.wf(),
    ensures
        r@.len() == keys@.len(),
        forall|i: int| 0 <= i < keys@.len() ==> #[trigger] r@[i] == spec_lookup(keys@[i]@),
{
    let n = keys.len();
    let mut r: Vec<Option<Lang>> = Vec::new();
    let mut i: usize = 0;
    while i < n
        invariant
            mapping.wf(),
            n == keys@.len(),
            i <= n,
            r@.len() == i,
            forall|j: int| 0 <= j < i ==> #[trigger] r@[j] == spec_lookup(keys@[j]@),
        decreases n - i,
    {
        r.push(lookup_map_local(mapping, keys[i]));
        i = i + 1;
    }
    r
}

/// Law: the three strategies agree on every key. Each resolver's contract
/// fixes its result to `spec_lookup` of the key, so any results the three
/// contracts allow for the same key — workload key or not — coincide.
pub proof fn lemma_strategies_agree(
    k: Seq<char>,
    by_branch: Option<Lang>,
    by_shared: Option<Lang>,
    by_local: Option<Lang>,
)
    requires
        by_branch == spec_lookup(k),
        by_shared == spec_lookup(k),
        by_local == spec_lookup(k),
    ensures
        by_branch == by_shared,
        by_branch == by_local,
{
}

/// Law: each of the ten known keys resolves to its declared tag, and the
/// known part of the workload is, key for key, the domain of the table.
pub proof fn lemma_known_keys_resolve()
    ensures
        spec_lookup("rust"@) == Some(Lang::Rust),
        spec_lookup("java"@) == Some(Lang::Java),
        spec_lookup("javascript"@) == Some(Lang::JavaScript),
        spec_lookup("python"@) == Some(Lang::Python),
        spec_lookup("c"@) == Some(Lang::C),
        spec_lookup("cpp"@) == Some(Lang::Cpp),
        spec_lookup("haskell"@) == Some(Lang::Haskell),
        spec_lookup("webassembly"@) == Some(Lang::WebAssembly),
        spec_lookup("perl"@) == Some(Lang::Perl),
        spec_lookup("ruby"@) == Some(Lang::Ruby),
        forall|i: int| 0 <= i < 10 ==> #[trigger] workload_model()[i] == table_model()[i].0,
        forall|i: int|
            0 <= i < 10 ==> spec_lookup(#[trigger] workload_model()[i]) == Some(
                table_model()[i].1,
            ),
{
    reveal_strlit("rust");
    reveal_strlit("java");
    reveal_strlit("javascript");
    reveal_strlit("python");
    reveal_strlit("c");
    reveal_strlit("cpp");
    reveal_strlit("haskell");
    reveal_strlit("webassembly");
    reveal_strlit("perl");
    reveal_strlit("ruby");
    assert("rust"@.len() == 4);
    assert("java"@.len() == 4);
    assert("javascript"@.len() == 10);
    assert("python"@.len() == 6);
    assert("c"@.len() == 1);
    assert("cpp"@.len() == 3);
    assert("haskell"@.len() == 7);
    assert("webassembly"@.len() == 11);
    assert("perl"@.len() == 4);
    assert("ruby"@.len() == 4);
    assert("rust"@[0] == 'r' && "rust"@[2] == 's');
    assert("java"@[0] == 'j');
    assert("perl"@[0] == 'p');
    assert("ruby"@[0] == 'r' && "ruby"@[2] == 'b');
}

/// Law: the three trailing workload keys are absent — they resolve to
/// nothing under every strategy's common spec.
pub proof fn lemma_absent_keys_resolve_to_none()
    ensures
        spec_lookup("does_not_exists1"@) is None,
        spec_lookup("does_not_exists2"@) is None,
        spec_lookup("does_not_exists3"@) is None,
        forall|i: int| 10 <= i < 13 ==> spec_lookup(#[trigger] workload_model()[i]) is None,
{
    reveal_strlit("rust");
    reveal_strlit("java");
    reveal_strlit("javascript");
    reveal_strlit("python");
    reveal_strlit("c");
    reveal_strlit("cpp");
    reveal_strlit("haskell");
    reveal_strlit("webassembly");
    reveal_strlit("perl");
    reveal_strlit("ruby");
    reveal_strlit("does_not_exists1");
    reveal_strlit("does_not_exists2");
    reveal_strlit("does_not_exists3");
    assert("does_not_exists1"@.len() == 16);
    assert("does_not_exists2"@.len() == 16);
    assert("does_not_exists3"@.len() == 16);
    assert("rust"@.len() == 4);
    assert("java"@.len() == 4);
    assert("javascript"@.len() == 10);
    assert("python"@.len() == 6);
    assert("c"@.len() == 1);
    assert("cpp"@.len() == 3);
    assert("haskell"@.len() == 7);
    assert("webassembly"@.len() == 11);
    assert("perl"@.len() == 4);
    assert("ruby"@.len() == 4);
}

} // verus!
