//! The lookup table: an association list from the ten known keys to their
//! tags, pinned entry by entry to the canonical `table_model`.

use vstd::prelude::*;
use vstd::string::StringExecFns;
use crate::lang::{spec_lookup, Lang};
use crate::text::str_eq;

verus! {

/// The canonical table content: the ten (key, tag) pairs in declaration
/// order of `Lang`. Both the process-wide table and every locally built
/// table hold exactly this sequence.
pub open spec fn table_model() -> Seq<(Seq<char>, Lang)> {
    seq![
        ("rust"@, Lang::Rust),
        ("java"@, Lang::Java),
        ("javascript"@, Lang::JavaScript),
        ("python"@, Lang::Python),
        ("c"@, Lang::C),
        ("cpp"@, Lang::Cpp),
        ("haskell"@, Lang::Haskell),
        ("webassembly"@, Lang::WebAssembly),
        ("perl"@, Lang::Perl),
        ("ruby"@, Lang::Ruby),
    ]
}

/// The key-to-tag table. Read-only after construction; its content is fixed
/// by `wf` to be exactly `table_model`.
pub struct Table {
    entries: Vec<(String, Lang)>,
}

impl View for Table {
    type V = Seq<(Seq<char>, Lang)>;

    closed spec fn view(&self) -> Seq<(Seq<char>, Lang)> {
        self.entries@.map_values(|p: (String, Lang)| (p.0@, p.1))
    }
}

impl Table {
    /// A table is well formed when it holds the canonical content.
    pub open spec fn wf(&self) -> bool {
        self@ == table_model()
    }

    /// Number of entries.
    pub fn len(&self) -> (n: usize)
        ensures
            n == self@.len(),
    {
        self.entries.len()
    }

    /// The key stored at position `i`.
    pub fn key_at(&self, i: usize) -> (k: &String)
        requires
            i < self@.len(),
        ensures
            k@ == self@[i as int].0,
    {
        &self.entries[i].0
    }

    /// The tag stored at position `i`.
    pub fn lang_at(&self, i: usize) -> (l: Lang)
        requires
            i < self@.len(),
        ensures
            l == self@[i as int].1,
    {
        self.entries[i].1
    }
}

/// Builds a fresh table holding the ten (key, tag) pairs. Callable any
/// number of times; every call yields the same content (`table_model`), so
/// a caller-owned table and the process-wide one are interchangeable.
pub fn build_table() -> (t: Table)
    ensures
        t.wf(),
{
    let mut entries: Vec<(String, Lang)> = Vec::new();
    entries.push(("rust".to_owned(), Lang::Rust));
    entries.push(("java".to_owned(), Lang::Java));
    entries.push(("javascript".to_owned(), Lang::JavaScript));
    entries.push(("python".to_owned(), Lang::Python));
    entries.push(("c".to_owned(), Lang::C));
    entries.push(("cpp".to_owned(), Lang::Cpp));
    entries.push(("haskell".to_owned(), Lang::Haskell));
    entries.push(("webassembly".to_owned(), Lang::WebAssembly));
    entries.push(("perl".to_owned(), Lang::Perl));
    entries.push(("ruby".to_owned(), Lang::Ruby));
    let t = Table { entries };
    proof {
        assert(t@ =~~= table_model());
    }
    t
}

/// A key that equals the table key at position `i` and none before it
/// resolves to the tag at position `i`: the scan order of the table agrees
/// with the branch order of `spec_lookup`.
proof fn lemma_model_hit(k: Seq<char>, i: int)
    requires
        0 <= i < table_model().len(),
        k == table_model()[i].0,
        forall|j: int| 0 <= j < i ==> k != table_model()[j].0,
    ensures
        spec_lookup(k) == Some(table_model()[i].1),
{
}

/// A key that equals no table key resolves to nothing.
proof fn lemma_model_miss(k: Seq<char>)
    requires
        forall|j: int| 0 <= j < table_model().len() ==> k != table_model()[j].0,
    ensures
        spec_lookup(k) is None,
{
    assert(k != table_model()[0].0 && table_model()[0].0 == "rust"@);
    assert(k != table_model()[1].0 && table_model()[1].0 == "java"@);
    assert(k != table_model()[2].0 && table_model()[2].0 == "javascript"@);
    assert(k != table_model()[3].0 && table_model()[3].0 == "python"@);
    assert(k != table_model()[4].0 && table_model()[4].0 == "c"@);
    assert(k != table_model()[5].0 && table_model()[5].0 == "cpp"@);
    assert(k != table_model()[6].0 && table_model()[6].0 == "haskell"@);
    assert(k != table_model()[7].0 && table_model()[7].0 == "webassembly"@);
    assert(k != table_model()[8].0 && table_model()[8].0 == "perl"@);
    assert(k != table_model()[9].0 && table_model()[9].0 == "ruby"@);
}

/// Table-based resolver over a caller-owned table: one associative lookup,
/// no initialization. Scans the entries in order and returns the first
/// match's tag.
pub fn lookup_map_local(mapping: &Table, key: &str) -> (r: Option<Lang>)
    requires
        mapping.wf(),
    ensures
        r == spec_lookup(key@),
{
    let n = mapping.entries.len();
    let mut i: usize = 0;
    while i < n
        invariant
            mapping.wf(),
            n == mapping.entries@.len(),
            i <= n,
            forall|j: int| 0 <= j < i ==> key@ != mapping@[j].0,
        decreases n - i,
    {
        if str_eq(mapping.entries[i].0.as_str(), key) {
            proof {
                lemma_model_hit(key@, i as int);
            }
            return Some(mapping.entries[i].1);
        }
        i = i + 1;
    }
    proof {
        lemma_model_miss(key@);
    }
    None
}

/// Law: the canonical table holds exactly ten entries and no two entries
/// share a key.
pub proof fn lemma_table_keys_distinct()
    ensures
        table_model().len() == 10,
        forall|i: int, j: int|
            0 <= i < j < table_model().len() ==> table_model()[i].0 != table_model()[j].0,
{
    reveal_strlit("rust");
    reveal_strlit("java");
    reveal_strlit("javascript");
    reveal_strlit("python");
    reveal_strlit("c");
    reveal_strlit("cpp");
    reveal_strlit("haskell");
    reveal_strlit("webassembly");
    reveal_strlit("perl");
    reveal_strlit("ruby");
    assert("rust"@.len() == 4);
    assert("java"@.len() == 4);
    assert("javascript"@.len() == 10);
    assert("python"@.len() == 6);
    assert("c"@.len() == 1);
    assert("cpp"@.len() == 3);
    assert("haskell"@.len() == 7);
    assert("webassembly"@.len() == 11);
    assert("perl"@.len() == 4);
    assert("ruby"@.len() == 4);
    assert("rust"@[0] == 'r' && "rust"@[2] == 's');
    assert("java"@[0] == 'j');
    assert("perl"@[0] == 'p');
    assert("ruby"@[0] == 'r' && "ruby"@[2] == 'b');
}

/// Law: a table's content is a function of well-formedness alone; two well
/// formed tables are identical in content, however they were built.
pub proof fn lemma_table_content_determined(a: &Table, b: &Table)
    requires
        a.wf(),
        b.wf(),
    ensures
        a@ == b@,
{
}

} // verus!
