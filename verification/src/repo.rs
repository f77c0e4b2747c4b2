//! Rules for managing source repositories.
//!
//! A source repository is a collection of source crates (one `sources/<lang>.<name>/`
//! directory per source, optionally beside shared `templates/`) that is published as a
//! single source list.
use vstd::prelude::*;

verus! {

/// Declares `std::path::PathBuf`, which commands carry unread.
#[verifier::external_type_specification]
#[verifier::external_body]
pub struct ExPathBuf(std::path::PathBuf);

/// Default source list name used when no name is given.
pub const DEFAULT_NAME: &'static str = "Komorei Sources";

/// The repository subcommands.
#[derive(Debug)]
pub enum RepoCommand {
    /// Scaffold a new source repository (directory layout, CI workflows, gitignore).
    Init {
        /// Repository name (defaults to the directory name).
        name: Option<String>,
    },
    /// Build and package every source in the repository and assemble the source list.
    Build {
        /// Root of the repository.
        root: std::path::PathBuf,
        /// Output folder path.
        output: std::path::PathBuf,
        /// Source list name.
        name: Option<String>,
    },
    /// Build the repository source list and serve it on the local network.
    Serve {
        /// Root of the repository.
        root: std::path::PathBuf,
        /// Output folder path.
        output: std::path::PathBuf,
        /// Port to serve on.
        port: u16,
    },
    /// Verify every source package in the repository is ready to be published.
    Verify {
        /// Root of the repository.
        root: std::path::PathBuf,
    },
}

/// Byte strings in lexicographic order: `a` comes strictly before `b`.
pub open spec fn lex_lt(a: Seq<u8>, b: Seq<u8>) -> bool
    decreases a.len(),
{
    if a.len() == 0 {
        b.len() > 0
    } else if b.len() == 0 {
        false
    } else if a[0] != b[0] {
        a[0] < b[0]
    } else {
        lex_lt(a.drop_first(), b.drop_first())
    }
}

/// Lexicographic order, stated outright: `a` comes before `b` exactly when `a` is a
/// proper prefix of `b`, or at the first position where they differ `a` has the smaller
/// byte.
pub proof fn lemma_lex_lt_meaning(a: Seq<u8>, b: Seq<u8>)
    ensures
        lex_lt(a, b) <==> ((a.len() < b.len() && a == b.take(a.len() as int)) || exists|k: int|
            0 <= k < a.len() && k < b.len() && a.take(k) == b.take(k) && #[trigger] a[k] < b[k]),
    decreases a.len(),
{
    if a.len() == 0 {
        assert(a =~= b.take(0));
    } else if b.len() == 0 {
    } else {
        let a1 = a.drop_first();
        let b1 = b.drop_first();
        lemma_lex_lt_meaning(a1, b1);
        if a[0] != b[0] {
            if a[0] < b[0] {
                assert(a.take(0) =~= b.take(0));
            } else {
                if a.len() < b.len() && a == b.take(a.len() as int) {
                    assert(a[0] == b.take(a.len() as int)[0]);
                }
                assert forall|k: int|
                    0 <= k < a.len() && k < b.len() && a.take(k) == b.take(k) implies !(
                    #[trigger] a[k] < b[k]) by {
                    if k > 0 {
                        assert(a.take(k)[0] == b.take(k)[0]);
                    }
                }
            }
        } else {
            if lex_lt(a1, b1) {
                if a1.len() < b1.len() && a1 == b1.take(a1.len() as int) {
                    assert forall|k: int| 0 <= k < a.len() implies a[k] == b.take(a.len() as int)[k] by {
                        if k > 0 {
                            assert(a[k] == a1[k - 1]);
                            assert(a1[k - 1] == b1.take(a1.len() as int)[k - 1]);
                        }
                    }
                    assert(a =~= b.take(a.len() as int));
                } else {
                    let k = choose|k: int|
                        0 <= k < a1.len() && k < b1.len() && a1.take(k) == b1.take(k) && #[trigger] a1[k]
                            < b1[k];
                    assert(a.take(k + 1) =~= seq![a[0]] + a1.take(k));
                    assert(b.take(k + 1) =~= seq![b[0]] + b1.take(k));
                    assert(a[k + 1] < b[k + 1]);
                }
            } else {
                if a.len() < b.len() && a == b.take(a.len() as int) {
                    assert(a1 =~= b1.take(a1.len() as int));
                }
                assert forall|k: int|
                    0 <= k < a.len() && k < b.len() && a.take(k) == b.take(k) implies !(
                    #[trigger] a[k] < b[k]) by {
                    if k > 0 {
                        assert(a1.take(k - 1) =~= a.take(k).drop_first());
                        assert(b1.take(k - 1) =~= b.take(k).drop_first());
                        assert(a1[k - 1] == a[k]);
                        assert(b1[k - 1] == b[k]);
                    }
                }
            }
        }
    }
}

/// Exactly one of `a < b`, `a == b`, `b < a` holds.
pub proof fn lemma_lex_trichotomy(a: Seq<u8>, b: Seq<u8>)
    ensures
        lex_lt(a, b) || a == b || lex_lt(b, a),
        !(lex_lt(a, b) && lex_lt(b, a)),
        !lex_lt(a, a),
    decreases a.len(),
{
    if a.len() > 0 && b.len() > 0 {
        lemma_lex_trichotomy(a.drop_first(), b.drop_first());
        if a[0] == b[0] && a.drop_first() == b.drop_first() {
            assert(a =~= seq![a[0]] + a.drop_first());
            assert(b =~= seq![b[0]] + b.drop_first());
        }
    } else if a.len() == 0 && b.len() == 0 {
        assert(a =~= b);
    }
    if a.len() > 0 {
        lemma_lex_trichotomy(a.drop_first(), a.drop_first());
    }
}

/// Lexicographic order is transitive.
pub proof fn lemma_lex_transitive(a: Seq<u8>, b: Seq<u8>, c: Seq<u8>)
    requires
        lex_lt(a, b),
        lex_lt(b, c),
    ensures
        lex_lt(a, c),
    decreases a.len(),
{
    if a.len() > 0 && a[0] == b[0] && b[0] == c[0] {
        lemma_lex_transitive(a.drop_first(), b.drop_first(), c.drop_first());
    }
}

/// How two byte strings are placed in lexicographic order.
#[derive(PartialEq, Eq, Structural, Clone, Copy, Debug)]
pub enum Placement {
    Before,
    Same,
    After,
}

/// Where `a` stands relative to `b` in lexicographic order.
pub fn bytes_placement(a: &[u8], b: &[u8]) -> (p: Placement)
    ensures
        p == Placement::Before <==> lex_lt(a@, b@),
        p == Placement::Same <==> a@ == b@,
        p == Placement::After <==> lex_lt(b@, a@),
{
    proof {
        lemma_lex_trichotomy(a@, b@);
    }
    let mut i: usize = 0;
    assert(a@.skip(0) =~= a@);
    assert(b@.skip(0) =~= b@);
    while i < a.len() && i < b.len()
        invariant
            i <= a.len(),
            i <= b.len(),
            a@.take(i as int) == b@.take(i as int),
            lex_lt(a@, b@) == lex_lt(a@.skip(i as int), b@.skip(i as int)),
            lex_lt(b@, a@) == lex_lt(b@.skip(i as int), a@.skip(i as int)),
        decreases a.len() - i,
    {
        assert(a@.skip(i as int).drop_first() =~= a@.skip(i + 1));
        assert(b@.skip(i as int).drop_first() =~= b@.skip(i + 1));
        if a[i] < b[i] {
            return Placement::Before;
        } else if b[i] < a[i] {
            return Placement::After;
        }
        assert(a@.take(i + 1) =~= a@.take(i as int).push(a@[i as int]));
        assert(b@.take(i + 1) =~= b@.take(i as int).push(b@[i as int]));
        i = i + 1;
    }
    if i < b.len() {
        Placement::Before
    } else if i < a.len() {
        Placement::After
    } else {
        assert(a@ =~= a@.take(i as int));
        assert(b@ =~= b@.take(i as int));
        Placement::Same
    }
}

/// The byte strings that a list of byte vectors holds.
pub open spec fn byte_strings(v: Seq<Vec<u8>>) -> Seq<Seq<u8>> {
    v.map_values(|x: Vec<u8>| x@)
}

/// Each byte string comes strictly before the next: sorted, with no repeats.
pub open spec fn strictly_ascending(s: Seq<Seq<u8>>) -> bool {
    forall|i: int, j: int| 0 <= i < j < s.len() ==> lex_lt(#[trigger] s[i], #[trigger] s[j])
}

fn copy_bytes(v: &Vec<u8>) -> (copy: Vec<u8>)
    ensures
        copy@ == v@,
{
    let copy = v.clone();
    assert(copy@ =~= v@);
    copy
}

/// Adds `name` to a strictly ascending list, where it belongs, unless it is already
/// there.
fn insert_ascending(list: &mut Vec<Vec<u8>>, name: Vec<u8>)
    requires
        strictly_ascending(byte_strings(old(list)@)),
    ensures
        strictly_ascending(byte_strings(final(list)@)),
        byte_strings(final(list)@).to_set() == byte_strings(old(list)@).to_set().insert(name@),
{
    let ghost before = byte_strings(list@);
    let mut i: usize = 0;
    while i < list.len() && bytes_placement(list[i].as_slice(), name.as_slice())
        == Placement::Before
        invariant
            i <= list.len(),
            list@ == old(list)@,
            forall|j: int| 0 <= j < i ==> lex_lt(#[trigger] before[j], name@),
            before == byte_strings(list@),
        decreases list.len() - i,
    {
        assert(before[i as int] == list@[i as int]@);
        i = i + 1;
    }
    if i < list.len() {
        let p = bytes_placement(list[i].as_slice(), name.as_slice());
        assert(before[i as int] == list@[i as int]@);
        if p == Placement::Same {
            assert(before.to_set().insert(name@) =~= before.to_set()) by {
                assert(before[i as int] == name@);
            }
            return;
        }
    }
    list.insert(i, name);
    let ghost after = byte_strings(list@);
    assert(after =~= before.insert(i as int, name@));
    assert forall|a: int, b: int| 0 <= a < b < after.len() implies lex_lt(
        #[trigger] after[a],
        #[trigger] after[b],
    ) by {
        if b < i {
        } else if b == i {
        } else if a < i {
            lemma_lex_transitive(after[a], name@, before[i as int]);
            if b - 1 > i {
                lemma_lex_transitive(after[a], before[i as int], before[b - 1]);
            }
        } else if a == i {
            if b - 1 > i {
                lemma_lex_transitive(name@, before[i as int], before[b - 1]);
            }
        } else {
        }
    }
    assert(after.to_set() =~= before.to_set().insert(name@)) by {
        assert forall|y: Seq<u8>| #[trigger] after.to_set().contains(y) implies before.to_set().insert(
            name@,
        ).contains(y) by {
            let k = choose|k: int| 0 <= k < after.len() && after[k] == y;
            if k < i {
                assert(before[k] == y);
            } else if k > i {
                assert(before[k - 1] == y);
            }
        }
        assert forall|y: Seq<u8>| #[trigger] before.to_set().insert(name@).contains(y) implies after.to_set().contains(
            y,
        ) by {
            if y == name@ {
                assert(after[i as int] == y);
            } else {
                let k = choose|k: int| 0 <= k < before.len() && before[k] == y;
                if k < i {
                    assert(after[k] == y);
                } else {
                    assert(after[k + 1] == y);
                }
            }
        }
    }
}

/// A sorted listing without repeats is fixed by the names it holds: two such listings
/// of the same names are the same listing. So the source list does not depend on the
/// order in which the file system hands out directory entries.
pub proof fn lemma_ascending_listing_unique(a: Seq<Seq<u8>>, b: Seq<Seq<u8>>)
    requires
        strictly_ascending(a),
        strictly_ascending(b),
        a.to_set() == b.to_set(),
    ensures
        a == b,
    decreases a.len(),
{
    if a.len() == 0 {
        if b.len() > 0 {
            assert(b.to_set().contains(b[0]));
        }
        assert(a =~= b);
    } else {
        assert(a.to_set().contains(a[0]));
        assert(b.to_set().contains(a[0]));
        let k = choose|k: int| 0 <= k < b.len() && b[k] == a[0];
        assert(a.to_set().contains(b[0]));
        let m = choose|m: int| 0 <= m < a.len() && a[m] == b[0];
        if k > 0 {
            assert(lex_lt(b[0], b[k]));
            if m > 0 {
                assert(lex_lt(a[0], a[m]));
                lemma_lex_transitive(b[0], a[0], b[0]);
            }
            lemma_lex_trichotomy(b[0], b[0]);
        }
        assert(a[0] == b[0]);
        let ra = a.drop_first();
        let rb = b.drop_first();
        assert(ra.to_set() =~= rb.to_set()) by {
            assert forall|y: Seq<u8>| #[trigger] ra.to_set().contains(y) implies rb.to_set().contains(
                y,
            ) by {
                let i = choose|i: int| 0 <= i < ra.len() && ra[i] == y;
                assert(a[i + 1] == y);
                assert(lex_lt(a[0], y));
                lemma_lex_trichotomy(y, y);
                assert(b.to_set().contains(y));
                let j = choose|j: int| 0 <= j < b.len() && b[j] == y;
                assert(j != 0);
                assert(rb[j - 1] == y);
            }
            assert forall|y: Seq<u8>| #[trigger] rb.to_set().contains(y) implies ra.to_set().contains(
                y,
            ) by {
                let i = choose|i: int| 0 <= i < rb.len() && rb[i] == y;
                assert(b[i + 1] == y);
                assert(lex_lt(b[0], y));
                lemma_lex_trichotomy(y, y);
                assert(a.to_set().contains(y));
                let j = choose|j: int| 0 <= j < a.len() && a[j] == y;
                assert(j != 0);
                assert(ra[j - 1] == y);
            }
        }
        assert forall|i: int, j: int| 0 <= i < j < ra.len() implies lex_lt(
            #[trigger] ra[i],
            #[trigger] ra[j],
        ) by {
            assert(lex_lt(a[i + 1], a[j + 1]));
        }
        assert forall|i: int, j: int| 0 <= i < j < rb.len() implies lex_lt(
            #[trigger] rb[i],
            #[trigger] rb[j],
        ) by {
            assert(lex_lt(b[i + 1], b[j + 1]));
        }
        lemma_ascending_listing_unique(ra, rb);
        assert(a =~= seq![a[0]] + ra);
        assert(b =~= seq![b[0]] + rb);
    }
}

/// A directory entry found while scanning a container for source crates.
#[derive(Debug, Clone)]
pub struct SourceCandidate {
    /// The entry's file name.
    pub name: Vec<u8>,
    /// Whether the entry is a directory.
    pub is_dir: bool,
    /// Whether the entry holds a `Cargo.toml` file.
    pub has_manifest: bool,
    /// Whether the entry holds a `res/source.json` file.
    pub has_source_json: bool,
    /// Whether the entry holds a `.skip` marker file.
    pub has_skip_marker: bool,
}

/// An entry is a source crate when it is a directory with both a `Cargo.toml` and a
/// `res/source.json`.
pub open spec fn is_source_crate(c: SourceCandidate) -> bool {
    c.is_dir && c.has_manifest && c.has_source_json
}

/// A source crate is published unless a `.skip` marker excludes it.
pub open spec fn is_published(c: SourceCandidate) -> bool {
    is_source_crate(c) && !c.has_skip_marker
}

/// The names of the published source crates among `cs`.
pub open spec fn published_names(cs: Seq<SourceCandidate>) -> Set<Seq<u8>> {
    Set::new(
        |n: Seq<u8>| exists|i: int| 0 <= i < cs.len() && is_published(cs[i]) && #[trigger] cs[i].name@ == n,
    )
}

/// The names of the source crates among `cs` that a `.skip` marker excludes, in order.
pub open spec fn skipped_names(cs: Seq<SourceCandidate>) -> Seq<Seq<u8>>
    decreases cs.len(),
{
    if cs.len() == 0 {
        seq![]
    } else {
        let rest = skipped_names(cs.drop_last());
        let c = cs.last();
        if is_source_crate(c) && c.has_skip_marker {
            rest.push(c.name@)
        } else {
            rest
        }
    }
}

/// Some scanned entry named `name` is a directory that holds a `Cargo.toml` and a
/// `res/source.json` and no `.skip` marker.
pub open spec fn names_unskipped_crate(candidates: Seq<SourceCandidate>, name: Seq<u8>) -> bool {
    exists|j: int|
        0 <= j < candidates.len() && candidates[j].name@ == name && candidates[j].is_dir
            && candidates[j].has_manifest && candidates[j].has_source_json
            && !candidates[j].has_skip_marker
}

/// Some scanned entry named `name` is a directory that holds a `Cargo.toml`, a
/// `res/source.json` and a `.skip` marker.
pub open spec fn names_skipped_crate(candidates: Seq<SourceCandidate>, name: Seq<u8>) -> bool {
    exists|j: int|
        0 <= j < candidates.len() && candidates[j].name@ == name && candidates[j].is_dir
            && candidates[j].has_manifest && candidates[j].has_source_json
            && candidates[j].has_skip_marker
}

/// Every skipped name is a scanned directory that holds a `Cargo.toml`, a
/// `res/source.json` and a `.skip` marker.
pub proof fn lemma_skipped_names_direct(cs: Seq<SourceCandidate>)
    ensures
        forall|k: int|
            0 <= k < skipped_names(cs).len() ==> #[trigger] names_skipped_crate(
                cs,
                skipped_names(cs)[k],
            ),
    decreases cs.len(),
{
    if cs.len() > 0 {
        let rest = cs.drop_last();
        lemma_skipped_names_direct(rest);
        assert forall|k: int| 0 <= k < skipped_names(cs).len() implies #[trigger] names_skipped_crate(
            cs,
            skipped_names(cs)[k],
        ) by {
            if k < skipped_names(rest).len() {
                assert(skipped_names(cs)[k] == skipped_names(rest)[k]);
                assert(names_skipped_crate(rest, skipped_names(rest)[k]));
                let j = choose|j: int|
                    0 <= j < rest.len() && #[trigger] rest[j].name@ == skipped_names(rest)[k]
                        && rest[j].is_dir && rest[j].has_manifest && rest[j].has_source_json
                        && rest[j].has_skip_marker;
                assert(cs[j] == rest[j]);
            } else {
                assert(cs[cs.len() - 1].name@ == skipped_names(cs)[k]);
            }
        }
    }
}

/// Every listed source is a scanned directory that holds a `Cargo.toml` and a
/// `res/source.json` and no `.skip` marker: a directory lacking either file, or marked
/// to be skipped, is never listed.
pub proof fn lemma_listed_are_source_crates(candidates: Seq<SourceCandidate>, sources: Seq<Seq<u8>>)
    requires
        sources.to_set() == published_names(candidates),
    ensures
        forall|i: int|
            0 <= i < sources.len() ==> #[trigger] names_unskipped_crate(candidates, sources[i]),
{
    assert forall|i: int| 0 <= i < sources.len() implies #[trigger] names_unskipped_crate(
        candidates,
        sources[i],
    ) by {
        lemma_listed_one(candidates, sources, i);
    }
}

proof fn lemma_listed_one(candidates: Seq<SourceCandidate>, sources: Seq<Seq<u8>>, i: int)
    requires
        sources.to_set() == published_names(candidates),
        0 <= i < sources.len(),
    ensures
        exists|j: int|
            0 <= j < candidates.len() && candidates[j].name@ == sources[i] && candidates[j].is_dir
                && candidates[j].has_manifest && candidates[j].has_source_json
                && !candidates[j].has_skip_marker,
{
    assert(sources.contains(sources[i]));
    assert(sources.to_set().contains(sources[i]));
    assert(published_names(candidates).contains(sources[i]));
    let j = choose|j: int|
        0 <= j < candidates.len() && is_published(candidates[j]) && #[trigger] candidates[j].name@
            == sources[i];
    assert(is_published(candidates[j]));
    assert(candidates[j].is_dir);
}

/// Every scanned directory that holds a `Cargo.toml` and a `res/source.json` and no
/// `.skip` marker is listed.
pub proof fn lemma_source_crates_are_listed(candidates: Seq<SourceCandidate>, sources: Seq<Seq<u8>>)
    requires
        sources.to_set() == published_names(candidates),
    ensures
        forall|j: int|
            #![trigger candidates[j]]
            0 <= j < candidates.len() && candidates[j].is_dir && candidates[j].has_manifest
                && candidates[j].has_source_json && !candidates[j].has_skip_marker
                ==> exists|i: int| 0 <= i < sources.len() && sources[i] == candidates[j].name@,
{
    assert forall|j: int|
        #![trigger candidates[j]]
        0 <= j < candidates.len() && candidates[j].is_dir && candidates[j].has_manifest
            && candidates[j].has_source_json && !candidates[j].has_skip_marker implies exists|i: int|
        0 <= i < sources.len() && sources[i] == candidates[j].name@ by {
        assert(published_names(candidates).contains(candidates[j].name@));
        assert(sources.to_set().contains(candidates[j].name@));
    }
}

proof fn lemma_selection_vecs(
    candidates: Seq<SourceCandidate>,
    sources: Seq<Vec<u8>>,
    skipped: Seq<Vec<u8>>,
)
    requires
        strictly_ascending(byte_strings(sources)),
        byte_strings(sources).to_set() == published_names(candidates),
        byte_strings(skipped) == skipped_names(candidates),
    ensures
        forall|i: int|
            0 <= i < sources.len() ==> #[trigger] names_unskipped_crate(candidates, sources[i]@),
        forall|j: int|
            #![trigger candidates[j]]
            0 <= j < candidates.len() && candidates[j].is_dir && candidates[j].has_manifest
                && candidates[j].has_source_json && !candidates[j].has_skip_marker ==> exists|i: int|
                0 <= i < sources.len() && sources[i]@ == candidates[j].name@,
        forall|i: int|
            0 <= i < skipped.len() ==> #[trigger] names_skipped_crate(candidates, skipped[i]@),
        forall|i: int, k: int|
            0 <= i < k < sources.len() ==> lex_lt(#[trigger] sources[i]@, #[trigger] sources[k]@),
{
    let bs = byte_strings(sources);
    let bk = byte_strings(skipped);
    lemma_listed_are_source_crates(candidates, bs);
    lemma_source_crates_are_listed(candidates, bs);
    lemma_skipped_names_direct(candidates);
    assert forall|i: int| 0 <= i < sources.len() implies #[trigger] names_unskipped_crate(
        candidates,
        sources[i]@,
    ) by {
        assert(bs[i] == sources[i]@);
        assert(names_unskipped_crate(candidates, bs[i]));
    }
    assert forall|j: int|
        #![trigger candidates[j]]
        0 <= j < candidates.len() && candidates[j].is_dir && candidates[j].has_manifest
            && candidates[j].has_source_json && !candidates[j].has_skip_marker implies exists|i: int|
        0 <= i < sources.len() && sources[i]@ == candidates[j].name@ by {
        let i = choose|i: int| #![trigger bs[i]] 0 <= i < bs.len() && bs[i] == candidates[j].name@;
        assert(bs[i] == sources[i]@);
    }
    assert forall|i: int| 0 <= i < skipped.len() implies #[trigger] names_skipped_crate(
        candidates,
        skipped[i]@,
    ) by {
        assert(bk[i] == skipped[i]@);
        assert(names_skipped_crate(candidates, bk[i]));
    }
    assert forall|i: int, k: int| 0 <= i < k < sources.len() implies lex_lt(
        #[trigger] sources[i]@,
        #[trigger] sources[k]@,
    ) by {
        assert(bs[i] == sources[i]@);
        assert(bs[k] == sources[k]@);
        assert(lex_lt(bs[i], bs[k]));
    }
}

/// The outcome of scanning a container for source crates.
#[derive(Debug, Clone)]
pub struct SourceSelection {
    /// The names of the published source crates, sorted, each once.
    pub sources: Vec<Vec<u8>>,
    /// The names of the source crates that a `.skip` marker excluded, in scan order.
    pub skipped: Vec<Vec<u8>>,
}

/// Why no source list can be built from a repository.
#[derive(Debug, Clone, PartialEq, Eq)]
pub enum DiscoverError {
    /// No published source crate was found.
    NoSources,
}

/// Picks the source crates among the scanned entries: directories holding both a
/// `Cargo.toml` and a `res/source.json`, minus those marked with `.skip`; the result is
/// sorted for deterministic builds, without duplicates.
pub fn select_sources(candidates: &Vec<SourceCandidate>) -> (sel: SourceSelection)
    ensures
        strictly_ascending(byte_strings(sel.sources@)),
        byte_strings(sel.sources@).to_set() == published_names(candidates@),
        byte_strings(sel.skipped@) == skipped_names(candidates@),
        forall|i: int|
            0 <= i < sel.sources@.len() ==> #[trigger] names_unskipped_crate(candidates@, sel.sources@[i]@),
        forall|j: int|
            #![trigger candidates@[j]]
            0 <= j < candidates@.len() && candidates@[j].is_dir && candidates@[j].has_manifest
                && candidates@[j].has_source_json && !candidates@[j].has_skip_marker ==> exists|i: int|
                0 <= i < sel.sources@.len() && sel.sources@[i]@ == candidates@[j].name@,
        forall|i: int|
            0 <= i < sel.skipped@.len() ==> #[trigger] names_skipped_crate(candidates@, sel.skipped@[i]@),
        forall|i: int, k: int|
            0 <= i < k < sel.sources@.len() ==> lex_lt(#[trigger] sel.sources@[i]@, #[trigger] sel.sources@[k]@),
{
    let mut sources: Vec<Vec<u8>> = Vec::new();
    let mut skipped: Vec<Vec<u8>> = Vec::new();
    let n = candidates.len();
    assert(byte_strings(sources@).to_set() =~= published_names(candidates@.take(0)));
    assert(byte_strings(skipped@) =~= skipped_names(candidates@.take(0)));
    for i in 0..n
        invariant
            n == candidates@.len(),
            strictly_ascending(byte_strings(sources@)),
            byte_strings(sources@).to_set() == published_names(candidates@.take(i as int)),
            byte_strings(skipped@) == skipped_names(candidates@.take(i as int)),
    {
        let c = &candidates[i];
        let ghost prefix = candidates@.take(i as int);
        let ghost next = candidates@.take(i + 1);
        assert(next.drop_last() =~= prefix);
        assert(next.last() == *c);
        let ghost old_sources = byte_strings(sources@);
        if c.is_dir && c.has_manifest && c.has_source_json {
            if c.has_skip_marker {
                skipped.push(copy_bytes(&c.name));
                assert(byte_strings(skipped@) =~= skipped_names(next));
            } else {
                insert_ascending(&mut sources, copy_bytes(&c.name));
            }
        }
        assert(byte_strings(sources@).to_set() =~= published_names(next)) by {
            assert forall|y: Seq<u8>| #[trigger] published_names(next).contains(y) implies byte_strings(
                sources@,
            ).to_set().contains(y) by {
                let k = choose|k: int|
                    0 <= k < next.len() && is_published(next[k]) && #[trigger] next[k].name@ == y;
                if k < i {
                    assert(prefix[k] == next[k]);
                    assert(published_names(prefix).contains(y));
                }
            }
            assert forall|y: Seq<u8>| #[trigger] byte_strings(sources@).to_set().contains(y) implies published_names(
                next,
            ).contains(y) by {
                if old_sources.to_set().contains(y) {
                    let k = choose|k: int|
                        0 <= k < prefix.len() && is_published(prefix[k]) && #[trigger] prefix[k].name@
                            == y;
                    assert(next[k] == prefix[k]);
                } else {
                    assert(next[i as int].name@ == y);
                }
            }
        }
        if !(c.is_dir && c.has_manifest && c.has_source_json && c.has_skip_marker) {
            assert(byte_strings(skipped@) =~= skipped_names(next));
        }
    }
    assert(candidates@.take(n as int) =~= candidates@);
    proof {
        lemma_selection_vecs(candidates@, sources@, skipped@);
    }
    SourceSelection { sources, skipped }
}

impl SourceSelection {
    /// The sources to build, or an error when there are none.
    pub fn into_sources(self) -> (res: Result<Vec<Vec<u8>>, DiscoverError>)
        ensures
            self.sources@.len() == 0 ==> res == Err::<Vec<Vec<u8>>, DiscoverError>(
                DiscoverError::NoSources,
            ),
            self.sources@.len() > 0 ==> res == Ok::<Vec<Vec<u8>>, DiscoverError>(self.sources),
    {
        if self.sources.len() == 0 {
            Err(DiscoverError::NoSources)
        } else {
            Ok(self.sources)
        }
    }
}

/// Repository `.gitignore`: generated packages and build outputs are not committed.
pub const REPO_GITIGNORE: &'static str = "\
*.krx

public/icons/
public/sources/
public/*.json

sources/*/target
sources/*/public
templates/*/target

.idea
.DS_Store
";

/// rustfmt config used across every source (tab indentation).
pub const REPO_RUSTFMT: &'static str = "\
hard_tabs = true
use_try_shorthand = true
use_field_init_shorthand = true
";

/// GitHub Actions workflow: build every source on main and deploy `public/` to
/// gh-pages.
pub const REPO_BUILD_WORKFLOW: &'static str = r#"name: Build source list
on:
  push:
    branches:
      - main
    paths:
      - "sources/**"
      - "templates/**"
      - ".github/workflows/build.yaml"

concurrency:
  group: ${{ github.workflow }}
  cancel-in-progress: true

permissions:
  contents: write

jobs:
  build:
    runs-on: ubuntu-latest
    steps:
      - uses: actions/checkout@v6

      - uses: dtolnay/rust-toolchain@stable
        with:
          targets: wasm32-unknown-unknown

      - name: Cache cargo
        uses: actions/cache@v4
        with:
          path: |
            ~/.cargo/registry/index
            ~/.cargo/registry/cache
            ~/.cargo/git/db
            sources/**/target
          key: ${{ runner.os }}-cargo-${{ hashFiles('sources/**/Cargo.lock') }}
          restore-keys: ${{ runner.os }}-cargo-

      - name: Install komorei CLI
        run: |
          git clone --depth 1 https://github.com/komorei-sdk/komorei-sdk.git /tmp/komorei-sdk
          cargo install --path /tmp/komorei-sdk/crates/cli --locked

      - name: Build sources
        run: komorei repo build --root . --output public

      - name: Deploy to GitHub Pages
        uses: JamesIves/github-pages-deploy-action@v4.7.2
        with:
          branch: gh-pages
          folder: public
          git-config-name: GitHub Actions
          git-config-email: github-actions[bot]@users.noreply.github.com
          commit-message: Update source list
          single-commit: true
"#;

/// GitHub Actions workflow: verify pull requests (formatting, clippy, source validation).
pub const REPO_PR_WORKFLOW: &'static str = r#"name: Check PR
on:
  pull_request:
    paths:
      - "sources/**"
      - "templates/**"
      - ".github/workflows/pr.yaml"

concurrency:
  group: ${{ github.workflow }}-${{ github.event.pull_request.number }}
  cancel-in-progress: true

defaults:
  run:
    shell: bash

jobs:
  verify-sources:
    name: Verify sources
    runs-on: ubuntu-latest
    steps:
      - uses: actions/checkout@v6

      - uses: dtolnay/rust-toolchain@stable
        with:
          targets: wasm32-unknown-unknown

      - name: Install komorei CLI
        run: |
          git clone --depth 1 https://github.com/komorei-sdk/komorei-sdk.git /tmp/komorei-sdk
          cargo install --path /tmp/komorei-sdk/crates/cli --locked

      - name: Build and verify sources
        run: komorei repo verify --root .

  rust-lint:
    name: Rust formatting and Clippy
    runs-on: ubuntu-latest
    steps:
      - uses: actions/checkout@v6

      - uses: dtolnay/rust-toolchain@stable
        with:
          components: clippy, rustfmt
          targets: wasm32-unknown-unknown

      - name: Lint sources
        run: |
          set -uo pipefail
          failed=0
          for crate in sources/*; do
            [[ -f "$crate/Cargo.toml" ]] || continue
            echo "::group::Linting $crate"
            (cd "$crate" && cargo fmt --check) || failed=1
            (cd "$crate" && cargo clippy --target wasm32-unknown-unknown -- -D warnings) || failed=1
            echo "::endgroup::"
          done
          exit $failed
"#;

/// The repository README.
pub const REPO_README: &'static str = r#"# Komorei Sources

A collection of [Komorei](https://github.com/komorei-sdk/komorei-sdk) sources,
installable in the Komorei app — the same model as
[Aidoku-Community/sources](https://github.com/Aidoku-Community/sources).

Each `sources/<lang>.<name>/` directory is a self-contained Rust crate that
compiles to `wasm32-unknown-unknown` and is packaged as a `.krx` file. The repo
builds every source and assembles a single published source list.

## Layout

```
.github/workflows/   CI that builds the list and deploys it
sources/<id>/        one crate per source (Cargo.toml, src/, res/)
sources/<id>/res/    source.json + icon.png (packaged inside the .krx)
templates/           shared template crates for similar sites
public/              generated source list (gitignored, deployed by CI)
```

## Usage

On a device with Komorei installed, add the repo's `index.min.json` URL as a
repository in the app (Sources tab → add repo) to browse and install every
source in this list.

## Development

Requires `komorei` (the SDK CLI) and the `wasm32-unknown-unknown` target:

```sh
cargo install --path ../komorei-sdk/crates/cli     # or wherever the SDK lives
rustup target add wasm32-unknown-unknown
```

Scaffold a new source and build the whole repo:

```sh
komorei init sources/vi.example --name "Example" --url https://example.com --languages vi
komorei repo build    # packages every source and writes public/
komorei repo serve    # build + serve the list locally (add the printed URL to the app)
komorei repo verify   # check every packaged source is valid
```

Push to GitHub and the build workflow (`.github/workflows/build.yaml`) will
compile every source and publish `public/` to the `gh-pages` branch
automatically.

## Adding a source

See [CONTRIBUTING.md](CONTRIBUTING.md) for source checklist and conventions
(compiles without warnings, `cargo fmt`, `cargo clippy -D warnings`, JSON with
tabs and a trailing newline, conventional commits).
"#;

/// The contribution guide.
pub const REPO_CONTRIBUTING: &'static str = r#"# Contributing

Thank you for your interest in contributing to this source collection!

All changes are made through pull requests that are squashed on merge, using
[Conventional Commits](https://www.conventionalcommits.org/en/v1.0.0/). Good
examples:

- `feat: add vi.ophim`
- `fix(vi.ophim): update base url`
- `feat(vi.ophim): add filtering and home listings`
- `chore: remove en.example`

## Source checklist

Before submitting, please work through the following:

- [ ] The source compiles without any warnings or errors
- [ ] `cargo fmt` has been run before submission
- [ ] `cargo clippy` outputs no lint warnings (`cargo clippy -- -D warnings`)
- [ ] All files have an additional newline at the end
- [ ] JSON files use tabs for indentation
- [ ] `komorei verify <path to package.krx>` passes

## Minimum source functionality

Sources should generally:

- Set `contentRating` on the packaged `source.json`
- Implement `ListingProvider`/home listings when the site supports them
- Implement `DeepLinkHandler` for series and episode urls, if possible
- Have filter options in the source matching the site's filters

Implementing home pages and listings is encouraged but not required for all
sources. The OPhim and demo sources in this repo are good references.

## Templates

Sites that share the same backend (WordPress themes, etc.) should reuse a
[template crate](templates/) instead of duplicating parser code. Templates
provide a `Params` struct for per-source configuration and an `Impl` trait
with the shared logic.
"#;

/// The README placed in `templates/`.
pub const TEMPLATES_README: &'static str = "# Templates\n\nShared template crates used by multiple sources. See\n[CONTRIBUTING.md](../CONTRIBUTING.md) for when to create one.\n";

/// The placeholder in the README template that the repository name replaces.
pub const REPO_NAME_PLACEHOLDER: &'static str = "{{REPO_NAME}}";

/// `s` with every occurrence of `from`, found left to right without overlap, replaced by
/// `to`.
pub open spec fn replace_all(s: Seq<char>, from: Seq<char>, to: Seq<char>) -> Seq<char>
    decreases s.len(),
{
    if from.len() == 0 || s.len() < from.len() {
        s
    } else if s.take(from.len() as int) == from {
        to + replace_all(s.skip(from.len() as int), from, to)
    } else {
        seq![s[0]] + replace_all(s.drop_first(), from, to)
    }
}

/// Calls `str::replace` with a non-empty pattern: every match of `from`, found left to
/// right without overlap, is replaced by `to`.
#[verifier::external_body]
fn str_replace(s: &str, from: &str, to: &str) -> (out: String)
    requires
        from@.len() > 0,
    ensures
        out@ == replace_all(s@, from@, to@),
{
    s.replace(from, to)
}

/// `template` with the repository name put in for every `{{REPO_NAME}}` placeholder.
pub fn fill_repo_name(template: &str, repo_name: &str) -> (out: String)
    ensures
        out@ == replace_all(template@, REPO_NAME_PLACEHOLDER@, repo_name@),
{
    proof {
        reveal_strlit("{{REPO_NAME}}");
    }
    str_replace(template, REPO_NAME_PLACEHOLDER, repo_name)
}

/// The name of a new repository: the one given, else the name of its directory, else
/// "Komorei Sources".
pub fn repo_name(name: Option<String>, dir_name: Option<String>) -> (out: String)
    ensures
        name matches Some(n) ==> out == n,
        name is None && dir_name is Some ==> out == dir_name->0,
        name is None && dir_name is None ==> out@ == DEFAULT_NAME@,
{
    match name {
        Some(n) => n,
        None => match dir_name {
            Some(d) => d,
            None => DEFAULT_NAME.to_owned(),
        },
    }
}

/// The name of a built source list: the one given, else [`DEFAULT_NAME`].
pub fn list_name(name: Option<String>) -> (out: String)
    ensures
        name matches Some(n) ==> out == n,
        name is None ==> out@ == DEFAULT_NAME@,
{
    match name {
        Some(n) => n,
        None => DEFAULT_NAME.to_owned(),
    }
}

/// A file that scaffolding a repository writes, by its path relative to the root.
#[derive(Debug, Clone, PartialEq)]
pub struct ScaffoldFile {
    pub path: String,
    pub contents: String,
}

/// The directories that scaffolding a repository creates, in order.
pub fn scaffold_dirs() -> (dirs: Vec<String>)
    ensures
        dirs@.len() == 2,
        dirs@[0]@ == "sources"@,
        dirs@[1]@ == "templates"@,
{
    let mut dirs: Vec<String> = Vec::new();
    dirs.push("sources".to_owned());
    dirs.push("templates".to_owned());
    dirs
}

fn scaffold_file(path: &str, contents: &str) -> (f: ScaffoldFile)
    ensures
        f.path@ == path@,
        f.contents@ == contents@,
{
    ScaffoldFile { path: path.to_owned(), contents: contents.to_owned() }
}

/// The files that scaffolding a repository named `repo_name` writes, in order; the
/// README has the name put in for its placeholder.
pub fn scaffold_files(repo_name: &str) -> (files: Vec<ScaffoldFile>)
    ensures
        files@.len() == 7,
        files@[0].path@ == ".gitignore"@ && files@[0].contents@ == REPO_GITIGNORE@,
        files@[1].path@ == "rustfmt.toml"@ && files@[1].contents@ == REPO_RUSTFMT@,
        files@[2].path@ == "README.md"@ && files@[2].contents@ == replace_all(
            REPO_README@,
            REPO_NAME_PLACEHOLDER@,
            repo_name@,
        ),
        files@[3].path@ == "CONTRIBUTING.md"@ && files@[3].contents@ == REPO_CONTRIBUTING@,
        files@[4].path@ == ".github/workflows/build.yaml"@ && files@[4].contents@
            == REPO_BUILD_WORKFLOW@,
        files@[5].path@ == ".github/workflows/pr.yaml"@ && files@[5].contents@
            == REPO_PR_WORKFLOW@,
        files@[6].path@ == "templates/README.md"@ && files@[6].contents@ == TEMPLATES_README@,
{
    let mut files: Vec<ScaffoldFile> = Vec::new();
    files.push(scaffold_file(".gitignore", REPO_GITIGNORE));
    files.push(scaffold_file("rustfmt.toml", REPO_RUSTFMT));
    let readme = fill_repo_name(REPO_README, repo_name);
    files.push(ScaffoldFile { path: "README.md".to_owned(), contents: readme });
    files.push(scaffold_file("CONTRIBUTING.md", REPO_CONTRIBUTING));
    files.push(scaffold_file(".github/workflows/build.yaml", REPO_BUILD_WORKFLOW));
    files.push(scaffold_file(".github/workflows/pr.yaml", REPO_PR_WORKFLOW));
    files.push(scaffold_file("templates/README.md", TEMPLATES_README));
    files
}

/// What scaffolding does with a file path: it never overwrites an existing file.
#[derive(PartialEq, Eq, Structural, Clone, Copy, Debug)]
pub enum ScaffoldAction {
    /// Leave the existing file alone.
    Skip,
    /// Write the file.
    Create,
}

/// What scaffolding does with a path, by whether it exists.
pub open spec fn action_for(exists: bool) -> ScaffoldAction {
    if exists {
        ScaffoldAction::Skip
    } else {
        ScaffoldAction::Create
    }
}

/// The paths of `plan` that a scaffolding run creates when `existing` are the paths
/// already there.
pub open spec fn scaffold_writes(existing: Set<Seq<char>>, plan: Seq<Seq<char>>) -> Set<
    Seq<char>,
> {
    Set::new(
        |p: Seq<char>| plan.contains(p) && action_for(existing.contains(p)) == ScaffoldAction::Create,
    )
}

/// Scaffolding twice is scaffolding once: after a first run every planned path exists,
/// and a second run creates nothing, leaving the repository as the first run left it.
pub proof fn lemma_scaffold_twice_is_once(existing: Set<Seq<char>>, plan: Seq<Seq<char>>)
    ensures
        plan.to_set().subset_of(existing.union(scaffold_writes(existing, plan))),
        scaffold_writes(existing.union(scaffold_writes(existing, plan)), plan) == Set::<
            Seq<char>,
        >::empty(),
{
    let after = existing.union(scaffold_writes(existing, plan));
    assert forall|p: Seq<char>| #[trigger] plan.to_set().contains(p) implies after.contains(p) by {
        if !existing.contains(p) {
            assert(scaffold_writes(existing, plan).contains(p));
        }
    }
    assert(scaffold_writes(after, plan) =~= Set::<Seq<char>>::empty());
}

/// Scaffolding writes a file only where none exists yet.
pub fn scaffold_action(exists: bool) -> (action: ScaffoldAction)
    ensures
        action == action_for(exists),
{
    if exists {
        ScaffoldAction::Skip
    } else {
        ScaffoldAction::Create
    }
}

/// Where to look for source crates, in order: `sources/` under the root, then, only when
/// `sources/` is not a directory, the root itself.
#[derive(PartialEq, Eq, Structural, Clone, Copy, Debug)]
pub enum Container {
    /// The `sources/` directory under the repository root.
    SourcesDir,
    /// The repository root itself.
    Root,
}

/// The containers that are scanned for source crates.
pub fn scanned_containers(sources_is_dir: bool) -> (containers: Vec<Container>)
    ensures
        sources_is_dir ==> containers@ == seq![Container::SourcesDir],
        !sources_is_dir ==> containers@ == seq![Container::SourcesDir, Container::Root],
{
    let mut containers: Vec<Container> = Vec::new();
    containers.push(Container::SourcesDir);
    if !sources_is_dir {
        containers.push(Container::Root);
    }
    containers
}

} // verus!
