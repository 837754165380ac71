//! The file registry: the queue of pending canonical paths and the map
//! from digest key to path.
//!
//! Canonicalization itself is filesystem work and happens outside; the
//! registry receives each supplied path together with the result of
//! canonicalizing it, and owns every decision: which candidates are
//! accepted, how duplicates are dropped, when startup fails, and how
//! digest entries are recorded under the first-writer-wins rule.

use vstd::prelude::*;

use crate::errors::Error;
use crate::hash::{digest_key, spec_digest_key};
use crate::strutil::str_eq;

verus! {

/// A supplied path together with the result of canonicalizing it:
/// its unique absolute, symlink-resolved form, or nothing when it does
/// not resolve to an accessible file.
pub struct PathCandidate {
    pub supplied: String,
    pub canonical: Option<String>,
}

/// One digest entry: a lowercase-hex digest key and the canonical path
/// it stands for.
pub struct DigestEntry {
    pub digest: String,
    pub path: String,
}

/// The registry: pending canonical paths awaiting digesting, and the
/// recorded digest entries, keys unique.
pub struct Registry {
    pub pending: Vec<String>,
    pub entries: Vec<DigestEntry>,
}

/// What kind of object a path resolves to on the filesystem.
#[derive(Clone, Copy, Debug, PartialEq, Eq, Structural)]
pub enum FileKind {
    File,
    Directory,
    Symlink,
    Fifo,
    Socket,
    CharDevice,
    BlockDevice,
}

/// Whether a file of this kind can be read repeatedly and from the
/// start, as opposed to a single-consumption stream.
pub open spec fn spec_is_multiread(k: FileKind) -> bool {
    !(k is Fifo || k is Socket)
}

/// Check whether a file kind does not represent a single-read file.
pub fn is_multiread_md(k: &FileKind) -> (r: bool)
    ensures
        r == spec_is_multiread(*k),
{
    match k {
        FileKind::Fifo => false,
        FileKind::Socket => false,
        _ => true,
    }
}

/// The digest-to-path association as pairs of character strings.
pub open spec fn spec_entry_view(e: DigestEntry) -> (Seq<char>, Seq<char>) {
    (e.digest@, e.path@)
}

/// The path recorded under `d` in `m`: the first entry whose key is `d`.
pub open spec fn spec_lookup(m: Seq<(Seq<char>, Seq<char>)>, d: Seq<char>) -> Option<Seq<char>>
    decreases m.len(),
{
    if m.len() == 0 {
        None
    } else if m.first().0 == d {
        Some(m.first().1)
    } else {
        spec_lookup(m.drop_first(), d)
    }
}

/// Whether `m` already holds an entry under the key `d`.
pub open spec fn spec_contains_digest(m: Seq<(Seq<char>, Seq<char>)>, d: Seq<char>) -> bool {
    spec_lookup(m, d) is Some
}

/// The first digest recorded for the path `p` in `m`.
pub open spec fn spec_lookup_path(m: Seq<(Seq<char>, Seq<char>)>, p: Seq<char>) -> Option<
    Seq<char>,
>
    decreases m.len(),
{
    if m.len() == 0 {
        None
    } else if m.first().1 == p {
        Some(m.first().0)
    } else {
        spec_lookup_path(m.drop_first(), p)
    }
}

/// Recording under the first-writer-wins rule: when the key is already
/// present the map is unchanged, otherwise the entry is appended.
pub open spec fn spec_after_record(
    m: Seq<(Seq<char>, Seq<char>)>,
    d: Seq<char>,
    p: Seq<char>,
) -> Seq<(Seq<char>, Seq<char>)> {
    if spec_contains_digest(m, d) {
        m
    } else {
        m.push((d, p))
    }
}

/// A key is recorded exactly when some entry carries it.
pub proof fn lemma_lookup_some_iff_exists(m: Seq<(Seq<char>, Seq<char>)>, d: Seq<char>)
    ensures
        spec_contains_digest(m, d) <==> exists|i: int| 0 <= i < m.len() && m[i].0 == d,
    decreases m.len(),
{
    if m.len() > 0 {
        lemma_lookup_some_iff_exists(m.drop_first(), d);
        if m.first().0 == d {
        } else {
            assert forall|i: int| 0 <= i < m.len() && m[i].0 == d implies spec_contains_digest(
                m,
                d,
            ) by {
                assert(m.drop_first()[i - 1] == m[i]);
            }
            if spec_contains_digest(m.drop_first(), d) {
                let i = choose|i: int|
                    0 <= i < m.drop_first().len() && m.drop_first()[i].0 == d;
                assert(m[i + 1] == m.drop_first()[i]);
            }
        }
    }
}

/// Appending a fresh entry makes its key found; a present key keeps its
/// recorded path.
pub proof fn lemma_lookup_push(m: Seq<(Seq<char>, Seq<char>)>, d: Seq<char>, p: Seq<char>, q: Seq<
    char,
>)
    ensures
        spec_lookup(m.push((d, p)), q) == if spec_contains_digest(m, q) {
            spec_lookup(m, q)
        } else if q == d {
            Some(p)
        } else {
            None::<Seq<char>>
        },
    decreases m.len(),
{
    if m.len() == 0 {
        assert(m.push((d, p)).first() == (d, p));
        assert(m.push((d, p)).len() == 1);
    } else {
        assert(m.push((d, p)).first() == m.first());
        assert(m.push((d, p)).drop_first() =~= m.drop_first().push((d, p)));
        lemma_lookup_push(m.drop_first(), d, p, q);
    }
}

/// First writer wins: recording a key that is already present changes
/// nothing, and the path first recorded under it is retained.
pub proof fn lemma_first_writer_wins(m: Seq<(Seq<char>, Seq<char>)>, d: Seq<char>, p: Seq<char>)
    requires
        spec_contains_digest(m, d),
    ensures
        spec_after_record(m, d, p) == m,
        spec_lookup(spec_after_record(m, d, p), d) == spec_lookup(m, d),
{
}

/// Recording the same digest entry twice is the same as recording it
/// once: draining a duplicate of an already-digested path adds nothing.
pub proof fn lemma_record_idempotent(m: Seq<(Seq<char>, Seq<char>)>, d: Seq<char>, p: Seq<char>)
    ensures
        spec_after_record(spec_after_record(m, d, p), d, p) == spec_after_record(m, d, p),
{
    if !spec_contains_digest(m, d) {
        lemma_lookup_push(m, d, p, d);
    }
}

/// Draining the same canonical path twice, with its contents unchanged,
/// leaves exactly the entries of draining it once: the deduplication key
/// is the canonical path's digest, and the second recording is a no-op.
pub proof fn lemma_same_path_drained_once(
    m: Seq<(Seq<char>, Seq<char>)>,
    p: Seq<char>,
    data: Seq<u8>,
)
    ensures
        spec_after_record(
            spec_after_record(m, spec_digest_key(data), p),
            spec_digest_key(data),
            p,
        ) == spec_after_record(m, spec_digest_key(data), p),
{
    lemma_record_idempotent(m, spec_digest_key(data), p);
}

/// Retrieval round trip: looking up the key just recorded for a path
/// yields that path.
pub proof fn lemma_lookup_after_record(m: Seq<(Seq<char>, Seq<char>)>, d: Seq<char>, p: Seq<char>)
    requires
        !spec_contains_digest(m, d),
    ensures
        spec_lookup(spec_after_record(m, d, p), d) == Some(p),
{
    lemma_lookup_push(m, d, p, d);
}

/// The valid canonical paths of a candidate list, in order, duplicates
/// kept.
pub open spec fn spec_canon_seq(cs: Seq<PathCandidate>) -> Seq<Seq<char>>
    decreases cs.len(),
{
    if cs.len() == 0 {
        Seq::empty()
    } else {
        spec_canon_seq(cs.drop_last()) + match cs.last().canonical {
            Some(p) => seq![p@],
            None => Seq::empty(),
        }
    }
}

/// First-occurrence deduplication: each string is kept at its first
/// position and dropped afterwards.
pub open spec fn spec_dedup(s: Seq<Seq<char>>) -> Seq<Seq<char>>
    decreases s.len(),
{
    if s.len() == 0 {
        Seq::empty()
    } else {
        let rest = spec_dedup(s.drop_last());
        if rest.contains(s.last()) {
            rest
        } else {
            rest.push(s.last())
        }
    }
}

/// Deduplication is faithful: the result holds each string at most
/// once, and it holds a string exactly when the input did. So a path
/// supplied twice stands in the accepted queue exactly once.
pub proof fn lemma_dedup_faithful(s: Seq<Seq<char>>)
    ensures
        forall|i: int, j: int|
            0 <= i < j < spec_dedup(s).len() ==> spec_dedup(s)[i] != spec_dedup(s)[j],
        forall|x: Seq<char>| #[trigger] spec_dedup(s).contains(x) <==> s.contains(x),
    decreases s.len(),
{
    if s.len() > 0 {
        let rest = spec_dedup(s.drop_last());
        let last = s.last();
        lemma_dedup_faithful(s.drop_last());
        assert forall|x: Seq<char>| s.contains(x) implies (s.drop_last().contains(x) || x
            == last) by {
            let i = choose|i: int| 0 <= i < s.len() && s[i] == x;
            if i < s.len() - 1 {
                assert(s.drop_last()[i] == x);
            }
        }
        assert forall|x: Seq<char>| s.drop_last().contains(x) implies s.contains(x) by {
            let i = choose|i: int| 0 <= i < s.drop_last().len() && s.drop_last()[i] == x;
            assert(s[i] == x);
        }
        assert(s.contains(last));
        if rest.contains(last) {
        } else {
            let pushed = rest.push(last);
            assert forall|x: Seq<char>| pushed.contains(x) implies (rest.contains(x) || x
                == last) by {
                let i = choose|i: int| 0 <= i < pushed.len() && pushed[i] == x;
                if i < rest.len() {
                    assert(rest[i] == x);
                }
            }
            assert forall|x: Seq<char>| rest.contains(x) implies pushed.contains(x) by {
                let i = choose|i: int| 0 <= i < rest.len() && rest[i] == x;
                assert(pushed[i] == x);
            }
            assert(pushed.last() == last);
            assert(pushed.contains(last));
            assert forall|i: int, j: int|
                0 <= i < j < pushed.len() implies pushed[i] != pushed[j] by {
                if j == pushed.len() - 1 {
                    assert(pushed[i] == rest[i]);
                    assert(rest.contains(rest[i]) == rest.contains(pushed[i]));
                    if pushed[i] == last {
                        assert(rest.contains(last));
                    }
                }
            }
        }
    }
}

/// Deduplication keeps something exactly when there was something.
pub proof fn lemma_dedup_empty_iff(s: Seq<Seq<char>>)
    ensures
        spec_dedup(s).len() == 0 <==> s.len() == 0,
    decreases s.len(),
{
    if s.len() > 0 {
        lemma_dedup_empty_iff(s.drop_last());
    }
}

/// The position of the first candidate that failed canonicalization, or
/// the length when all succeeded.
pub open spec fn spec_first_invalid(cs: Seq<PathCandidate>) -> int
    decreases cs.len(),
{
    if cs.len() == 0 {
        0
    } else if cs.first().canonical is None {
        0
    } else {
        1 + spec_first_invalid(cs.drop_first())
    }
}

/// When everything before `i` canonicalized and `i` did not, `i` is the
/// first invalid position; when the whole list canonicalized, there is
/// none.
pub proof fn lemma_first_invalid_at(cs: Seq<PathCandidate>, i: int)
    requires
        0 <= i <= cs.len(),
        forall|j: int| 0 <= j < i ==> cs[j].canonical is Some,
        i < cs.len() ==> cs[i].canonical is None,
    ensures
        i < cs.len() ==> spec_first_invalid(cs) == i,
        i == cs.len() ==> spec_first_invalid(cs) >= cs.len(),
    decreases i,
{
    if i == 0 {
        if cs.len() > 0 && cs.first().canonical is Some {
            lemma_first_invalid_nonneg(cs.drop_first());
        }
    } else {
        assert(cs.first().canonical is Some);
        assert forall|j: int| 0 <= j < i - 1 implies cs.drop_first()[j].canonical is Some by {
            assert(cs.drop_first()[j] == cs[j + 1]);
        }
        assert(i - 1 < cs.drop_first().len() ==> cs.drop_first()[i - 1].canonical is None);
        lemma_first_invalid_at(cs.drop_first(), i - 1);
    }
}

proof fn lemma_first_invalid_nonneg(cs: Seq<PathCandidate>)
    ensures
        spec_first_invalid(cs) >= 0,
    decreases cs.len(),
{
    if cs.len() > 0 && cs.first().canonical is Some {
        lemma_first_invalid_nonneg(cs.drop_first());
    }
}

/// What initialization does with a candidate list: reject on the first
/// bad path in strict mode; fail when nothing valid is left; otherwise
/// accept the deduplicated canonical paths.
pub enum InitOutcome {
    Rejected { supplied: Seq<char> },
    NoValidPaths,
    Accepted { pending: Seq<Seq<char>> },
}

/// The initialization decision as a function of the candidates and the
/// strictness flag.
pub open spec fn spec_init_outcome(cs: Seq<PathCandidate>, strict: bool) -> InitOutcome {
    if strict && spec_first_invalid(cs) < cs.len() {
        InitOutcome::Rejected { supplied: cs[spec_first_invalid(cs)].supplied@ }
    } else if spec_dedup(spec_canon_seq(cs)).len() == 0 {
        InitOutcome::NoValidPaths
    } else {
        InitOutcome::Accepted { pending: spec_dedup(spec_canon_seq(cs)) }
    }
}

/// A registry constructed from no supplied paths at all fails with the
/// no-files error in strict and lenient mode alike, as does a lenient
/// registry whose candidates all failed canonicalization.
pub proof fn lemma_empty_input_rejected(cs: Seq<PathCandidate>, strict: bool)
    requires
        spec_canon_seq(cs).len() == 0,
        cs.len() == 0 || !strict,
    ensures
        spec_init_outcome(cs, strict) is NoValidPaths,
{
    lemma_dedup_empty_iff(spec_canon_seq(cs));
}

/// Strict and lenient mode diverge on a list with both a valid and an
/// invalid candidate: strict mode rejects the first invalid one, while
/// lenient mode accepts the valid remainder.
pub proof fn lemma_strict_vs_lenient(cs: Seq<PathCandidate>)
    requires
        spec_first_invalid(cs) < cs.len(),
        spec_canon_seq(cs).len() > 0,
    ensures
        spec_init_outcome(cs, true) is Rejected,
        spec_init_outcome(cs, false) is Accepted,
{
    lemma_dedup_empty_iff(spec_canon_seq(cs));
}

/// Whether some held string equals `x`.
fn contains_string(v: &Vec<String>, x: &String) -> (r: bool)
    ensures
        r == v@.map_values(|s: String| s@).contains(x@),
{
    let ghost view = v@.map_values(|s: String| s@);
    let n = v.len();
    for i in 0..n
        invariant
            n == v@.len(),
            view == v@.map_values(|s: String| s@),
            forall|j: int| 0 <= j < i ==> view[j] != x@,
    {
        if str_eq(v[i].as_str(), x.as_str()) {
            proof {
                assert(view[i as int] == x@);
            }
            return true;
        }
    }
    false
}

impl Registry {
    /// The pending queue as character strings.
    pub open spec fn spec_pending(self) -> Seq<Seq<char>> {
        self.pending@.map_values(|p: String| p@)
    }

    /// The digest map as pairs of character strings.
    pub open spec fn spec_entries(self) -> Seq<(Seq<char>, Seq<char>)> {
        self.entries@.map_values(|e: DigestEntry| spec_entry_view(e))
    }

    /// Well-formedness: digest keys are unique.
    pub open spec fn wf(self) -> bool {
        forall|i: int, j: int|
            0 <= i < j < self.spec_entries().len() ==> #[trigger] self.spec_entries()[i].0
                != #[trigger] self.spec_entries()[j].0
    }

    /// Two distinct positions of a well-formed registry hold distinct
    /// digest keys.
    pub proof fn lemma_wf_distinct(self, a: int, b: int)
        requires
            self.wf(),
            0 <= a < b < self.spec_entries().len(),
        ensures
            self.spec_entries()[a].0 != self.spec_entries()[b].0,
    {
    }

    /// Validate a candidate list into a registry. Every candidate is
    /// canonicalized by the caller; here duplicates of the same
    /// canonical path are dropped, a failed candidate is rejected in
    /// strict mode and skipped otherwise, and a list with no valid path
    /// is refused.
    pub fn new(candidates: &Vec<PathCandidate>, strict: bool) -> (r: Result<Registry, Error>)
        ensures
            match r {
                Ok(reg) => {
                    &&& spec_init_outcome(candidates@, strict) == (InitOutcome::Accepted {
                        pending: reg.spec_pending(),
                    })
                    &&& reg.spec_entries() == Seq::<(Seq<char>, Seq<char>)>::empty()
                    &&& reg.wf()
                },
                Err(e) => match e {
                    Error::InvalidFile(p) => spec_init_outcome(candidates@, strict)
                        == (InitOutcome::Rejected { supplied: p@ }),
                    Error::NoFiles => spec_init_outcome(candidates@, strict) is NoValidPaths,
                    _ => false,
                },
            },
    {
        let n = candidates.len();
        let mut files: Vec<String> = Vec::new();
        proof {
            assert(candidates@.take(0) =~= Seq::<PathCandidate>::empty());
        }
        for i in 0..n
            invariant
                n == candidates@.len(),
                files@.map_values(|s: String| s@) == spec_dedup(
                    spec_canon_seq(candidates@.take(i as int)),
                ),
                strict ==> forall|j: int| 0 <= j < i ==> candidates@[j].canonical is Some,
        {
            let ghost pref = candidates@.take(i as int);
            let ghost prefx = candidates@.take(i + 1);
            proof {
                assert(prefx.drop_last() =~= pref);
                assert(prefx.last() == candidates@[i as int]);
            }
            match &candidates[i].canonical {
                Some(p) => {
                    let ghost fv = files@.map_values(|s: String| s@);
                    if !contains_string(&files, p) {
                        files.push(p.clone());
                        proof {
                            assert(files@.map_values(|s: String| s@) =~= fv.push(p@));
                            assert(spec_canon_seq(prefx) =~= spec_canon_seq(pref).push(p@));
                            assert(spec_canon_seq(prefx).drop_last() =~= spec_canon_seq(pref));
                        }
                    } else {
                        proof {
                            assert(spec_canon_seq(prefx) =~= spec_canon_seq(pref).push(p@));
                            assert(spec_canon_seq(prefx).drop_last() =~= spec_canon_seq(pref));
                        }
                    }
                },
                None => {
                    if strict {
                        proof {
                            lemma_first_invalid_at(candidates@, i as int);
                        }
                        return Err(Error::InvalidFile(candidates[i].supplied.clone()));
                    }
                    proof {
                        assert(spec_canon_seq(prefx) =~= spec_canon_seq(pref));
                    }
                },
            }
        }
        proof {
            assert(candidates@.take(n as int) =~= candidates@);
            if strict {
                lemma_first_invalid_at(candidates@, n as int);
            }
        }
        if files.is_empty() {
            Err(Error::NoFiles)
        } else {
            let reg = Registry { pending: files, entries: Vec::new() };
            proof {
                assert(reg.spec_entries() =~= Seq::<(Seq<char>, Seq<char>)>::empty());
            }
            Ok(reg)
        }
    }

    /// Append the canonicalized candidates to the pending queue; a
    /// candidate that failed canonicalization is skipped. No error is
    /// raised for partial failures.
    pub fn enqueue(&mut self, files: &Vec<PathCandidate>)
        ensures
            final(self).spec_pending() == old(self).spec_pending() + spec_canon_seq(files@),
            final(self).entries == old(self).entries,
    {
        let n = files.len();
        proof {
            assert(files@.take(0) =~= Seq::<PathCandidate>::empty());
            assert(old(self).spec_pending() + spec_canon_seq(files@.take(0)) =~= old(
                self,
            ).spec_pending());
        }
        for i in 0..n
            invariant
                n == files@.len(),
                self.spec_pending() == old(self).spec_pending() + spec_canon_seq(
                    files@.take(i as int),
                ),
                self.entries == old(self).entries,
        {
            let ghost pref = files@.take(i as int);
            let ghost prefx = files@.take(i + 1);
            proof {
                assert(prefx.drop_last() =~= pref);
                assert(prefx.last() == files@[i as int]);
            }
            match &files[i].canonical {
                Some(p) => {
                    let ghost pv = self.spec_pending();
                    self.pending.push(p.clone());
                    proof {
                        assert(self.spec_pending() =~= pv.push(p@));
                        assert(spec_canon_seq(prefx) =~= spec_canon_seq(pref).push(p@));
                        assert(self.spec_pending() =~= old(self).spec_pending() + spec_canon_seq(
                            prefx,
                        ));
                    }
                },
                None => {
                    proof {
                        assert(spec_canon_seq(prefx) =~= spec_canon_seq(pref));
                    }
                },
            }
        }
        proof {
            assert(files@.take(n as int) =~= files@);
        }
    }

    /// Remove and return the front of the pending queue. Exactly one
    /// path leaves per call, so two concurrently draining loops never
    /// take the same path.
    pub fn pop_pending(&mut self) -> (r: Option<String>)
        ensures
            final(self).entries == old(self).entries,
            match r {
                Some(p) => old(self).spec_pending().len() > 0 && p@ == old(self).spec_pending()[0]
                    && final(self).spec_pending() == old(self).spec_pending().drop_first(),
                None => old(self).spec_pending().len() == 0 && final(self).spec_pending() == old(
                    self,
                ).spec_pending(),
            },
    {
        if self.pending.len() == 0 {
            None
        } else {
            let p = self.pending.remove(0);
            proof {
                assert(final(self).spec_pending() =~= old(self).spec_pending().drop_first());
            }
            Some(p)
        }
    }

    /// Record a digest entry under the first-writer-wins rule: when the
    /// key is already present, the call changes nothing.
    pub fn record_digest(&mut self, digest: String, path: String)
        ensures
            old(self).wf() ==> final(self).wf(),
            final(self).pending == old(self).pending,
            final(self).spec_entries() == spec_after_record(
                old(self).spec_entries(),
                digest@,
                path@,
            ),
    {
        let ghost m = self.spec_entries();
        let n = self.entries.len();
        for i in 0..n
            invariant
                n == self.entries@.len(),
                m == self.spec_entries(),
                *self == *old(self),
                forall|j: int| 0 <= j < i ==> m[j].0 != digest@,
        {
            if str_eq(self.entries[i].digest.as_str(), digest.as_str()) {
                proof {
                    assert(m[i as int].0 == digest@);
                    lemma_lookup_some_iff_exists(m, digest@);
                    assert(self.spec_entries() == old(self).spec_entries());
                    if old(self).wf() {
                        assert forall|a: int, b: int|
                            0 <= a < b < self.spec_entries().len() implies self.spec_entries()[a].0
                            != self.spec_entries()[b].0 by {
                            old(self).lemma_wf_distinct(a, b);
                        }
                    }
                }
                return;
            }
        }
        proof {
            lemma_lookup_some_iff_exists(m, digest@);
        }
        self.entries.push(DigestEntry { digest, path });
        proof {
            assert(self.spec_entries() =~= m.push((digest@, path@)));
            if old(self).wf() {
                assert forall|a: int, b: int|
                    0 <= a < b < self.spec_entries().len() implies self.spec_entries()[a].0
                    != self.spec_entries()[b].0 by {
                    if b < m.len() {
                        old(self).lemma_wf_distinct(a, b);
                    } else {
                        assert(m[a].0 != self.spec_entries()[b].0);
                    }
                }
            }
        }
    }

    /// Record the outcome of opening and reading one drained path. A
    /// path of a single-read kind is skipped without an entry and
    /// without an error, as is one whose contents could not be read;
    /// readable contents are recorded under their digest key.
    pub fn record_file(&mut self, path: &String, kind: FileKind, data: Option<&Vec<u8>>)
        ensures
            old(self).wf() ==> final(self).wf(),
            final(self).pending == old(self).pending,
            final(self).spec_entries() == if spec_is_multiread(kind) && data is Some {
                spec_after_record(
                    old(self).spec_entries(),
                    spec_digest_key(data.unwrap()@),
                    path@,
                )
            } else {
                old(self).spec_entries()
            },
    {
        if is_multiread_md(&kind) {
            match data {
                Some(bytes) => {
                    let key = digest_key(bytes);
                    self.record_digest(key, path.clone());
                },
                None => {},
            }
        }
    }

    /// The path recorded under a digest key, if any.
    pub fn lookup_by_digest(&self, digest: &str) -> (r: Option<String>)
        ensures
            match r {
                Some(p) => spec_lookup(self.spec_entries(), digest@) == Some(p@),
                None => spec_lookup(self.spec_entries(), digest@) is None,
            },
    {
        let ghost m = self.spec_entries();
        let n = self.entries.len();
        proof {
            assert(m.skip(0) =~= m);
        }
        for i in 0..n
            invariant
                n == self.entries@.len(),
                m == self.spec_entries(),
                spec_lookup(m, digest@) == spec_lookup(m.skip(i as int), digest@),
        {
            proof {
                assert(m.skip(i as int).first() == m[i as int]);
            }
            if str_eq(self.entries[i].digest.as_str(), digest) {
                return Some(self.entries[i].path.clone());
            }
            proof {
                assert(m.skip(i as int).drop_first() =~= m.skip(i + 1));
            }
        }
        proof {
            assert(m.skip(n as int).len() == 0);
        }
        None
    }

    /// The first digest recorded for a canonical path, if any: the
    /// inverse lookup, a linear scan.
    pub fn query_digest(&self, path: &str) -> (r: Option<String>)
        ensures
            match r {
                Some(d) => spec_lookup_path(self.spec_entries(), path@) == Some(d@),
                None => spec_lookup_path(self.spec_entries(), path@) is None,
            },
    {
        let ghost m = self.spec_entries();
        let n = self.entries.len();
        proof {
            assert(m.skip(0) =~= m);
        }
        for i in 0..n
            invariant
                n == self.entries@.len(),
                m == self.spec_entries(),
                spec_lookup_path(m, path@) == spec_lookup_path(m.skip(i as int), path@),
        {
            proof {
                assert(m.skip(i as int).first() == m[i as int]);
            }
            if str_eq(self.entries[i].path.as_str(), path) {
                return Some(self.entries[i].digest.clone());
            }
            proof {
                assert(m.skip(i as int).drop_first() =~= m.skip(i + 1));
            }
        }
        proof {
            assert(m.skip(n as int).len() == 0);
        }
        None
    }
}

} // verus!
