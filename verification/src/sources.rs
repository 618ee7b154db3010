//! Evidence sources of a unified timeline: which files are disk-image
//! containers, and the collision-resistant id stamped on every event of a
//! source.

use vstd::prelude::*;
use crate::digest::{hex_encode, hex_lower, lemma_hex_lower_len, sha256, sha256_digest};
use crate::severity::{ascii_lower, to_ascii_lowercase};
use crate::text::{chars_of, owned, push_char, push_str, str_equals};

verus! {

/// Disk-image first-segment extensions, lowercase. Only the first segment of
/// a split set is nominated; the disk pipeline follows the rest itself.
pub open spec fn container_exts() -> Seq<Seq<char>> {
    seq![
        "e01"@, "ex01"@, "001"@, "dd"@, "img"@, "vmdk"@, "vhd"@, "vhdx"@, "qcow2"@, "aff4"@,
        "iso"@,
    ]
}

/// True when a file extension (without the dot, any letter case) names a
/// disk-image container.
pub fn is_container_ext(ext: &str) -> (b: bool)
    ensures
        b == container_exts().contains(ascii_lower(ext@)),
{
    let lower = to_ascii_lowercase(ext);
    let l = lower.as_str();
    let exts: [&str; 11] = ["e01", "ex01", "001", "dd", "img", "vmdk", "vhd", "vhdx", "qcow2", "aff4", "iso"];
    let mut k: usize = 0;
    while k < 11
        invariant
            k <= 11,
            l@ == ascii_lower(ext@),
            forall|j: int| 0 <= j < 11 ==> (#[trigger] exts@[j])@ == container_exts()[j],
            forall|j: int| 0 <= j < k ==> container_exts()[j] != l@,
        decreases 11 - k,
    {
        if str_equals(l, exts[k]) {
            assert(container_exts()[k as int] == l@);
            return true;
        }
        k = k + 1;
    }
    proof {
        if container_exts().contains(l@) {
            let j = choose|j: int| 0 <= j < container_exts().len() && container_exts()[j] == l@;
            assert(container_exts()[j] != l@);
        }
    }
    false
}

/// A stem character is kept when it is an ASCII letter or digit, `-` or `_`;
/// anything else becomes `_`.
pub open spec fn sanitize_char(c: char) -> char {
    if ('a' <= c <= 'z') || ('A' <= c <= 'Z') || ('0' <= c <= '9') || c == '-' || c == '_' {
        c
    } else {
        '_'
    }
}

/// A file stem made safe for an id.
pub open spec fn sanitize(stem: Seq<char>) -> Seq<char> {
    stem.map_values(|c: char| sanitize_char(c))
}

/// The base id of a source: its sanitized file stem (`source` when the path
/// has none), `-`, and the first 8 hex digits of the SHA-256 of its
/// canonical path.
pub open spec fn base_source_id(stem: Option<Seq<char>>, canonical: Seq<char>) -> Seq<char> {
    let s = match stem {
        Some(t) => t,
        None => "source"@,
    };
    sanitize(s) + "-"@ + hex_lower(sha256_digest(vstd::utf8::encode_utf8(canonical))).take(8)
}

fn sanitize_stem(stem: &str) -> (r: String)
    ensures
        r@ == sanitize(stem@),
{
    let cs = chars_of(stem);
    let mut r = String::new();
    let mut i: usize = 0;
    while i < cs.len()
        invariant
            i <= cs@.len(),
            cs@ == stem@,
            r@ == sanitize(stem@.take(i as int)),
        decreases cs.len() - i,
    {
        let c = cs[i];
        let keep = ('a' <= c && c <= 'z') || ('A' <= c && c <= 'Z') || ('0' <= c && c <= '9') || c
            == '-' || c == '_';
        if keep {
            push_char(&mut r, c);
        } else {
            push_char(&mut r, '_');
        }
        assert(sanitize(stem@.take(i + 1)) =~= sanitize(stem@.take(i as int)).push(sanitize_char(c)));
        i = i + 1;
    }
    assert(stem@.take(cs@.len() as int) =~= stem@);
    r
}

/// The collision-resistant base id of one source: sanitized stem (or
/// `source`) + `-` + 8 hex digits of the SHA-256 of the canonical path. Two
/// files with one stem in different directories get distinct ids; the id is
/// stable per path across runs.
pub fn source_id_for(stem: Option<&str>, canonical: &str) -> (r: String)
    ensures
        r@ == base_source_id(
            match stem {
                Some(t) => Some(t@),
                None => None,
            },
            canonical@,
        ),
{
    let mut r = match stem {
        Some(t) => sanitize_stem(t),
        None => sanitize_stem("source"),
    };
    push_str(&mut r, "-");
    let digest = sha256(canonical.as_bytes());
    let hex = hex_encode(digest.as_slice());
    proof {
        lemma_hex_lower_len(digest@);
    }
    let hs = chars_of(hex.as_str());
    let ghost head = r@;
    let mut i: usize = 0;
    while i < 8
        invariant
            i <= 8,
            hs@ == hex_lower(sha256_digest(vstd::utf8::encode_utf8(canonical@))),
            hs@.len() == 64,
            r@ == head + hs@.take(i as int),
        decreases 8 - i,
    {
        push_char(&mut r, hs[i]);
        assert(hs@.take(i + 1) =~= hs@.take(i as int).push(hs@[i as int]));
        i = i + 1;
    }
    r
}

/// `n` underscores.
pub open spec fn underscores(n: nat) -> Seq<char> {
    Seq::new(n, |i: int| '_')
}

/// The longest of a list of ids.
pub open spec fn max_len(ids: Seq<Seq<char>>) -> nat
    decreases ids.len(),
{
    if ids.len() == 0 {
        0
    } else {
        let m = max_len(ids.drop_last());
        if ids.last().len() > m {
            ids.last().len()
        } else {
            m
        }
    }
}

proof fn lemma_max_len(ids: Seq<Seq<char>>)
    ensures
        forall|j: int| 0 <= j < ids.len() ==> (#[trigger] ids[j]).len() <= max_len(ids),
    decreases ids.len(),
{
    if ids.len() > 0 {
        lemma_max_len(ids.drop_last());
        assert forall|j: int| 0 <= j < ids.len() implies (#[trigger] ids[j]).len() <= max_len(ids) by {
            if j < ids.len() - 1 {
                assert(ids[j] == ids.drop_last()[j]);
            }
        }
    }
}

/// The first of `base`, `base_`, `base__`, ... (from `k` underscores on) that
/// is not among `seen`.
pub open spec fn fresh_from(base: Seq<char>, seen: Seq<Seq<char>>, k: nat) -> Seq<char>
    decreases max_len(seen) + 1 - (base.len() + k),
{
    let c = base + underscores(k);
    if !seen.contains(c) || base.len() + k > max_len(seen) {
        c
    } else {
        fresh_from(base, seen, k + 1)
    }
}

/// The ids given to a list of base ids, in order: each base id, extended by
/// the fewest underscores that make it differ from every id given before.
pub open spec fn unique_ids(bases: Seq<Seq<char>>) -> Seq<Seq<char>>
    decreases bases.len(),
{
    if bases.len() == 0 {
        seq![]
    } else {
        let prev = unique_ids(bases.drop_last());
        prev.push(fresh_from(bases.last(), prev, 0))
    }
}

proof fn lemma_fresh_from(base: Seq<char>, seen: Seq<Seq<char>>, k: nat)
    ensures
        !seen.contains(fresh_from(base, seen, k)),
        exists|m: nat| m >= k && fresh_from(base, seen, k) == base + underscores(m),
    decreases max_len(seen) + 1 - (base.len() + k),
{
    let c = base + underscores(k);
    lemma_max_len(seen);
    if !seen.contains(c) || base.len() + k > max_len(seen) {
        if seen.contains(c) {
            let j = choose|j: int| 0 <= j < seen.len() && seen[j] == c;
            assert(seen[j].len() <= max_len(seen));
        }
    } else {
        lemma_fresh_from(base, seen, k + 1);
        let m = choose|m: nat| m >= k + 1 && fresh_from(base, seen, k + 1) == base + underscores(m);
        assert(fresh_from(base, seen, k) == base + underscores(m));
    }
}

/// One attributable evidence source: a path to ingest and its id.
#[derive(Debug, Clone, PartialEq, Eq)]
pub struct EvidenceSource {
    /// The path the ingest pipeline opens (a container file or a directory of
    /// loose artifacts).
    pub path: String,
    /// The collision-resistant id stamped onto every event from `path`.
    pub source_id: String,
}

/// A path to ingest, with what its id is computed from: the file stem (when
/// the path has one) and the canonical path text.
#[derive(Debug, Clone, PartialEq, Eq)]
pub struct SourceCandidate {
    pub path: String,
    pub stem: Option<String>,
    pub canonical: String,
}

/// The base id of a candidate.
pub open spec fn candidate_base(c: SourceCandidate) -> Seq<char> {
    base_source_id(
        match c.stem {
            Some(t) => Some(t@),
            None => None,
        },
        c.canonical@,
    )
}

/// True when `id` equals one of `seen`.
fn contains_id(seen: &Vec<String>, id: &str) -> (b: bool)
    ensures
        b == seen@.map_values(|s: String| s@).contains(id@),
{
    let ghost sv = seen@.map_values(|s: String| s@);
    let mut k: usize = 0;
    while k < seen.len()
        invariant
            k <= seen@.len(),
            sv == seen@.map_values(|s: String| s@),
            forall|j: int| 0 <= j < k ==> sv[j] != id@,
        decreases seen.len() - k,
    {
        if str_equals(seen[k].as_str(), id) {
            assert(sv[k as int] == id@);
            return true;
        }
        k = k + 1;
    }
    proof {
        if sv.contains(id@) {
            let j = choose|j: int| 0 <= j < sv.len() && sv[j] == id@;
            assert(sv[j] != id@);
        }
    }
    false
}

/// Resolve candidate paths (already expanded: one per container image, or
/// one per directory of loose artifacts, or one per file) into attributable
/// sources. Each gets its base id; should two candidates give the same id
/// (two inputs naming one file), the later one is extended with underscores
/// until it is unique.
pub fn resolve_evidence_sources(candidates: &[SourceCandidate]) -> (r: Vec<EvidenceSource>)
    ensures
        r@.len() == candidates@.len(),
        forall|i: int| 0 <= i < r@.len() ==> (#[trigger] r@[i]).path@ == candidates@[i].path@,
        r@.map_values(|s: EvidenceSource| s.source_id@) == unique_ids(
            candidates@.map_values(|c: SourceCandidate| candidate_base(c)),
        ),
{
    let ghost bases = candidates@.map_values(|c: SourceCandidate| candidate_base(c));
    let mut out: Vec<EvidenceSource> = Vec::new();
    let mut seen: Vec<String> = Vec::new();
    let mut i: usize = 0;
    while i < candidates.len()
        invariant
            i <= candidates@.len(),
            bases == candidates@.map_values(|c: SourceCandidate| candidate_base(c)),
            out@.len() == i,
            seen@.len() == i,
            forall|j: int| 0 <= j < i ==> (#[trigger] out@[j]).path@ == candidates@[j].path@,
            forall|j: int| 0 <= j < i ==> (#[trigger] out@[j]).source_id@ == seen@[j]@,
            seen@.map_values(|s: String| s@) == unique_ids(bases.take(i as int)),
        decreases candidates.len() - i,
    {
        let c = &candidates[i];
        let stem = match &c.stem {
            Some(t) => Some(t.as_str()),
            None => None,
        };
        let mut id = source_id_for(stem, c.canonical.as_str());
        let ghost prev = seen@.map_values(|s: String| s@);
        let ghost base = id@;
        assert(base == bases[i as int]);
        proof {
            lemma_max_len(prev);
            assert(base + underscores(0) =~= base);
        }
        let ghost mut k: nat = 0;
        while contains_id(&seen, id.as_str())
            invariant
                prev == seen@.map_values(|s: String| s@),
                id@ == base + underscores(k),
                fresh_from(base, prev, 0) == fresh_from(base, prev, k),
                forall|j: int| 0 <= j < prev.len() ==> (#[trigger] prev[j]).len() <= max_len(prev),
            decreases max_len(prev) + 1 - id@.len(),
        {
            proof {
                let j = choose|j: int| 0 <= j < prev.len() && prev[j] == id@;
                assert(prev[j].len() <= max_len(prev));
            }
            push_char(&mut id, '_');
            proof {
                assert(base + underscores(k + 1) =~= (base + underscores(k)).push('_'));
                k = k + 1;
            }
        }
        assert(fresh_from(base, prev, k) == id@);
        proof {
            assert(bases.take(i + 1).drop_last() =~= bases.take(i as int));
        }
        seen.push(id.clone());
        out.push(EvidenceSource { path: c.path.clone(), source_id: id });
        proof {
            assert(seen@.map_values(|s: String| s@) =~= prev.push(fresh_from(base, prev, 0)));
        }
        i = i + 1;
    }
    proof {
        assert(bases.take(candidates@.len() as int) =~= bases);
        assert(out@.map_values(|s: EvidenceSource| s.source_id@) =~= seen@.map_values(|s: String| s@));
    }
    out
}

/// Source ids never collide: whatever the candidates, the ids given are
/// pairwise distinct, and each is its candidate's base id followed only by
/// underscores.
pub proof fn law_source_ids_are_unique(bases: Seq<Seq<char>>)
    ensures
        unique_ids(bases).len() == bases.len(),
        forall|i: int, j: int|
            0 <= i < j < bases.len() ==> unique_ids(bases)[i] != unique_ids(bases)[j],
        forall|i: int|
            0 <= i < bases.len() ==> exists|m: nat| #[trigger] unique_ids(bases)[i] == bases[i] + underscores(m),
    decreases bases.len(),
{
    if bases.len() > 0 {
        let rest = bases.drop_last();
        law_source_ids_are_unique(rest);
        let prev = unique_ids(rest);
        let b = bases.last();
        lemma_fresh_from(b, prev, 0);
        let ids = unique_ids(bases);
        assert forall|i: int, j: int| 0 <= i < j < bases.len() implies ids[i] != ids[j] by {
            if j == bases.len() - 1 {
                assert(prev[i] == ids[i]);
                assert(prev.contains(ids[i]));
            } else {
                assert(ids[i] == prev[i] && ids[j] == prev[j]);
            }
        }
        assert forall|i: int| 0 <= i < bases.len() implies exists|m: nat|
            #[trigger] ids[i] == bases[i] + underscores(m) by {
            if i < bases.len() - 1 {
                assert(ids[i] == prev[i]);
                assert(bases[i] == rest[i]);
            }
        }
    }
}

/// A base id starts with the file stem (or `source`) character for
/// character, save that every character other than an ASCII letter or digit,
/// `-` or `_` becomes `_`; then comes a `-` and the first 8 hex digits of
/// the digest of the canonical path.
pub proof fn law_base_id_keeps_safe_stem(stem: Option<Seq<char>>, canonical: Seq<char>)
    ensures
        ({
            let s = match stem {
                Some(t) => t,
                None => "source"@,
            };
            let id = base_source_id(stem, canonical);
            let digest_hex = hex_lower(sha256_digest(vstd::utf8::encode_utf8(canonical)));
            &&& id.len() > s.len()
            &&& id[s.len() as int] == '-'
            &&& forall|i: int|
                0 <= i < s.len() ==> {
                    let c = s[i];
                    let safe = ('a' <= c <= 'z') || ('A' <= c <= 'Z') || ('0' <= c <= '9') || c == '-' || c == '_';
                    &&& safe ==> #[trigger] id[i] == c
                    &&& !safe ==> id[i] == '_'
                }
            &&& id.subrange(s.len() + 1int, id.len() as int) == digest_hex.take(8)
        }),
{
    let s = match stem {
        Some(t) => t,
        None => "source"@,
    };
    let id = base_source_id(stem, canonical);
    let digest_hex = hex_lower(sha256_digest(vstd::utf8::encode_utf8(canonical)));
    reveal_strlit("-");
    assert(id =~= sanitize(s) + seq!['-'] + digest_hex.take(8));
    assert(id.subrange(s.len() + 1int, id.len() as int) =~= digest_hex.take(8));
}

} // verus!
