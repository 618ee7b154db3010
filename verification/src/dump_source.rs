//! Memory dumps delivered inside `.zip` archives: recognizing a zip by its
//! magic bytes, and choosing which archive entry holds the dump.

use vstd::prelude::*;
use crate::severity::{ascii_lower, to_ascii_lowercase};
use crate::text::{chars_of, str_equals};

verus! {

/// The zip local-file-header magic, `PK\x03\x04`.
pub open spec fn zip_magic() -> Seq<u8> {
    seq![0x50u8, 0x4B, 0x03, 0x04]
}

/// True when the bytes start with the zip magic: a zip is recognized by its
/// magic bytes, never by its extension.
pub fn is_zip(header: &[u8]) -> (b: bool)
    ensures
        b == (header@.len() >= 4 && header@.take(4) == zip_magic()),
{
    if header.len() < 4 {
        return false;
    }
    let b = header[0] == 0x50u8 && header[1] == 0x4Bu8 && header[2] == 0x03u8 && header[3] == 0x04u8;
    proof {
        if b {
            assert(header@.take(4) =~= zip_magic());
        } else {
            assert(header@.take(4) != zip_magic() ) by {
                if header@.take(4) == zip_magic() {
                    assert(header@.take(4)[0] == header@[0]);
                    assert(header@.take(4)[1] == header@[1]);
                    assert(header@.take(4)[2] == header@[2]);
                    assert(header@.take(4)[3] == header@[3]);
                }
            }
        }
    }
    b
}

/// Memory-dump extensions, lowercase, without the dot. They only make an
/// entry preferred; the dump's format is decided by its magic bytes.
pub open spec fn dump_exts() -> Seq<Seq<char>> {
    seq!["mem"@, "vmem"@, "lime"@, "raw"@, "dmp"@, "dump"@, "core"@, "vmss"@, "vmsn"@]
}

/// Index of the last occurrence of `c` in `s`, or -1.
pub open spec fn last_index_of(s: Seq<char>, c: char) -> int
    decreases s.len(),
{
    if s.len() == 0 {
        -1
    } else if s.last() == c {
        s.len() - 1
    } else {
        last_index_of(s.drop_last(), c)
    }
}

/// The extension of an archive entry name: what follows the last `.` of its
/// last `/`-separated component, when that `.` is not the component's first
/// character (a hidden name such as `.core` has no extension).
pub open spec fn entry_ext(name: Seq<char>) -> Option<Seq<char>> {
    let base = name.subrange(last_index_of(name, '/') + 1, name.len() as int);
    let dot = last_index_of(base, '.');
    if dot > 0 {
        Some(base.subrange(dot + 1, base.len() as int))
    } else {
        None
    }
}

/// One entry of a zip archive, as its central directory lists it.
#[derive(Debug, Clone, PartialEq, Eq)]
pub struct ZipEntryInfo {
    pub name: String,
    /// Uncompressed size in bytes.
    pub size: u64,
    pub is_dir: bool,
}

/// The entry is a file whose extension names a memory dump (any case).
pub open spec fn is_dump_named(e: ZipEntryInfo) -> bool {
    !e.is_dir && match entry_ext(e.name@) {
        Some(x) => dump_exts().contains(ascii_lower(x)),
        None => false,
    }
}

/// The entry chosen as the dump: the first file entry with a dump extension;
/// failing that, the largest file entry (the first of equal largest); `None`
/// when the archive holds no file entry.
pub open spec fn is_chosen_dump(es: Seq<ZipEntryInfo>, r: Option<usize>) -> bool {
    match r {
        Some(i) => {
            &&& i < es.len()
            &&& !es[i as int].is_dir
            &&& if exists|j: int| 0 <= j < es.len() && is_dump_named(#[trigger] es[j]) {
                &&& is_dump_named(es[i as int])
                &&& forall|j: int| 0 <= j < i ==> !is_dump_named(#[trigger] es[j])
            } else {
                &&& forall|j: int| 0 <= j < es.len() && !(#[trigger] es[j]).is_dir ==> es[j].size <= es[i as int].size
                &&& forall|j: int| 0 <= j < i && !(#[trigger] es[j]).is_dir ==> es[j].size < es[i as int].size
            }
        },
        None => forall|j: int| 0 <= j < es.len() ==> (#[trigger] es[j]).is_dir,
    }
}

proof fn lemma_last_index_of(s: Seq<char>, c: char)
    ensures
        -1 <= last_index_of(s, c) < s.len(),
        last_index_of(s, c) >= 0 ==> s[last_index_of(s, c)] == c,
        forall|k: int| last_index_of(s, c) < k < s.len() ==> s[k] != c,
    decreases s.len(),
{
    if s.len() > 0 && s.last() != c {
        let t = s.drop_last();
        lemma_last_index_of(t, c);
        assert forall|k: int| last_index_of(s, c) < k < s.len() implies s[k] != c by {
            if k < s.len() - 1 {
                assert(s[k] == t[k]);
            }
        }
    }
}

/// Index of the last `c` in `cs[lo..hi]`, or `lo - 1` when there is none.
fn last_index_in(cs: &Vec<char>, lo: usize, hi: usize, c: char) -> (r: usize)
    requires
        1 <= lo <= hi <= cs@.len(),
    ensures
        r as int == lo + last_index_of(cs@.subrange(lo as int, hi as int), c),
        r < hi,
{
    proof {
        lemma_last_index_of(cs@.subrange(lo as int, hi as int), c);
    }
    let mut i = hi;
    assert(cs@.subrange(lo as int, hi as int) =~= cs@.subrange(lo as int, i as int));
    while i > lo && cs[i - 1] != c
        invariant
            lo <= i <= hi,
            hi <= cs@.len(),
            last_index_of(cs@.subrange(lo as int, hi as int), c) == last_index_of(
                cs@.subrange(lo as int, i as int),
                c,
            ),
        decreases i,
    {
        assert(cs@.subrange(lo as int, i as int).drop_last() =~= cs@.subrange(lo as int, i - 1));
        i = i - 1;
    }
    if i == lo {
        assert(cs@.subrange(lo as int, lo as int) =~= Seq::<char>::empty());
    } else {
        assert(cs@.subrange(lo as int, i as int).last() == cs@[i - 1]);
    }
    i - 1
}

/// The extension of an entry name, as `entry_ext` describes it.
fn name_ext(name: &str) -> (r: Option<Vec<char>>)
    ensures
        match r {
            Some(v) => entry_ext(name@) == Some(v@),
            None => entry_ext(name@) is None,
        },
{
    // A leading sentinel keeps every index below at least 1.
    let mut cs: Vec<char> = Vec::new();
    cs.push(' ');
    let body = chars_of(name);
    let mut k: usize = 0;
    while k < body.len()
        invariant
            k <= body@.len(),
            body@ == name@,
            cs@ == seq![' '] + body@.take(k as int),
        decreases body.len() - k,
    {
        cs.push(body[k]);
        assert(body@.take(k + 1) =~= body@.take(k as int).push(body@[k as int]));
        k = k + 1;
    }
    assert(body@.take(body@.len() as int) =~= body@);
    let n = cs.len();
    let ghost nm = name@;
    assert(cs@.subrange(1, n as int) =~= nm);
    let slash = last_index_in(&cs, 1, n, '/');
    let start = slash + 1;
    proof {
        lemma_last_index_of(nm, '/');
    }
    let ghost base = nm.subrange(last_index_of(nm, '/') + 1, nm.len() as int);
    assert(cs@.subrange(start as int, n as int) =~= base);
    proof {
        lemma_last_index_of(base, '.');
    }
    let dot = last_index_in(&cs, start, n, '.');
    // `dot` is the sentinel-shifted index; the dot is the base's first
    // character exactly when `dot == start`, absent when `dot == start - 1`.
    if dot > start {
        let mut ext: Vec<char> = Vec::new();
        let mut p = dot + 1;
        while p < n
            invariant
                dot < p <= n,
                n == cs@.len(),
                ext@ == cs@.subrange(dot + 1, p as int),
            decreases n - p,
        {
            ext.push(cs[p]);
            assert(cs@.subrange(dot + 1, p + 1) =~= cs@.subrange(dot + 1, p as int).push(cs@[p as int]));
            p = p + 1;
        }
        proof {
            let d = last_index_of(base, '.');
            assert(dot == start + d);
            assert(base.subrange(d + 1, base.len() as int) =~= cs@.subrange(dot + 1, n as int));
        }
        Some(ext)
    } else {
        None
    }
}

/// True when a lowercase extension names a memory dump.
fn is_dump_ext(ext: &Vec<char>) -> (b: bool)
    ensures
        b == dump_exts().contains(ascii_lower(ext@)),
{
    let mut s = String::new();
    let mut k: usize = 0;
    while k < ext.len()
        invariant
            k <= ext@.len(),
            s@ == ext@.take(k as int),
        decreases ext.len() - k,
    {
        crate::text::push_char(&mut s, ext[k]);
        assert(ext@.take(k + 1) =~= ext@.take(k as int).push(ext@[k as int]));
        k = k + 1;
    }
    assert(ext@.take(ext@.len() as int) =~= ext@);
    let lower = to_ascii_lowercase(s.as_str());
    let l = lower.as_str();
    let exts: [&str; 9] = ["mem", "vmem", "lime", "raw", "dmp", "dump", "core", "vmss", "vmsn"];
    let mut j: usize = 0;
    while j < 9
        invariant
            j <= 9,
            l@ == ascii_lower(ext@),
            forall|q: int| 0 <= q < 9 ==> (#[trigger] exts@[q])@ == dump_exts()[q],
            forall|q: int| 0 <= q < j ==> dump_exts()[q] != l@,
        decreases 9 - j,
    {
        if str_equals(l, exts[j]) {
            assert(dump_exts()[j as int] == l@);
            return true;
        }
        j = j + 1;
    }
    proof {
        if dump_exts().contains(l@) {
            let q = choose|q: int| 0 <= q < dump_exts().len() && dump_exts()[q] == l@;
            assert(dump_exts()[q] != l@);
        }
    }
    false
}

fn entry_is_dump_named(e: &ZipEntryInfo) -> (b: bool)
    ensures
        b == is_dump_named(*e),
{
    if e.is_dir {
        return false;
    }
    match name_ext(e.name.as_str()) {
        Some(x) => is_dump_ext(&x),
        None => false,
    }
}

/// Choose the archive entry that holds the memory dump: the first file entry
/// whose extension names a dump; otherwise the largest file entry (a memory
/// dump dominates its archive; the first of equal largest); `None` when the
/// archive has no file entry at all.
pub fn choose_dump_entry(entries: &[ZipEntryInfo]) -> (r: Option<usize>)
    ensures
        is_chosen_dump(entries@, r),
{
    let mut i: usize = 0;
    while i < entries.len()
        invariant
            i <= entries@.len(),
            forall|j: int| 0 <= j < i ==> !is_dump_named(#[trigger] entries@[j]),
        decreases entries.len() - i,
    {
        if entry_is_dump_named(&entries[i]) {
            return Some(i);
        }
        i = i + 1;
    }
    let mut best: Option<usize> = None;
    let mut k: usize = 0;
    while k < entries.len()
        invariant
            k <= entries@.len(),
            forall|j: int| 0 <= j < entries@.len() ==> !is_dump_named(#[trigger] entries@[j]),
            match best {
                Some(b) => {
                    &&& b < k
                    &&& !entries@[b as int].is_dir
                    &&& forall|j: int| 0 <= j < k && !(#[trigger] entries@[j]).is_dir ==> entries@[j].size <= entries@[b as int].size
                    &&& forall|j: int| 0 <= j < b && !(#[trigger] entries@[j]).is_dir ==> entries@[j].size < entries@[b as int].size
                },
                None => forall|j: int| 0 <= j < k ==> (#[trigger] entries@[j]).is_dir,
            },
        decreases entries.len() - k,
    {
        if !entries[k].is_dir {
            match best {
                Some(b) => {
                    if entries[k].size > entries[b].size {
                        best = Some(k);
                    }
                },
                None => {
                    best = Some(k);
                },
            }
        }
        k = k + 1;
    }
    best
}

/// Text without `c` after a prefix leaves the prefix's last `c` where it was.
proof fn lemma_last_index_skips(s: Seq<char>, t: Seq<char>, c: char)
    requires
        forall|i: int| 0 <= i < t.len() ==> t[i] != c,
    ensures
        last_index_of(s + t, c) == last_index_of(s, c),
    decreases t.len(),
{
    if t.len() > 0 {
        let u = t.drop_last();
        assert(t[t.len() - 1] != c);
        lemma_last_index_skips(s, u, c);
        assert((s + t).drop_last() =~= s + u);
    } else {
        assert(s + t =~= s);
    }
}

/// The extension of an entry is what follows the last dot of its file name,
/// whatever directories come before it: for a name `dir/stem.ext` (or
/// `stem.ext`) with a non-empty stem, the extension is `ext`; a hidden name
/// `.ext` has none.
pub proof fn law_entry_ext_reads_suffix(dir: Seq<char>, stem: Seq<char>, ext: Seq<char>)
    requires
        forall|i: int| 0 <= i < stem.len() ==> stem[i] != '/',
        forall|i: int| 0 <= i < ext.len() ==> ext[i] != '/' && ext[i] != '.',
    ensures
        stem.len() > 0 ==> entry_ext(dir + seq!['/'] + stem + seq!['.'] + ext) == Some(ext),
        stem.len() > 0 ==> entry_ext(stem + seq!['.'] + ext) == Some(ext),
        entry_ext(seq!['.'] + ext) is None,
{
    let dotted = seq!['.'] + ext;
    let base = stem + dotted;
    assert forall|i: int| 0 <= i < base.len() implies base[i] != '/' by {
        if i >= stem.len() {
            assert(base[i] == dotted[i - stem.len()]);
        }
    }
    let pre = dir + seq!['/'];
    lemma_last_index_skips(pre, base, '/');
    assert(pre.drop_last() =~= dir);
    assert(last_index_of(pre, '/') == dir.len());
    assert(dir + seq!['/'] + stem + seq!['.'] + ext =~= pre + base);
    assert((pre + base).subrange(dir.len() + 1int, (pre + base).len() as int) =~= base);
    lemma_last_index_skips(Seq::<char>::empty(), base, '/');
    assert(Seq::<char>::empty() + base =~= base);
    assert(stem + seq!['.'] + ext =~= base);
    assert(base.subrange(0, base.len() as int) =~= base);
    let sd = stem + seq!['.'];
    lemma_last_index_skips(sd, ext, '.');
    assert(sd + ext =~= base);
    assert(sd.last() == '.');
    assert(last_index_of(sd, '.') == stem.len());
    assert(base.subrange(stem.len() + 1int, base.len() as int) =~= ext);
    assert forall|i: int| 0 <= i < dotted.len() implies dotted[i] != '/' by {
        if i > 0 {
            assert(dotted[i] == ext[i - 1]);
        }
    }
    lemma_last_index_skips(Seq::<char>::empty(), dotted, '/');
    assert(Seq::<char>::empty() + dotted =~= dotted);
    assert(dotted.subrange(0, dotted.len() as int) =~= dotted);
    lemma_last_index_skips(seq!['.'], ext, '.');
    assert(last_index_of(seq!['.'], '.') == 0);
}

} // verus!
