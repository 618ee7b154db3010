//! VHDX containers: recognizing a VHDX entry in an archive, recognizing the
//! file signature, and the errors of opening one.

use vstd::prelude::*;
use crate::severity::lower_char;
use crate::text::{chars_of, owned, push_str};

verus! {

/// Index of the last `/` or `\` in `s`, or -1 when there is none.
pub open spec fn last_separator(s: Seq<char>) -> int
    decreases s.len(),
{
    if s.len() == 0 {
        -1
    } else if s.last() == '/' || s.last() == '\\' {
        s.len() - 1
    } else {
        last_separator(s.drop_last())
    }
}

/// The base name of an entry path: what follows its last separator.
pub open spec fn base_name(s: Seq<char>) -> Seq<char> {
    s.subrange(last_separator(s) + 1, s.len() as int)
}

/// A name ends with `.vhdx` in any letter case and has a non-empty stem.
pub open spec fn is_vhdx_base(b: Seq<char>) -> bool {
    &&& b.len() > 5
    &&& b[b.len() - 5] == '.'
    &&& lower_char(b[b.len() - 4]) == 'v'
    &&& lower_char(b[b.len() - 3]) == 'h'
    &&& lower_char(b[b.len() - 2]) == 'd'
    &&& lower_char(b[b.len() - 1]) == 'x'
}

/// A zip entry names a VHDX container: not a directory entry (no trailing
/// `/`), and its base name is a non-empty stem followed by `.vhdx` (any case).
pub open spec fn spec_is_vhdx_entry(name: Seq<char>) -> bool {
    !(name.len() > 0 && name.last() == '/') && is_vhdx_base(base_name(name))
}

proof fn lemma_last_separator_bounds(s: Seq<char>)
    ensures
        -1 <= last_separator(s) < s.len(),
        forall|i: int| last_separator(s) < i < s.len() ==> s[i] != '/' && s[i] != '\\',
        last_separator(s) >= 0 ==> (s[last_separator(s)] == '/' || s[last_separator(s)] == '\\'),
    decreases s.len(),
{
    if s.len() > 0 && !(s.last() == '/' || s.last() == '\\') {
        let t = s.drop_last();
        lemma_last_separator_bounds(t);
        assert forall|i: int| last_separator(s) < i < s.len() implies s[i] != '/' && s[i] != '\\' by {
            if i < s.len() - 1 {
                assert(s[i] == t[i]);
            }
        }
    }
}

/// True when a zip entry names a VHDX container — a base name ending in
/// `.vhdx` (case-insensitive) with a non-empty stem. Excludes directory
/// entries and other artifacts.
pub fn is_vhdx_entry(name: &str) -> (b: bool)
    ensures
        b == spec_is_vhdx_entry(name@),
{
    let cs = chars_of(name);
    let n = cs.len();
    if n > 0 && cs[n - 1] == '/' {
        return false;
    }
    // Find the start of the base name.
    let mut i = n;
    assert(cs@.subrange(0, n as int) =~= cs@);
    while i > 0 && cs[i - 1] != '/' && cs[i - 1] != '\\'
        invariant
            i <= n,
            n == cs@.len(),
            last_separator(cs@) == last_separator(cs@.subrange(0, i as int)),
        decreases i,
    {
        assert(cs@.subrange(0, i as int).drop_last() =~= cs@.subrange(0, i - 1));
        i = i - 1;
    }
    proof {
        if i == 0 {
            assert(cs@.subrange(0, 0) =~= Seq::<char>::empty());
        } else {
            assert(cs@.subrange(0, i as int).last() == cs@[i - 1]);
        }
        assert(last_separator(cs@) == i - 1);
        assert(base_name(name@) =~= cs@.subrange(i as int, n as int));
    }
    // The base name is cs[i..n].
    let len = n - i;
    if len <= 5 {
        return false;
    }
    let ok = cs[n - 5] == '.' && lower(cs[n - 4]) == 'v' && lower(cs[n - 3]) == 'h' && lower(cs[n - 2]) == 'd'
        && lower(cs[n - 1]) == 'x';
    ok
}

/// ASCII lowercase of one character.
fn lower(c: char) -> (r: char)
    ensures
        r == lower_char(c),
{
    if 'A' <= c && c <= 'Z' {
        ((c as u8) + 32u8) as char
    } else {
        c
    }
}

/// Errors of opening a VHDX image.
#[derive(Debug, Clone, PartialEq, Eq)]
pub enum VhdxError {
    /// An I/O failure, with its message.
    Io(String),
    /// A malformed image, with the parser's message.
    Vhdx(String),
}

/// The message of a VHDX error.
pub open spec fn vhdx_error_message(e: VhdxError) -> Seq<char> {
    match e {
        VhdxError::Io(m) => "I/O error: "@ + m@,
        VhdxError::Vhdx(m) => "VHDX parse error: "@ + m@,
    }
}

impl VhdxError {
    /// The human-readable message: `I/O error: ...` or `VHDX parse error: ...`.
    pub fn message(&self) -> (r: String)
        ensures
            r@ == vhdx_error_message(*self),
    {
        match self {
            VhdxError::Io(m) => {
                let mut r = owned("I/O error: ");
                push_str(&mut r, m.as_str());
                r
            },
            VhdxError::Vhdx(m) => {
                let mut r = owned("VHDX parse error: ");
                push_str(&mut r, m.as_str());
                r
            },
        }
    }
}

/// The pipeline's general error.
#[derive(Debug, Clone, PartialEq, Eq)]
pub enum RtError {
    /// An I/O failure, with its message.
    Io(String),
    /// A parse failure at a byte offset.
    Parse { offset: u64, message: String },
    /// A container that opens but cannot be processed.
    UnsupportedFormat(String),
}

/// The conversion below is stated by the contract of its own `from`: the
/// parse message it builds is a run-time string, which no spec value can
/// name, so the generic `From` contract is given nothing (`obeys_from_spec`
/// is false and `from_spec` is left unspecified).
impl vstd::std_specs::convert::FromSpecImpl<VhdxError> for RtError {
    open spec fn obeys_from_spec() -> bool {
        false
    }

    open spec fn from_spec(v: VhdxError) -> RtError {
        vstd::pervasive::arbitrary()
    }
}

impl From<VhdxError> for RtError {
    fn from(e: VhdxError) -> (r: RtError)
        ensures
            match e {
                VhdxError::Io(m) => r == RtError::Io(m),
                VhdxError::Vhdx(m) => r matches RtError::Parse { offset, message } && offset == 0
                    && message@ == "vhdx: "@ + m@,
            },
    {
        match e {
            VhdxError::Io(m) => RtError::Io(m),
            VhdxError::Vhdx(m) => {
                let mut message = owned("vhdx: ");
                push_str(&mut message, m.as_str());
                RtError::Parse { offset: 0, message }
            },
        }
    }
}

/// How confidently a provider recognizes a container.
#[derive(Debug, Clone, Copy, PartialEq, Eq, Structural)]
pub enum Confidence {
    /// The bytes are not this provider's format.
    Unrecognized,
    Low,
    Medium,
    High,
}

/// The 8-byte VHDX file signature, `vhdxfile`.
pub open spec fn vhdx_signature() -> Seq<u8> {
    seq![0x76u8, 0x68, 0x64, 0x78, 0x66, 0x69, 0x6c, 0x65]
}

/// Format recognition for VHDX disk images.
#[derive(Debug, Default, Clone, Copy)]
pub struct VhdxProvider;

impl VhdxProvider {
    /// The provider's name, `VHDX`.
    pub fn name(&self) -> (r: &'static str)
        ensures
            r@ == "VHDX"@,
    {
        "VHDX"
    }

    /// Confidence from the first bytes of a file: `High` when the first eight
    /// bytes are `vhdxfile`, `Unrecognized` otherwise (including a file shorter than
    /// eight bytes).
    pub fn confidence_for_header(&self, header: &[u8]) -> (c: Confidence)
        ensures
            c == (if header@.len() >= 8 && header@.subrange(0, 8) == vhdx_signature() {
                Confidence::High
            } else {
                Confidence::Unrecognized
            }),
    {
        if header.len() < 8 {
            return Confidence::Unrecognized;
        }
        let sig: [u8; 8] = [0x76u8, 0x68, 0x64, 0x78, 0x66, 0x69, 0x6c, 0x65];
        let mut k: usize = 0;
        while k < 8
            invariant
                k <= 8,
                header@.len() >= 8,
                sig@ == vhdx_signature(),
                forall|j: int| 0 <= j < k ==> header@[j] == vhdx_signature()[j],
            decreases 8 - k,
        {
            if header[k] != sig[k] {
                assert(header@.subrange(0, 8)[k as int] != vhdx_signature()[k as int]);
                return Confidence::Unrecognized;
            }
            k = k + 1;
        }
        assert(header@.subrange(0, 8) =~= vhdx_signature());
        Confidence::High
    }
}

/// Text without separators after a prefix leaves the prefix's last separator
/// where it was.
proof fn lemma_last_separator_skips(s: Seq<char>, t: Seq<char>)
    requires
        forall|i: int| 0 <= i < t.len() ==> t[i] != '/' && t[i] != '\\',
    ensures
        last_separator(s + t) == last_separator(s),
    decreases t.len(),
{
    if t.len() > 0 {
        let u = t.drop_last();
        assert(t[t.len() - 1] != '/' && t[t.len() - 1] != '\\');
        lemma_last_separator_skips(s, u);
        assert((s + t).drop_last() =~= s + u);
    } else {
        assert(s + t =~= s);
    }
}

/// Whether an entry names a VHDX container is decided by its base name
/// alone: the directory part before the last `/` or `\` (or none at all)
/// does not matter, save that an entry ending in `/` is a directory.
pub proof fn law_vhdx_entry_by_base_name(dir: Seq<char>, sep: char, base: Seq<char>)
    requires
        sep == '/' || sep == '\\',
        forall|i: int| 0 <= i < base.len() ==> base[i] != '/' && base[i] != '\\',
    ensures
        spec_is_vhdx_entry(dir + seq![sep] + base) == is_vhdx_base(base),
        spec_is_vhdx_entry(base) == is_vhdx_base(base),
{
    let pre = dir + seq![sep];
    lemma_last_separator_skips(pre, base);
    assert(pre.drop_last() =~= dir);
    assert(last_separator(pre) == dir.len());
    assert(base_name(pre + base) =~= base);
    lemma_last_separator_skips(Seq::<char>::empty(), base);
    assert(Seq::<char>::empty() + base =~= base);
    assert(base_name(base) =~= base);
    if base.len() > 0 {
        assert((pre + base).last() == base.last());
    }
}

/// A base name is a VHDX name exactly when it is a non-empty stem followed
/// by `.vhdx`, whatever the letter case of the extension.
pub proof fn law_vhdx_base_is_stem_and_extension(stem: Seq<char>, ext: Seq<char>)
    requires
        ext.len() == 4,
    ensures
        is_vhdx_base(stem + seq!['.'] + ext) == (stem.len() > 0 && lower_char(ext[0]) == 'v' && lower_char(ext[1])
            == 'h' && lower_char(ext[2]) == 'd' && lower_char(ext[3]) == 'x'),
        stem.len() > 0 ==> is_vhdx_base(stem + ".vhdx"@) && is_vhdx_base(stem + ".VHDX"@),
        !is_vhdx_base(".vhdx"@),
{
    let b = stem + seq!['.'] + ext;
    assert(b[b.len() - 5] == '.');
    assert(b[b.len() - 4] == ext[0]);
    assert(b[b.len() - 3] == ext[1]);
    assert(b[b.len() - 2] == ext[2]);
    assert(b[b.len() - 1] == ext[3]);
    reveal_strlit(".vhdx");
    reveal_strlit(".VHDX");
    assert(stem + ".vhdx"@ =~= stem + seq!['.'] + "vhdx"@) by {
        reveal_strlit("vhdx");
    }
    assert(stem + ".VHDX"@ =~= stem + seq!['.'] + "VHDX"@) by {
        reveal_strlit("VHDX");
    }
    reveal_strlit("vhdx");
    reveal_strlit("VHDX");
}

} // verus!
