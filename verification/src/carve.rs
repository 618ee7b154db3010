//! Unallocated-space carving: which extents of a volume are swept, where they
//! lie on the whole disk, how a recovered item is labelled on the timeline,
//! and the banner that announces a sweep.

use vstd::prelude::*;
use crate::text::{decimal, owned, push_str, push_u64, str_equals};
use crate::timeline::{
    entity_keys, event_core, metadata_view, tags_view, ArtifactType, EventType, MetaValue, MetaView,
    TimelineEvent,
};

verus! {

/// The timeline artifact type of a carver's format token: `sqlite`,
/// `evtx-chunk` and `registry-hive` have their own; anything else is an
/// assessment.
pub open spec fn carved_artifact_type(format: Seq<char>) -> ArtifactType {
    if format == "sqlite"@ {
        ArtifactType::SqliteCarved
    } else if format == "evtx-chunk"@ {
        ArtifactType::EventLog
    } else if format == "registry-hive"@ {
        ArtifactType::Registry
    } else {
        ArtifactType::Assessment
    }
}

/// Map a carver `format` token to the timeline artifact type.
pub fn artifact_type_for(format: &str) -> (a: ArtifactType)
    ensures
        a == carved_artifact_type(format@),
{
    if str_equals(format, "sqlite") {
        ArtifactType::SqliteCarved
    } else if str_equals(format, "evtx-chunk") {
        ArtifactType::EventLog
    } else if str_equals(format, "registry-hive") {
        ArtifactType::Registry
    } else {
        ArtifactType::Assessment
    }
}

/// One item a carver recovered, as plain values. The carver's confidence
/// (a fraction from 0 to 1) arrives as text: rounded to two places for the
/// description, and as the decimal text of its value for the metadata. The
/// recovery method arrives as its stable token (e.g. `unallocated-carve`).
#[derive(Debug, Clone, PartialEq, Eq)]
pub struct CarvedItemInfo {
    /// The carver's format token, e.g. `sqlite`.
    pub format: String,
    /// The item's absolute offset in the image.
    pub image_offset: u64,
    pub confidence_two_places: String,
    pub confidence_value: String,
    pub method: String,
}

/// The description of a carved item.
pub open spec fn carved_description(item: CarvedItemInfo) -> Seq<char> {
    "Carved "@ + item.format@ + " artifact from unallocated space at offset "@ + decimal(item.image_offset as int)
        + " (confidence "@ + item.confidence_two_places@ + ", "@ + item.method@ + ")"@
}

/// The event a carved item becomes: no timestamp (epoch 0), type
/// `Other("Carved:<format>")`, the artifact type of its format, the path
/// `unallocated:<format>@<offset>`, the `carved`, `recovery:<method>` and
/// `format:<format>` tags, and the carve provenance as metadata.
pub open spec fn is_carved_event(e: TimelineEvent, item: CarvedItemInfo, evidence_source_id: Seq<char>) -> bool {
    &&& e.event_type matches EventType::Other(t) && t@ == "Carved:"@ + item.format@
    &&& event_core(
        e,
        0,
        "1970-01-01T00:00:00.000000000Z"@,
        carved_artifact_type(item.format@),
        "unallocated:"@ + item.format@ + "@"@ + decimal(item.image_offset as int),
        carved_description(item),
        evidence_source_id,
    )
    &&& e.hostname is None
    &&& entity_keys(e).len() == 0
    &&& tags_view(e) == seq!["carved"@, "recovery:"@ + item.method@, "format:"@ + item.format@]
    &&& metadata_view(e) == seq![
        ("carve_offset"@, MetaView::UInt(item.image_offset)),
        ("carve_format"@, MetaView::Text(item.format@)),
        ("carve_confidence"@, MetaView::Number(item.confidence_value@)),
        ("recovery_method"@, MetaView::Text(item.method@)),
    ]
}

/// Convert one recovered item into a timeline event stamped with its carve
/// provenance (format, absolute offset, confidence, recovery method) in its
/// tags and metadata. A carved artifact carries no timestamp of its own.
pub fn carved_item_to_event(item: &CarvedItemInfo, evidence_source_id: &str) -> (e: TimelineEvent)
    ensures
        is_carved_event(e, *item, evidence_source_id@),
{
    let format = item.format.as_str();
    let method = item.method.as_str();
    let mut et = owned("Carved:");
    push_str(&mut et, format);
    let mut path = owned("unallocated:");
    push_str(&mut path, format);
    push_str(&mut path, "@");
    push_u64(&mut path, item.image_offset);
    let mut d = owned("Carved ");
    push_str(&mut d, format);
    push_str(&mut d, " artifact from unallocated space at offset ");
    push_u64(&mut d, item.image_offset);
    push_str(&mut d, " (confidence ");
    push_str(&mut d, item.confidence_two_places.as_str());
    push_str(&mut d, ", ");
    push_str(&mut d, method);
    push_str(&mut d, ")");
    assert(d@ =~= carved_description(*item));
    let mut recovery = owned("recovery:");
    push_str(&mut recovery, method);
    let mut format_tag = owned("format:");
    push_str(&mut format_tag, format);
    let e = TimelineEvent::new(
        0,
        owned("1970-01-01T00:00:00.000000000Z"),
        EventType::Other(et),
        artifact_type_for(format),
        path,
        d,
        owned(evidence_source_id),
    ).with_tag(owned("carved")).with_tag(recovery).with_tag(format_tag).with_metadata(
        owned("carve_offset"),
        MetaValue::UInt(item.image_offset),
    ).with_metadata(owned("carve_format"), MetaValue::Text(owned(format))).with_metadata(
        owned("carve_confidence"),
        MetaValue::Number(item.confidence_value.clone()),
    ).with_metadata(owned("recovery_method"), MetaValue::Text(owned(method)));
    assert(entity_keys(e) =~= Seq::<Seq<char>>::empty());
    assert(tags_view(e) =~= seq!["carved"@, "recovery:"@ + item.method@, "format:"@ + item.format@]);
    assert(metadata_view(e) =~= seq![
        ("carve_offset"@, MetaView::UInt(item.image_offset)),
        ("carve_format"@, MetaView::Text(item.format@)),
        ("carve_confidence"@, MetaView::Number(item.confidence_value@)),
        ("recovery_method"@, MetaView::Text(item.method@)),
    ]);
    e
}

/// The allocation status of a run of a volume.
#[derive(Debug, Clone, Copy, PartialEq, Eq, Structural)]
pub enum RunAlloc {
    Allocated,
    Unallocated,
    Overwritten,
    Unknown,
}

/// One run of a volume: where it starts (relative to the volume), its length,
/// and its allocation status.
#[derive(Debug, Clone, Copy, PartialEq, Eq, Structural)]
pub struct RunInfo {
    pub image_offset: u64,
    pub len: u64,
    pub alloc: RunAlloc,
}

/// A region handed to the carvers, tagged with its own start offset.
#[derive(Debug, Clone, Copy, PartialEq, Eq, Structural)]
pub struct Region {
    pub start: u64,
    pub len: u64,
    pub tag: u64,
}

/// A run is swept when it is genuinely unallocated and not empty.
pub open spec fn swept(r: RunInfo) -> bool {
    r.alloc == RunAlloc::Unallocated && r.len > 0
}

/// The regions of a volume's run stream (a `None` entry is a run the stream
/// failed to produce): each swept run, in order, as a region starting at the
/// run's offset and tagged with it.
pub open spec fn regions_of(runs: Seq<Option<RunInfo>>) -> Seq<Region>
    decreases runs.len(),
{
    if runs.len() == 0 {
        seq![]
    } else {
        let rest = regions_of(runs.drop_last());
        match runs.last() {
            Some(r) => if swept(r) {
                rest.push(Region { start: r.image_offset, len: r.len, tag: r.image_offset })
            } else {
                rest
            },
            None => rest,
        }
    }
}

/// Enumerate a volume's unallocated extents as carve regions. Allocated,
/// overwritten and unknown runs, zero-length runs and runs the stream failed
/// to produce are skipped, so only unallocated space ever reaches a carver.
pub fn unallocated_regions(runs: &[Option<RunInfo>]) -> (r: Vec<Region>)
    ensures
        r@ == regions_of(runs@),
{
    let mut out: Vec<Region> = Vec::new();
    let mut i: usize = 0;
    while i < runs.len()
        invariant
            i <= runs@.len(),
            out@ == regions_of(runs@.take(i as int)),
        decreases runs.len() - i,
    {
        assert(runs@.take(i + 1).drop_last() =~= runs@.take(i as int));
        match runs[i] {
            Some(r) => {
                if r.alloc == RunAlloc::Unallocated && r.len > 0 {
                    out.push(Region { start: r.image_offset, len: r.len, tag: r.image_offset });
                }
            },
            None => {},
        }
        i = i + 1;
    }
    assert(runs@.take(runs@.len() as int) =~= runs@);
    out
}

/// A region moved by `base` (saturating at the top of the address space),
/// re-tagged with its new start.
pub open spec fn rebased(r: Region, base: u64) -> Region {
    let s = if r.start + base > u64::MAX { u64::MAX } else { (r.start + base) as u64 };
    Region { start: s, len: r.len, tag: s }
}

/// Translate volume-relative regions to absolute disk offsets: a volume
/// sits at `base_offset` within the whole disk (its partition offset; 0 for a
/// bare filesystem image). Each start saturates rather than wrapping, and
/// the tag follows the start.
pub fn rebase_regions(regions: &[Region], base_offset: u64) -> (r: Vec<Region>)
    ensures
        r@ == regions@.map_values(|g: Region| rebased(g, base_offset)),
{
    let mut out: Vec<Region> = Vec::new();
    let mut i: usize = 0;
    while i < regions.len()
        invariant
            i <= regions@.len(),
            out@ == regions@.take(i as int).map_values(|g: Region| rebased(g, base_offset)),
        decreases regions.len() - i,
    {
        let g = regions[i];
        let s = g.start.saturating_add(base_offset);
        out.push(Region { start: s, len: g.len, tag: s });
        assert(regions@.take(i + 1).map_values(|g: Region| rebased(g, base_offset)) =~= regions@.take(
            i as int,
        ).map_values(|g: Region| rebased(g, base_offset)).push(rebased(g, base_offset)));
        i = i + 1;
    }
    assert(regions@.take(regions@.len() as int) =~= regions@);
    out
}

/// The regions of a disk source to sweep: its volume's unallocated extents,
/// translated to absolute disk offsets. Allocated space is never included.
pub fn disk_source_regions(runs: &[Option<RunInfo>], base_offset: u64) -> (r: Vec<Region>)
    ensures
        r@ == regions_of(runs@).map_values(|g: Region| rebased(g, base_offset)),
{
    let regions = unallocated_regions(runs);
    rebase_regions(regions.as_slice(), base_offset)
}

/// The run, when the stream produced it, is swept and gives region `g`.
pub open spec fn run_gives(run: Option<RunInfo>, g: Region) -> bool {
    match run {
        Some(r) => swept(r) && g == (Region { start: r.image_offset, len: r.len, tag: r.image_offset }),
        None => false,
    }
}

/// Every swept region is unallocated space: each region of a run stream is
/// exactly a non-empty unallocated run of that stream.
pub proof fn law_only_unallocated_is_swept(runs: Seq<Option<RunInfo>>)
    ensures
        forall|i: int|
            0 <= i < regions_of(runs).len() ==> exists|j: int|
                0 <= j < runs.len() && run_gives(runs[j], #[trigger] regions_of(runs)[i]),
    decreases runs.len(),
{
    if runs.len() > 0 {
        let rest = runs.drop_last();
        law_only_unallocated_is_swept(rest);
        assert forall|i: int| 0 <= i < regions_of(runs).len() implies exists|j: int|
            0 <= j < runs.len() && run_gives(runs[j], #[trigger] regions_of(runs)[i]) by {
            if i < regions_of(rest).len() {
                let j = choose|j: int| 0 <= j < rest.len() && run_gives(rest[j], #[trigger] regions_of(rest)[i]);
                assert(runs[j] == rest[j]);
                assert(regions_of(runs)[i] == regions_of(rest)[i]);
            } else {
                assert(run_gives(runs[runs.len() - 1], regions_of(runs)[i]));
            }
        }
    }
}

/// The banner text announcing an unallocated sweep over the given sources.
pub open spec fn sweep_banner_text(disk: Seq<Seq<char>>) -> Seq<char>
    decreases disk.len(),
{
    if disk.len() == 0 {
        "issen: --unallocated — sweeping unallocated disk space with the registered carvers (sqlite / evtx-chunk / registry-hive):\n"@
    } else {
        sweep_banner_text(disk.drop_last()) + "    - "@ + disk.last() + "\n"@
    }
}

/// The one-line banner (plus one line per source) written to stderr when an
/// unallocated sweep begins, naming the sources it will carve. Each source is
/// given as the text its path displays as.
pub fn unallocated_sweep_banner(disk: &[String]) -> (r: String)
    ensures
        r@ == sweep_banner_text(disk@.map_values(|p: String| p@)),
{
    let ghost dv = disk@.map_values(|p: String| p@);
    let mut out = owned(
        "issen: --unallocated — sweeping unallocated disk space with the registered carvers (sqlite / evtx-chunk / registry-hive):\n",
    );
    let mut i: usize = 0;
    while i < disk.len()
        invariant
            i <= disk@.len(),
            dv == disk@.map_values(|p: String| p@),
            out@ == sweep_banner_text(dv.take(i as int)),
        decreases disk.len() - i,
    {
        assert(dv.take(i + 1).drop_last() =~= dv.take(i as int));
        push_str(&mut out, "    - ");
        push_str(&mut out, disk[i].as_str());
        push_str(&mut out, "\n");
        i = i + 1;
    }
    assert(dv.take(dv.len() as int) =~= dv);
    out
}

/// The region a run gives: it starts at the run, spans it, and is tagged
/// with its start.
pub open spec fn region_at(r: RunInfo) -> Region {
    Region { start: r.image_offset, len: r.len, tag: r.image_offset }
}

/// No unallocated space is missed: every non-empty unallocated run of the
/// stream becomes a region that starts at the run, spans it and is tagged
/// with its start.
pub proof fn law_every_unallocated_run_is_swept(runs: Seq<Option<RunInfo>>, j: int)
    ensures
        0 <= j < runs.len() && runs[j] is Some && runs[j]->0.alloc == RunAlloc::Unallocated && runs[j]->0.len > 0
            ==> regions_of(runs).contains(region_at(runs[j]->0)),
    decreases runs.len(),
{
    if 0 <= j < runs.len() && runs[j] is Some && runs[j]->0.alloc == RunAlloc::Unallocated && runs[j]->0.len > 0 {
        let rest = runs.drop_last();
        let g = region_at(runs[j]->0);
        if j < runs.len() - 1 {
            law_every_unallocated_run_is_swept(rest, j);
            assert(rest[j] == runs[j]);
            let k = choose|k: int| 0 <= k < regions_of(rest).len() && regions_of(rest)[k] == g;
            assert(regions_of(runs)[k] == g);
        } else {
            assert(regions_of(runs) == regions_of(rest).push(g));
            assert(regions_of(runs)[regions_of(rest).len() as int] == g);
        }
    }
}

/// Every region is a non-empty unallocated run of the stream, as that run
/// gives it: allocated, overwritten and unknown runs never are.
pub proof fn law_every_region_is_unallocated(runs: Seq<Option<RunInfo>>, i: int)
    requires
        0 <= i < regions_of(runs).len(),
    ensures
        exists|k: int|
            0 <= k < runs.len() && (#[trigger] runs[k]) is Some && runs[k]->0.alloc == RunAlloc::Unallocated
                && runs[k]->0.len > 0 && regions_of(runs)[i] == region_at(runs[k]->0),
{
    law_only_unallocated_is_swept(runs);
    let k = choose|k: int| 0 <= k < runs.len() && run_gives(runs[k], #[trigger] regions_of(runs)[i]);
    assert(runs[k] is Some);
    assert(regions_of(runs)[i] == region_at(runs[k]->0));
}

/// Rebasing moves a region to the disk: its start becomes the volume-relative
/// start plus the volume's offset, or `u64::MAX` where that sum would not
/// fit; its length is kept, and its tag is its new start.
pub proof fn law_rebased_region_is_on_disk(g: Region, base_offset: u64)
    ensures
        g.start as int + base_offset as int <= u64::MAX ==> rebased(g, base_offset).start == g.start + base_offset,
        g.start as int + base_offset as int > u64::MAX ==> rebased(g, base_offset).start == u64::MAX,
        rebased(g, base_offset).start >= g.start,
        rebased(g, base_offset).start >= base_offset,
        rebased(g, base_offset).len == g.len,
        rebased(g, base_offset).tag == rebased(g, base_offset).start,
{
}

/// The artifact type of each carver format: `sqlite` is carved SQLite,
/// `evtx-chunk` an event log, `registry-hive` the registry, and any other
/// format an assessment.
pub proof fn law_carved_format_types(format: Seq<char>)
    ensures
        format == "sqlite"@ ==> carved_artifact_type(format) == ArtifactType::SqliteCarved,
        format == "evtx-chunk"@ ==> carved_artifact_type(format) == ArtifactType::EventLog,
        format == "registry-hive"@ ==> carved_artifact_type(format) == ArtifactType::Registry,
        format != "sqlite"@ && format != "evtx-chunk"@ && format != "registry-hive"@ ==> carved_artifact_type(format)
            == ArtifactType::Assessment,
{
    reveal_strlit("sqlite");
    reveal_strlit("evtx-chunk");
    reveal_strlit("registry-hive");
    assert("sqlite"@.len() != "evtx-chunk"@.len());
    assert("sqlite"@.len() != "registry-hive"@.len());
    assert("evtx-chunk"@.len() != "registry-hive"@.len());
}

} // verus!
