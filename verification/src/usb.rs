//! USB device history on the case timeline: the stable event-type labels of
//! USB attributes, and the conversion of a cross-source USB event (epoch
//! seconds) into a timeline event (epoch nanoseconds).

use vstd::prelude::*;
use crate::text::{owned, push_str};
use crate::timeline::{event_core, ArtifactType, EventType, TimelineEvent};

verus! {

/// What a USB history event records about a device.
#[derive(Debug, Clone, Copy, PartialEq, Eq, Structural)]
pub enum UsbAttribute {
    FirstConnected,
    LastConnected,
    LastRemoved,
    VolumeName,
    VolumeSerial,
    AccessedFile,
    DriveLetter,
    Encryption,
    DeviceClass,
    /// An attribute this library does not know by name.
    Unlisted,
}

/// The published event-type label of an attribute.
pub open spec fn usb_label(a: UsbAttribute) -> Seq<char> {
    match a {
        UsbAttribute::FirstConnected => "UsbFirstConnected"@,
        UsbAttribute::LastConnected => "UsbLastConnected"@,
        UsbAttribute::LastRemoved => "UsbLastRemoved"@,
        UsbAttribute::VolumeName => "UsbVolumeName"@,
        UsbAttribute::VolumeSerial => "UsbVolumeSerial"@,
        UsbAttribute::AccessedFile => "UsbFileAccessed"@,
        UsbAttribute::DriveLetter => "UsbDriveLetter"@,
        UsbAttribute::Encryption => "UsbEncryption"@,
        UsbAttribute::DeviceClass => "UsbDeviceClass"@,
        UsbAttribute::Unlisted => "UsbEvent"@,
    }
}

/// Stable event-type label of a USB attribute. USB events ride
/// `EventType::Other` under `ArtifactType::DeviceInstall`; the labels are a
/// published contract, and an attribute without a label of its own gets the
/// generic `UsbEvent`.
pub fn attribute_label(attribute: UsbAttribute) -> (r: &'static str)
    ensures
        r@ == usb_label(attribute),
{
    match attribute {
        UsbAttribute::FirstConnected => "UsbFirstConnected",
        UsbAttribute::LastConnected => "UsbLastConnected",
        UsbAttribute::LastRemoved => "UsbLastRemoved",
        UsbAttribute::VolumeName => "UsbVolumeName",
        UsbAttribute::VolumeSerial => "UsbVolumeSerial",
        UsbAttribute::AccessedFile => "UsbFileAccessed",
        UsbAttribute::DriveLetter => "UsbDriveLetter",
        UsbAttribute::Encryption => "UsbEncryption",
        UsbAttribute::DeviceClass => "UsbDeviceClass",
        UsbAttribute::Unlisted => "UsbEvent",
    }
}

/// A cross-source USB history event.
#[derive(Debug, Clone, PartialEq, Eq)]
pub struct UsbEvent {
    /// Epoch seconds.
    pub when: i64,
    /// The device key, e.g. `USBSTOR\Disk&Ven_SanDisk\1234`.
    pub device: String,
    pub attribute: UsbAttribute,
    /// The `{:?}` rendering of the history source the event came from.
    pub source: String,
    /// Where in the evidence the event was read, e.g. `setupapi.dev.log:42`.
    pub locator: String,
}

/// How jiff displays an instant given in epoch seconds (RFC 3339, UTC);
/// `None` when the instant is outside jiff's supported range.
pub uninterp spec fn jiff_second_text(second: i64) -> Option<Seq<char>>;

/// Display text of an instant in epoch seconds.
///
/// Calls `jiff::Timestamp::from_second` and, when it gives an instant, its
/// `Display` rendering. The contract names the outcome
/// `jiff_second_text(second)`, a function of the number alone; jiff's range
/// and the calendar arithmetic are not restated.
#[verifier::external_body]
fn timestamp_text(second: i64) -> (r: Option<String>)
    ensures
        match r {
            Some(s) => jiff_second_text(second) == Some(s@),
            None => jiff_second_text(second) is None,
        },
{
    match jiff::Timestamp::from_second(second) {
        Ok(t) => Some(t.to_string()),
        Err(_) => None,
    }
}

/// Seconds to nanoseconds, saturating at the ends of `i64`.
pub open spec fn secs_to_ns(s: i64) -> i64 {
    let n = s * 1_000_000_000;
    if n > i64::MAX {
        i64::MAX
    } else if n < i64::MIN {
        i64::MIN
    } else {
        n as i64
    }
}

/// The description of a USB timeline event.
pub open spec fn usb_description(ev: UsbEvent) -> Seq<char> {
    "USB "@ + usb_label(ev.attribute) + " — device "@ + ev.device@ + " (source "@ + ev.source@ + ")"@
}

/// The timeline event a USB event becomes: its instant in nanoseconds
/// (saturating) with jiff's display text (empty when jiff cannot represent
/// it), `Other(label)` from the device-install source, its locator as the
/// artifact path, and the given evidence source.
pub open spec fn is_usb_timeline_event(e: TimelineEvent, ev: UsbEvent, evidence_source_id: Seq<char>) -> bool {
    &&& e.event_type matches EventType::Other(t) && t@ == usb_label(ev.attribute)
    &&& event_core(
        e,
        secs_to_ns(ev.when),
        match jiff_second_text(ev.when) {
            Some(t) => t,
            None => seq![],
        },
        ArtifactType::DeviceInstall,
        ev.locator@,
        usb_description(ev),
        evidence_source_id,
    )
    &&& e.hostname is None
    &&& e.tags@.len() == 0
    &&& e.entity_refs@.len() == 0
    &&& e.metadata@.len() == 0
}

/// Convert a cross-source USB event into a timeline event. USB history
/// counts epoch seconds; the timeline counts nanoseconds.
pub fn to_issen_event(ev: &UsbEvent, evidence_source_id: &str) -> (e: TimelineEvent)
    ensures
        is_usb_timeline_event(e, *ev, evidence_source_id@),
{
    let timestamp_ns = match ev.when.checked_mul(1_000_000_000) {
        Some(n) => n,
        None => if ev.when < 0 {
            i64::MIN
        } else {
            i64::MAX
        },
    };
    let display = match timestamp_text(ev.when) {
        Some(t) => t,
        None => String::new(),
    };
    let label = attribute_label(ev.attribute);
    let mut d = owned("USB ");
    push_str(&mut d, label);
    push_str(&mut d, " — device ");
    push_str(&mut d, ev.device.as_str());
    push_str(&mut d, " (source ");
    push_str(&mut d, ev.source.as_str());
    push_str(&mut d, ")");
    assert(d@ =~= usb_description(*ev));
    TimelineEvent::new(
        timestamp_ns,
        display,
        EventType::Other(owned(label)),
        ArtifactType::DeviceInstall,
        ev.locator.clone(),
        d,
        owned(evidence_source_id),
    )
}

/// Distinct attributes have distinct labels.
pub proof fn law_labels_are_distinct(a: UsbAttribute, b: UsbAttribute)
    requires
        a != b,
    ensures
        usb_label(a) != usb_label(b),
{
    reveal_strlit("UsbFirstConnected");
    reveal_strlit("UsbLastConnected");
    reveal_strlit("UsbLastRemoved");
    reveal_strlit("UsbVolumeName");
    reveal_strlit("UsbVolumeSerial");
    reveal_strlit("UsbFileAccessed");
    reveal_strlit("UsbDriveLetter");
    reveal_strlit("UsbEncryption");
    reveal_strlit("UsbDeviceClass");
    reveal_strlit("UsbEvent");
    let la = usb_label(a);
    let lb = usb_label(b);
    if la == lb {
        assert(la.len() == lb.len());
        assert(la[3] == lb[3]);
        assert(la[4] == lb[4]);
        assert(la[7] == lb[7]);
        assert(la[9] == lb[9]);
    }
}

/// The published labels, attribute by attribute: each known attribute is
/// labelled `Usb` and its own name (a file access as `UsbFileAccessed`), and
/// an attribute without a name of its own is the generic `UsbEvent`.
pub proof fn law_usb_label_table(a: UsbAttribute)
    ensures
        a == UsbAttribute::FirstConnected ==> usb_label(a) == "UsbFirstConnected"@,
        a == UsbAttribute::LastConnected ==> usb_label(a) == "UsbLastConnected"@,
        a == UsbAttribute::LastRemoved ==> usb_label(a) == "UsbLastRemoved"@,
        a == UsbAttribute::VolumeName ==> usb_label(a) == "UsbVolumeName"@,
        a == UsbAttribute::VolumeSerial ==> usb_label(a) == "UsbVolumeSerial"@,
        a == UsbAttribute::AccessedFile ==> usb_label(a) == "UsbFileAccessed"@,
        a == UsbAttribute::DriveLetter ==> usb_label(a) == "UsbDriveLetter"@,
        a == UsbAttribute::Encryption ==> usb_label(a) == "UsbEncryption"@,
        a == UsbAttribute::DeviceClass ==> usb_label(a) == "UsbDeviceClass"@,
        a == UsbAttribute::Unlisted ==> usb_label(a) == "UsbEvent"@,
{
}

/// A converted USB event carries its attribute's label twice: as the name of
/// its `Other` event type, and after `USB ` at the head of its description,
/// which goes on to name the device. It is stamped at the USB event's second
/// in nanoseconds (saturating at the ends of `i64`), comes from the
/// device-install source, and points at the USB event's locator.
pub proof fn law_usb_event_carries_label(e: TimelineEvent, ev: UsbEvent, evidence_source_id: Seq<char>)
    requires
        is_usb_timeline_event(e, ev, evidence_source_id),
    ensures
        e.event_type matches EventType::Other(t) && t@ == usb_label(ev.attribute),
        -9_223_372_036 <= ev.when <= 9_223_372_036 ==> e.timestamp_ns == ev.when * 1_000_000_000,
        ev.when > 9_223_372_036 ==> e.timestamp_ns == i64::MAX,
        ev.when < -9_223_372_036 ==> e.timestamp_ns == i64::MIN,
        e.source == ArtifactType::DeviceInstall,
        e.artifact_path@ == ev.locator@,
        ({
            let head = "USB "@ + usb_label(ev.attribute) + " — device "@ + ev.device@;
            &&& head.len() <= e.description@.len()
            &&& e.description@.take(head.len() as int) == head
        }),
{
    let head = "USB "@ + usb_label(ev.attribute) + " — device "@ + ev.device@;
    assert(usb_description(ev) =~= head + " (source "@ + ev.source@ + ")"@);
    assert(usb_description(ev).take(head.len() as int) =~= head);
}

} // verus!
