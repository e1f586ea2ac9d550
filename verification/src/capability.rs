//! Capability negotiation: which way of reaching an ext4 partition is open on
//! this host, given what the signature probe found.

use vstd::prelude::*;

verus! {

/// How a partition can be reached.
#[derive(Debug, Clone, Copy, PartialEq, Eq, Structural)]
pub enum AccessMode {
    /// No access path exists.
    NoAccess,
    /// The host's own mount facility is used.
    MountBridge,
    /// The filesystem is decoded from raw bytes, read-only.
    UserspaceReader,
    /// The filesystem is decoded from raw bytes, for reading and writing.
    UserspaceRw,
    /// A read-only userspace decoder is planned but not available yet.
    PendingUserspaceReader,
}

/// The access mode for a partition, as a function of the two inputs that are
/// considered: whether an ext4 signature was found, and whether the host is
/// Windows.
pub open spec fn negotiated_mode(is_ext4_signature: bool, is_windows: bool) -> AccessMode {
    if !is_ext4_signature {
        AccessMode::NoAccess
    } else if is_windows {
        AccessMode::UserspaceRw
    } else {
        AccessMode::MountBridge
    }
}

/// The wire label of a mode.
pub open spec fn mode_label(mode: AccessMode) -> Seq<char> {
    match mode {
        AccessMode::NoAccess => "none"@,
        AccessMode::MountBridge => "mount-bridge"@,
        AccessMode::UserspaceReader => "userspace-reader"@,
        AccessMode::UserspaceRw => "userspace-rw"@,
        AccessMode::PendingUserspaceReader => "pending-userspace-reader"@,
    }
}

/// The explanation that accompanies a negotiated mode.
pub open spec fn mode_details(mode: AccessMode) -> Seq<char> {
    match mode {
        AccessMode::NoAccess => "Selected partition is not detected as Ext4 signature."@,
        AccessMode::UserspaceRw =>
            "Windows unmounted Ext4: Read/Write supported via userspace driver."@,
        AccessMode::MountBridge =>
            "Ext4 path can currently be routed through mount bridge on this platform."@,
        AccessMode::UserspaceReader =>
            "Ext4 can be read through the userspace reader; writing is not available."@,
        AccessMode::PendingUserspaceReader =>
            "Userspace reader for this partition is not available yet."@,
    }
}

impl AccessMode {
    /// The label under which the mode travels to the presentation layer.
    pub fn label(&self) -> (s: &'static str)
        ensures
            s@ == mode_label(*self),
    {
        match self {
            AccessMode::NoAccess => "none",
            AccessMode::MountBridge => "mount-bridge",
            AccessMode::UserspaceReader => "userspace-reader",
            AccessMode::UserspaceRw => "userspace-rw",
            AccessMode::PendingUserspaceReader => "pending-userspace-reader",
        }
    }

    /// The explanation shown with the mode.
    pub fn details(&self) -> (s: &'static str)
        ensures
            s@ == mode_details(*self),
    {
        match self {
            AccessMode::NoAccess => "Selected partition is not detected as Ext4 signature.",
            AccessMode::UserspaceRw =>
                "Windows unmounted Ext4: Read/Write supported via userspace driver.",
            AccessMode::MountBridge =>
                "Ext4 path can currently be routed through mount bridge on this platform.",
            AccessMode::UserspaceReader =>
                "Ext4 can be read through the userspace reader; writing is not available.",
            AccessMode::PendingUserspaceReader =>
                "Userspace reader for this partition is not available yet.",
        }
    }
}

/// The decision table, row by row: without an ext4 signature there is no
/// access on any host; with one, a Windows host has userspace access for
/// reading and writing, and every other host the mount bridge. Support is
/// claimed exactly where the signature was found.
pub proof fn lemma_decision_table(is_windows: bool)
    ensures
        negotiated_mode(false, is_windows) == AccessMode::NoAccess,
        negotiated_mode(true, true) == AccessMode::UserspaceRw,
        negotiated_mode(true, false) == AccessMode::MountBridge,
        forall|is_ext4_signature: bool|
            #[trigger] negotiated_mode(is_ext4_signature, is_windows) != AccessMode::NoAccess
                <==> is_ext4_signature,
{
}

/// The outcome of a negotiation for one partition.
#[derive(Debug)]
pub struct Ext4RawCapability {
    pub partition_path: String,
    pub supported_now: bool,
    pub mode: AccessMode,
    pub details: String,
}

impl Ext4RawCapability {
    /// A capability never claims support without an access mode.
    pub open spec fn wf(&self) -> bool {
        self.supported_now ==> self.mode != AccessMode::NoAccess
    }
}

/// Decides how the partition at `partition_path` can be reached.
///
/// The decision looks at nothing but the two flags: without an ext4 signature
/// there is no access; with one, a Windows host decodes the partition in
/// userspace with read and write access, and every other host goes through its
/// mount facility.
pub fn capability_probe(partition_path: &str, is_ext4_signature: bool, is_windows: bool) -> (cap:
    Ext4RawCapability)
    ensures
        cap.partition_path@ == partition_path@,
        cap.mode == negotiated_mode(is_ext4_signature, is_windows),
        cap.supported_now == is_ext4_signature,
        cap.details@ == mode_details(cap.mode),
        cap.wf(),
{
    let mode = if !is_ext4_signature {
        AccessMode::NoAccess
    } else if is_windows {
        AccessMode::UserspaceRw
    } else {
        AccessMode::MountBridge
    };
    Ext4RawCapability {
        partition_path: partition_path.to_owned(),
        supported_now: is_ext4_signature,
        mode,
        details: mode.details().to_owned(),
    }
}

} // verus!
