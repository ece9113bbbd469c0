use vstd::prelude::*;
use vstd::string::StringExecFns;

verus! {

/// Where a matched disk can receive data.
#[derive(Debug, PartialEq, Eq)]
pub enum Target {
    /// A raw block device, visible by label but not yet attached to a
    /// filesystem path; it must be mounted before anything can be written.
    Device(String),
    /// A filesystem path that is already attached and writable.
    Mountpoint(String),
}

/// One storage entity as observed by a single enumeration pass.  A `Disk` is
/// an ephemeral snapshot value: it is re-derived on every pass and has no
/// identity beyond its label.
#[derive(Debug, PartialEq, Eq)]
pub struct Disk {
    pub target: Target,
    pub label: String,
}

/// Ghost image of a `Target`: the paths as character sequences.
pub enum TargetModel {
    Device(Seq<char>),
    Mountpoint(Seq<char>),
}

/// Ghost image of a `Disk`.
pub struct DiskModel {
    pub target: TargetModel,
    pub label: Seq<char>,
}

impl View for Target {
    type V = TargetModel;

    open spec fn view(&self) -> TargetModel {
        match self {
            Target::Device(p) => TargetModel::Device(p@),
            Target::Mountpoint(p) => TargetModel::Mountpoint(p@),
        }
    }
}

impl View for Disk {
    type V = DiskModel;

    open spec fn view(&self) -> DiskModel {
        DiskModel { target: self.target@, label: self.label@ }
    }
}

/// The raw device path that the platform's by-label directory resolves a
/// label to.
pub open spec fn spec_device_path(label: Seq<char>) -> Seq<char> {
    "/dev/disk/by-label/"@ + label
}

/// The raw device path for one label.
pub fn device_path_for(label: &String) -> (p: String)
    ensures
        p@ == spec_device_path(label@),
{
    let mut p = String::from_str("/dev/disk/by-label/");
    p.append(label.as_str());
    p
}

/// The unmounted-device view of a snapshot: every entry name found in the
/// by-label directory becomes a `Disk` whose target is the raw device path
/// resolved from that label.
pub fn disks_from_labels(labels: Vec<String>) -> (disks: Vec<Disk>)
    ensures
        disks@.len() == labels@.len(),
        forall|i: int|
            0 <= i < labels@.len() ==> #[trigger] disks@[i]@ == (DiskModel {
                target: TargetModel::Device(spec_device_path(labels@[i]@)),
                label: labels@[i]@,
            }),
{
    let mut disks: Vec<Disk> = Vec::new();
    let mut k: usize = 0;
    while k < labels.len()
        invariant
            k <= labels@.len(),
            disks@.len() == k,
            forall|i: int|
                0 <= i < k ==> #[trigger] disks@[i]@ == (DiskModel {
                    target: TargetModel::Device(spec_device_path(labels@[i]@)),
                    label: labels@[i]@,
                }),
        decreases labels@.len() - k,
    {
        let label = labels[k].clone();
        let path = device_path_for(&label);
        disks.push(Disk { target: Target::Device(path), label });
        k = k + 1;
    }
    disks
}

/// The mounted-volumes view of a snapshot: every (volume name, mount path)
/// entry of the live mounted-volume list becomes a `Disk` whose target is the
/// already attached path.
pub fn disks_from_volumes(entries: Vec<(String, String)>) -> (disks: Vec<Disk>)
    ensures
        disks@.len() == entries@.len(),
        forall|i: int|
            0 <= i < entries@.len() ==> #[trigger] disks@[i]@ == (DiskModel {
                target: TargetModel::Mountpoint(entries@[i].1@),
                label: entries@[i].0@,
            }),
{
    let mut disks: Vec<Disk> = Vec::new();
    let mut k: usize = 0;
    while k < entries.len()
        invariant
            k <= entries@.len(),
            disks@.len() == k,
            forall|i: int|
                0 <= i < k ==> #[trigger] disks@[i]@ == (DiskModel {
                    target: TargetModel::Mountpoint(entries@[i].1@),
                    label: entries@[i].0@,
                }),
        decreases entries@.len() - k,
    {
        let label = entries[k].0.clone();
        let path = entries[k].1.clone();
        disks.push(Disk { target: Target::Mountpoint(path), label });
        k = k + 1;
    }
    disks
}

} // verus!
