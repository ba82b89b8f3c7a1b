//! Disk enumeration service logic.
//!
//! Block-device discovery itself is an external collaborator that scans the
//! machine; it hands this module plain disk descriptors. The service logic —
//! the authorization gate and the loopback filter — is verified here.

use vstd::prelude::*;
use crate::auth::{authorized, AuthService, Request, Status};

verus! {

/// The kind of a block device.
#[derive(Clone, Copy, Debug, PartialEq, Eq, Structural)]
pub enum DiskKind {
    /// SCSI/SATA disk.
    Scsi,
    /// MMC / SD-card device.
    Mmc,
    /// NVMe device.
    Nvme,
    /// Virtualised disk.
    Virtual,
    /// Loopback device backed by a file.
    Loopback,
    /// Anything the discovery layer could not classify.
    Unknown,
}

/// One partition of a disk.
pub struct Partition {
    /// Partition label.
    pub name: String,
    /// Partition number on its disk.
    pub number: u32,
    /// First sector.
    pub start: u64,
    /// Last sector.
    pub end: u64,
    /// Size in sectors.
    pub size: u64,
    /// Device node path of the partition.
    pub node: String,
    /// Device node path of the parent disk.
    pub device: String,
    /// Human-readable size.
    pub display_size: String,
}

/// One disk with its nested partitions.
pub struct Disk {
    /// Short device name.
    pub name: String,
    /// Total size in sectors.
    pub sectors: u64,
    /// Device node path.
    pub device: String,
    /// Hardware model, when known.
    pub model: Option<String>,
    /// Hardware vendor, when known.
    pub vendor: Option<String>,
    /// Partitions in on-disk order.
    pub partitions: Vec<Partition>,
    /// Device kind.
    pub kind: DiskKind,
    /// Human-readable size.
    pub display_size: String,
    /// Backing file of a loopback device.
    pub image_path: Option<String>,
}

/// Mathematical image of a [`Disk`]: the same fields with the partition
/// vector abstracted to a sequence.
#[verifier::ext_equal]
pub ghost struct DiskView {
    /// Short device name.
    pub name: String,
    /// Total size in sectors.
    pub sectors: u64,
    /// Device node path.
    pub device: String,
    /// Hardware model, when known.
    pub model: Option<String>,
    /// Hardware vendor, when known.
    pub vendor: Option<String>,
    /// Partitions in on-disk order.
    pub partitions: Seq<Partition>,
    /// Device kind.
    pub kind: DiskKind,
    /// Human-readable size.
    pub display_size: String,
    /// Backing file of a loopback device.
    pub image_path: Option<String>,
}

impl View for Disk {
    type V = DiskView;

    open spec fn view(&self) -> DiskView {
        DiskView {
            name: self.name,
            sectors: self.sectors,
            device: self.device,
            model: self.model,
            vendor: self.vendor,
            partitions: self.partitions@,
            kind: self.kind,
            display_size: self.display_size,
            image_path: self.image_path,
        }
    }
}

/// The views of a sequence of disks.
pub open spec fn disk_views(s: Seq<Disk>) -> Seq<DiskView> {
    s.map_values(|d: Disk| d@)
}

/// Whether a block device is usable as an installation target: anything but
/// a loopback device is.
pub fn is_disk_usable(device: &Disk) -> (r: bool)
    ensures
        r == !(device.kind is Loopback),
{
    match device.kind {
        DiskKind::Loopback => false,
        _ => true,
    }
}

/// The disks of `s`, in order, with loopback devices left out when `exclude`
/// is set; with `exclude` unset this is `s` itself.
pub open spec fn filtered_disks(s: Seq<DiskView>, exclude: bool) -> Seq<DiskView>
    decreases s.len(),
{
    if s.len() == 0 {
        Seq::empty()
    } else {
        let rest = filtered_disks(s.drop_last(), exclude);
        if !exclude || !(s.last().kind is Loopback) {
            rest.push(s.last())
        } else {
            rest
        }
    }
}

/// No disk that `filtered_disks` keeps under `exclude` is a loopback device,
/// and without `exclude` the sequence is returned whole.
pub proof fn lemma_filtered_disks(s: Seq<DiskView>, exclude: bool)
    ensures
        exclude ==> forall|i: int|
            0 <= i < filtered_disks(s, exclude).len() ==> !(#[trigger] filtered_disks(
                s,
                exclude,
            )[i].kind is Loopback),
        !exclude ==> filtered_disks(s, exclude) == s,
    decreases s.len(),
{
    if s.len() == 0 {
        assert(filtered_disks(s, exclude) =~= s);
    } else {
        lemma_filtered_disks(s.drop_last(), exclude);
        if !exclude {
            assert(filtered_disks(s, exclude) =~= s);
        }
    }
}

impl Partition {
    /// A field-for-field copy of this partition.
    pub fn clone_partition(&self) -> (r: Partition)
        ensures
            r == self,
    {
        Partition {
            name: self.name.clone(),
            number: self.number,
            start: self.start,
            end: self.end,
            size: self.size,
            node: self.node.clone(),
            device: self.device.clone(),
            display_size: self.display_size.clone(),
        }
    }
}

impl Disk {
    /// A copy of this disk whose mathematical image is unchanged.
    pub fn clone_disk(&self) -> (r: Disk)
        ensures
            r@ == self@,
    {
        let mut parts: Vec<Partition> = Vec::new();
        let mut i: usize = 0;
        while i < self.partitions.len()
            invariant
                i <= self.partitions.len(),
                parts@ =~= self.partitions@.subrange(0, i as int),
            decreases self.partitions.len() - i,
    {
            parts.push(self.partitions[i].clone_partition());
            i = i + 1;
        }
        proof {
            assert(parts@ =~= self.partitions@);
        }
        let r = Disk {
            name: self.name.clone(),
            sectors: self.sectors,
            device: self.device.clone(),
            model: clone_opt_string(&self.model),
            vendor: clone_opt_string(&self.vendor),
            partitions: parts,
            kind: self.kind,
            display_size: self.display_size.clone(),
            image_path: clone_opt_string(&self.image_path),
        };
        proof {
            assert(r@ =~= self@);
        }
        r
    }
}

/// A copy of an optional string.
pub fn clone_opt_string(s: &Option<String>) -> (r: Option<String>)
    ensures
        r == s,
{
    match s {
        Some(v) => Some(v.clone()),
        None => None,
    }
}

/// Discovery output restricted to usable disks, in order: the frontend's
/// device pool.
pub fn usable_disks(devices: Vec<Disk>) -> (r: Vec<Disk>)
    ensures
        disk_views(r@) == filtered_disks(disk_views(devices@), true),
{
    let mut out: Vec<Disk> = Vec::new();
    let mut i: usize = 0;
    while i < devices.len()
        invariant
            i <= devices.len(),
            disk_views(out@) == filtered_disks(disk_views(devices@.subrange(0, i as int)), true),
        decreases devices.len() - i,
    {
        let keep = is_disk_usable(&devices[i]);
        proof {
            lemma_filter_extend(devices@, i as int, true);
        }
        if keep {
            let d = devices[i].clone_disk();
            out.push(d);
            proof {
                assert(disk_views(out@) =~= filtered_disks(
                    disk_views(devices@.subrange(0, i + 1 as int)),
                    true,
                ));
            }
        } else {
            proof {
                assert(disk_views(out@) =~= filtered_disks(
                    disk_views(devices@.subrange(0, i + 1 as int)),
                    true,
                ));
            }
        }
        i = i + 1;
    }
    proof {
        assert(devices@.subrange(0, devices@.len() as int) =~= devices@);
    }
    out
}

/// Extending the prefix by one element unfolds `filtered_disks` by one step.
proof fn lemma_filter_extend(devices: Seq<Disk>, i: int, exclude: bool)
    requires
        0 <= i < devices.len(),
    ensures
        ({
            let pref = disk_views(devices.subrange(0, i));
            let ext = disk_views(devices.subrange(0, i + 1));
            filtered_disks(ext, exclude) == if !exclude || !(devices[i]@.kind is Loopback) {
                filtered_disks(pref, exclude).push(devices[i]@)
            } else {
                filtered_disks(pref, exclude)
            }
        }),
{
    let pref = disk_views(devices.subrange(0, i));
    let ext = disk_views(devices.subrange(0, i + 1));
    assert(ext.len() == i + 1);
    assert(ext.drop_last() =~= pref);
    assert(ext.last() == devices[i]@);
}

/// One line describing a block device for a selection prompt: loopback
/// devices are named as such, disks by their device node, model (or
/// "Unknown") and human-readable size.
pub fn render_device(device: &Disk) -> (r: String)
    ensures
        device.kind is Loopback ==> r@ == "Loopback device"@,
        !(device.kind is Loopback) ==> r@ == device.device@ + " - "@ + (match device.model {
            Some(m) => m@,
            None => "Unknown"@,
        }) + " - "@ + device.display_size@,
{
    match device.kind {
        DiskKind::Loopback => "Loopback device".to_owned(),
        _ => {
            let mut out = device.device.clone();
            out.append(" - ");
            match &device.model {
                Some(m) => out.append(m.as_str()),
                None => out.append("Unknown"),
            }
            out.append(" - ");
            out.append(device.display_size.as_str());
            out
        }
    }
}

/// The disk listing service: holds the authorization seam and the device
/// pool that discovery produced.
pub struct DisksService {
    auth: AuthService,
    devices: Vec<Disk>,
}

/// Creates the disk service over an already-discovered device pool.
pub fn service(auth: AuthService, devices: Vec<Disk>) -> (s: DisksService)
    ensures
        s.spec_devices() == disk_views(devices@),
{
    DisksService { auth, devices }
}

impl DisksService {
    /// The device pool this service answers from.
    pub closed spec fn spec_devices(&self) -> Seq<DiskView> {
        disk_views(self.devices@)
    }

    /// Lists the device pool, leaving loopback devices out when the request
    /// asks for that. The authorization guard runs before any domain work;
    /// a request without credentials is answered with an authentication
    /// failure and nothing else happens.
    pub fn list_disks(&self, request: Request<ListDisksRequest>) -> (r: Result<
        ListDisksResponse,
        Status,
    >)
        ensures
            request.spec_auth() is None ==> (r matches Err(s) && s is Unauthenticated),
            request.spec_auth() is Some ==> (r matches Ok(resp) && disk_views(resp.disks@)
                == filtered_disks(self.spec_devices(), request.spec_body().exclude_loopback)),
    {
        let request = match authorized(
            &self.auth,
            request,
            "com.aerynos.lichen.disks.list",
            "Not authorized for action: com.aerynos.lichen.disks.list",
        ) {
            Ok(granted) => granted,
            Err(denied) => {
                return Err(denied);
            }
        };
        let exclude = request.get_ref().exclude_loopback;
        let mut disks: Vec<Disk> = Vec::new();
        let mut i: usize = 0;
        while i < self.devices.len()
            invariant
                i <= self.devices.len(),
                disk_views(disks@) == filtered_disks(
                    disk_views(self.devices@.subrange(0, i as int)),
                    exclude,
                ),
            decreases self.devices.len() - i,
        {
            let keep = if exclude {
                is_disk_usable(&self.devices[i])
            } else {
                true
            };
            proof {
                lemma_filter_extend(self.devices@, i as int, exclude);
            }
            if keep {
                disks.push(self.devices[i].clone_disk());
                proof {
                    assert(disk_views(disks@) =~= filtered_disks(
                        disk_views(self.devices@.subrange(0, i + 1 as int)),
                        exclude,
                    ));
                }
            } else {
                proof {
                    assert(disk_views(disks@) =~= filtered_disks(
                        disk_views(self.devices@.subrange(0, i + 1 as int)),
                        exclude,
                    ));
                }
            }
            i = i + 1;
        }
        proof {
            assert(self.devices@.subrange(0, self.devices@.len() as int) =~= self.devices@);
        }
        Ok(ListDisksResponse { disks })
    }
}

/// Request payload for listing disks.
pub struct ListDisksRequest {
    /// When set, loopback devices are left out of the answer.
    pub exclude_loopback: bool,
}

/// Response payload: the disks that were listed.
pub struct ListDisksResponse {
    /// Disk descriptors, in discovery order.
    pub disks: Vec<Disk>,
}

} // verus!
