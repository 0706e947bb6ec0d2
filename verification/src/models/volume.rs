//! Block-storage resources: volume creation, volume details, attachments,
//! snapshots, the upload-to-image payload and the set-bootable action.
use vstd::prelude::*;

verus! {

/// The volume-creation request body.
#[derive(Debug, Clone)]
pub struct VolumeCreate {
    pub volume: VolumeCreateFields,
}

/// The fields of a volume-creation request.
#[derive(Debug, Clone)]
pub struct VolumeCreateFields {
    pub size: i32,
    pub availability_zone: String,
    pub name: String,
}

impl VolumeCreate {
    /// A creation request with exactly the given fields.
    pub fn new(name: String, size: i32, availability_zone: String) -> (r: Self)
        ensures
            r.volume.name == name,
            r.volume.size == size,
            r.volume.availability_zone == availability_zone,
    {
        Self { volume: VolumeCreateFields { size, availability_zone, name } }
    }
}

/// One volume, as a show request returns it.
#[derive(Debug, Clone)]
pub struct Volume {
    pub volume: VolumeDetail,
}

/// A volume: identifier, name, size, zone and current status.
#[derive(Debug, Clone)]
pub struct VolumeDetail {
    pub id: String,
    pub name: String,
    pub size: i32,
    pub availability_zone: String,
    pub status: String,
}

/// A volume attachment, both as request and as response body.
#[derive(Debug, Clone)]
pub struct VolumeAttachment {
    pub volume_attachment: VolumeAttachmentDetail,
}

/// The fields of a volume attachment.
#[derive(Debug, Clone)]
pub struct VolumeAttachmentDetail {
    pub volume_id: String,
    pub device: String,
    pub delete_on_termination: bool,
}

impl VolumeAttachment {
    /// An attachment request with exactly the given fields.
    pub fn new(volume_id: String, device: String, delete_on_termination: bool) -> (r: Self)
        ensures
            r.volume_attachment.volume_id == volume_id,
            r.volume_attachment.device == device,
            r.volume_attachment.delete_on_termination == delete_on_termination,
    {
        Self {
            volume_attachment: VolumeAttachmentDetail { volume_id, device, delete_on_termination },
        }
    }
}

/// The upload-volume-to-image action body.
#[derive(Debug, Clone)]
pub struct VolumeUpload {
    pub volume_upload: VolumeUploadFields,
}

/// The fields of an upload-to-image action.
#[derive(Debug, Clone)]
pub struct VolumeUploadFields {
    pub image_name: String,
    pub disk_format: String,
    pub container_format: String,
    pub visibility: String,
    pub protected: bool,
    pub image_id: String,
}

impl VolumeUpload {
    /// An upload action for a raw, bare, public, unprotected image of the
    /// given name.
    pub fn new(image_name: String) -> (r: Self)
        ensures
            r.volume_upload.image_name == image_name,
            r.volume_upload.disk_format@ == "raw"@,
            r.volume_upload.container_format@ == "bare"@,
            r.volume_upload.visibility@ == "public"@,
            r.volume_upload.protected == false,
            r.volume_upload.image_id@ == Seq::<char>::empty(),
    {
        Self {
            volume_upload: VolumeUploadFields {
                image_name,
                disk_format: String::from_str("raw"),
                container_format: String::from_str("bare"),
                visibility: String::from_str("public"),
                protected: false,
                image_id: String::new(),
            },
        }
    }
}

/// The snapshots a list request returns.
#[derive(Debug, Clone)]
pub struct VolumeSnapshots {
    pub snapshots: Vec<Snapshot>,
}

/// One volume snapshot, both as request and as response body.
#[derive(Debug, Clone)]
pub struct VolumeSnapshot {
    pub snapshot: Snapshot,
}

/// A snapshot: identifier, name, status, source volume and the force flag of
/// its creation request.
#[derive(Debug, Clone)]
pub struct Snapshot {
    pub id: String,
    pub name: String,
    pub status: String,
    pub volume_id: String,
    pub force: bool,
}

impl VolumeSnapshot {
    /// A snapshot-creation request for `volume_id` under `name`; identifier
    /// and status are left empty for the control plane to fill.
    pub fn new(name: String, volume_id: String, force: bool) -> (r: Self)
        ensures
            r.snapshot.name == name,
            r.snapshot.volume_id == volume_id,
            r.snapshot.force == force,
            r.snapshot.id@ == Seq::<char>::empty(),
            r.snapshot.status@ == Seq::<char>::empty(),
    {
        Self {
            snapshot: Snapshot {
                id: String::new(),
                name,
                status: String::new(),
                volume_id,
                force,
            },
        }
    }
}

/// The set-bootable action body.
#[derive(Debug, Clone)]
pub struct VolumeBootableAction {
    pub os_set_bootable: Bootable,
}

/// The bootable flag.
#[derive(Debug, Clone)]
pub struct Bootable {
    pub bootable: bool,
}

impl VolumeBootableAction {
    /// The action that sets a volume's bootable flag to `bootable`.
    pub fn new(bootable: bool) -> (r: Self)
        ensures
            r.os_set_bootable.bootable == bootable,
    {
        Self { os_set_bootable: Bootable { bootable } }
    }
}

} // verus!
