//! The filesystems under test and how one is made ready.
//!
//! Each filesystem lives in an image file under `/tmp` that is attached to a
//! loop device, formatted, and mounted on a directory of its own. This module
//! names the files and directories, builds the command lines of the tools
//! that do the work, and lays down the order of the steps. Running the tools
//! is left to the driver.

use crate::naming::{decimal, decimal_string};
use vstd::prelude::*;
use vstd::string::*;

verus! {

/// A filesystem that can be benchmarked.
#[derive(Debug, Clone, Copy, PartialEq, Eq, Structural)]
pub enum FilesystemType {
    Xfs,
    Btrfs,
}

/// Why a filesystem could not be made ready.
#[derive(Debug, Clone, Copy, PartialEq, Eq, Structural)]
pub enum ProvisionError {
    /// A step needs the loop device, and the image has not been attached to
    /// one yet.
    LoopDeviceNotSet,
}

/// A program and the arguments to run it with.
#[derive(Debug, Clone)]
pub struct CommandLine {
    pub program: String,
    pub args: Vec<String>,
}

/// What to mount where.
#[derive(Debug, Clone)]
pub struct MountRequest {
    /// The device that holds the filesystem.
    pub source: String,
    /// The directory to mount it on.
    pub target: String,
    /// The kernel's name of the filesystem.
    pub fs_type: String,
}

/// The steps that make a filesystem ready, in order.
#[derive(Debug, Clone, Copy, PartialEq, Eq, Structural)]
pub enum SetupStep {
    /// Unmount and delete what an earlier benchmark may have left behind.
    /// Failures of this step are ignored.
    RemoveLeftovers,
    /// Write the image file.
    CreateImage,
    /// Attach the image to a free loop device.
    AttachLoopDevice,
    /// Make the filesystem on the loop device.
    Format,
    /// Create the directory to mount on.
    CreateMountPoint,
    /// Mount the loop device.
    Mount,
    /// Open the mounted directory to every user. The step has succeeded
    /// when the program could be started, whatever it then reports.
    SetPermissions,
    /// The filesystem is mounted and writable.
    Ready,
}

/// The steps that take a filesystem down again, in order.
#[derive(Debug, Clone, Copy, PartialEq, Eq, Structural)]
pub enum CleanupStep {
    /// Unmount the directory, if it exists. A failure is ignored.
    Unmount,
    /// Detach the loop device. A failure is ignored.
    DetachLoopDevice,
    /// Delete the image file, if it exists.
    RemoveImage,
    /// Delete the directory, if it exists.
    RemoveMountPoint,
}

impl FilesystemType {
    /// The name under which the filesystem is shown.
    pub open spec fn display_name_of(self) -> Seq<char> {
        match self {
            FilesystemType::Xfs => "XFS"@,
            FilesystemType::Btrfs => "btrfs"@,
        }
    }

    /// The name under which the kernel knows the filesystem.
    pub open spec fn kernel_name_of(self) -> Seq<char> {
        match self {
            FilesystemType::Xfs => "xfs"@,
            FilesystemType::Btrfs => "btrfs"@,
        }
    }

    /// The program that makes the filesystem.
    pub open spec fn mkfs_program_of(self) -> Seq<char> {
        match self {
            FilesystemType::Xfs => "mkfs.xfs"@,
            FilesystemType::Btrfs => "mkfs.btrfs"@,
        }
    }

    /// The name under which the filesystem is shown: `XFS` or `btrfs`.
    pub fn display_name(&self) -> (name: String)
        ensures
            name@ == self.display_name_of(),
    {
        match self {
            FilesystemType::Xfs => String::from_str("XFS"),
            FilesystemType::Btrfs => String::from_str("btrfs"),
        }
    }

    /// The name under which the kernel knows the filesystem: `xfs` or
    /// `btrfs`.
    pub fn kernel_name(&self) -> (name: &'static str)
        ensures
            name@ == self.kernel_name_of(),
    {
        match self {
            FilesystemType::Xfs => "xfs",
            FilesystemType::Btrfs => "btrfs",
        }
    }

    /// The program that makes the filesystem: `mkfs.xfs` or `mkfs.btrfs`.
    pub fn mkfs_program(&self) -> (program: &'static str)
        ensures
            program@ == self.mkfs_program_of(),
    {
        match self {
            FilesystemType::Xfs => "mkfs.xfs",
            FilesystemType::Btrfs => "mkfs.btrfs",
        }
    }
}

impl SetupStep {
    /// The step that follows this one.
    pub open spec fn successor(self) -> SetupStep {
        match self {
            SetupStep::RemoveLeftovers => SetupStep::CreateImage,
            SetupStep::CreateImage => SetupStep::AttachLoopDevice,
            SetupStep::AttachLoopDevice => SetupStep::Format,
            SetupStep::Format => SetupStep::CreateMountPoint,
            SetupStep::CreateMountPoint => SetupStep::Mount,
            SetupStep::Mount => SetupStep::SetPermissions,
            SetupStep::SetPermissions => SetupStep::Ready,
            SetupStep::Ready => SetupStep::Ready,
        }
    }

    /// Whether a failure of this step ends the setup. Only leftovers that
    /// cannot be removed do not.
    pub open spec fn must_succeed(self) -> bool {
        self != SetupStep::RemoveLeftovers
    }

    /// What follows this step given whether it succeeded: the next step, or
    /// nothing when a step that must succeed has failed.
    pub open spec fn after(self, succeeded: bool) -> Option<SetupStep> {
        if succeeded || !self.must_succeed() {
            Some(self.successor())
        } else {
            None
        }
    }

    /// The step that every setup begins with.
    pub fn first() -> (step: SetupStep)
        ensures
            step == SetupStep::RemoveLeftovers,
    {
        SetupStep::RemoveLeftovers
    }

    /// Takes the outcome of this step and gives the step that follows, or
    /// nothing when the setup has failed.
    pub fn advance(self, succeeded: bool) -> (next: Option<SetupStep>)
        ensures
            next == self.after(succeeded),
    {
        let next = match self {
            SetupStep::RemoveLeftovers => {
                return Some(SetupStep::CreateImage);
            },
            SetupStep::CreateImage => SetupStep::AttachLoopDevice,
            SetupStep::AttachLoopDevice => SetupStep::Format,
            SetupStep::Format => SetupStep::CreateMountPoint,
            SetupStep::CreateMountPoint => SetupStep::Mount,
            SetupStep::Mount => SetupStep::SetPermissions,
            SetupStep::SetPermissions => SetupStep::Ready,
            SetupStep::Ready => SetupStep::Ready,
        };
        if succeeded {
            Some(next)
        } else {
            None
        }
    }
}

impl CleanupStep {
    /// Whether a failure of this step is reported. The directory may not be
    /// mounted and the loop device may be gone already, so failures to
    /// unmount and to detach are not.
    pub open spec fn must_succeed(self) -> bool {
        self == CleanupStep::RemoveImage || self == CleanupStep::RemoveMountPoint
    }

    /// Whether a failure of this step is reported.
    pub fn reports_failure(&self) -> (reported: bool)
        ensures
            reported == self.must_succeed(),
    {
        match self {
            CleanupStep::Unmount => false,
            CleanupStep::DetachLoopDevice => false,
            CleanupStep::RemoveImage => true,
            CleanupStep::RemoveMountPoint => true,
        }
    }
}

/// The path of the image file of a filesystem.
pub open spec fn image_path_of(fs_type: FilesystemType) -> Seq<char> {
    "/tmp/reflink-bench-"@ + fs_type.kernel_name_of() + ".img"@
}

/// The directory that a filesystem is mounted on.
pub open spec fn mount_point_of(fs_type: FilesystemType) -> Seq<char> {
    "/tmp/reflink-bench-"@ + fs_type.kernel_name_of()
}

/// The steps that take down a filesystem, given whether its image is attached
/// to a loop device.
pub open spec fn cleanup_steps_of(attached: bool) -> Seq<CleanupStep> {
    if attached {
        seq![
            CleanupStep::Unmount,
            CleanupStep::DetachLoopDevice,
            CleanupStep::RemoveImage,
            CleanupStep::RemoveMountPoint,
        ]
    } else {
        seq![CleanupStep::Unmount, CleanupStep::RemoveImage, CleanupStep::RemoveMountPoint]
    }
}

/// Sets up and takes down one filesystem under test.
pub struct FilesystemManager {
    fs_type: FilesystemType,
    size_gb: u64,
    image_path: String,
    mount_point: String,
    loop_device: Option<String>,
}

/// What a manager holds, as plain values.
pub struct ManagerState {
    pub fs_type: FilesystemType,
    pub size_gb: u64,
    pub image_path: Seq<char>,
    pub mount_point: Seq<char>,
    pub loop_device: Option<Seq<char>>,
}

impl View for FilesystemManager {
    type V = ManagerState;

    closed spec fn view(&self) -> ManagerState {
        ManagerState {
            fs_type: self.fs_type,
            size_gb: self.size_gb,
            image_path: self.image_path@,
            mount_point: self.mount_point@,
            loop_device: match self.loop_device {
                Some(device) => Some(device@),
                None => None,
            },
        }
    }
}

impl ManagerState {
    /// The manager of a filesystem of `size_gb` gigabytes before its image is
    /// attached to a loop device.
    pub open spec fn fresh(fs_type: FilesystemType, size_gb: u64) -> ManagerState {
        ManagerState {
            fs_type,
            size_gb,
            image_path: image_path_of(fs_type),
            mount_point: mount_point_of(fs_type),
            loop_device: None,
        }
    }

    /// The arguments of `dd` that write the image: zeros, in blocks of a
    /// megabyte, 1024 of them per gigabyte.
    pub open spec fn create_image_args(self) -> Seq<Seq<char>> {
        seq![
            "if=/dev/zero"@,
            "of="@ + self.image_path,
            "bs=1M"@,
            "count="@ + decimal((self.size_gb * 1024) as nat),
        ]
    }
}

/// The views of the strings of `strings`.
pub open spec fn views(strings: Seq<String>) -> Seq<Seq<char>> {
    strings.map_values(|s: String| s@)
}

impl FilesystemManager {
    /// A manager for a filesystem of `size_gb` gigabytes. Its image is
    /// `/tmp/reflink-bench-` followed by the kernel's name of the filesystem
    /// and `.img`; its mount point is the same without `.img`.
    pub fn new(fs_type: FilesystemType, size_gb: u64) -> (manager: Result<
        FilesystemManager,
        ProvisionError,
    >)
        ensures
            manager is Ok,
            manager->Ok_0@ == ManagerState::fresh(fs_type, size_gb),
    {
        let mut image_path = String::from_str("/tmp/reflink-bench-");
        image_path.append(fs_type.kernel_name());
        image_path.append(".img");
        let mut mount_point = String::from_str("/tmp/reflink-bench-");
        mount_point.append(fs_type.kernel_name());
        Ok(FilesystemManager { fs_type, size_gb, image_path, mount_point, loop_device: None })
    }

    /// The directory that the filesystem is mounted on.
    pub fn mount_point(&self) -> (path: &str)
        ensures
            path@ == self@.mount_point,
    {
        self.mount_point.as_str()
    }

    /// The path of the image file.
    pub fn image_path(&self) -> (path: &str)
        ensures
            path@ == self@.image_path,
    {
        self.image_path.as_str()
    }

    /// The filesystem that this manager sets up.
    pub fn fs_type(&self) -> (fs_type: FilesystemType)
        ensures
            fs_type == self@.fs_type,
    {
        self.fs_type
    }

    /// The loop device that the image is attached to, if it is attached.
    pub fn loop_device(&self) -> (device: Option<&str>)
        ensures
            device is Some <==> self@.loop_device is Some,
            device is Some ==> device->Some_0@ == self@.loop_device->Some_0,
    {
        match &self.loop_device {
            Some(device) => Some(device.as_str()),
            None => None,
        }
    }

    /// Notes the loop device that the image has been attached to.
    pub fn set_loop_device(&mut self, device: String)
        ensures
            final(self)@ == (ManagerState { loop_device: Some(device@), ..old(self)@ }),
    {
        self.loop_device = Some(device);
    }

    /// The command that writes the image file: `dd` copies zeros into it, in
    /// blocks of a megabyte, 1024 of them per gigabyte.
    pub fn create_image_command(&self) -> (command: CommandLine)
        ensures
            command.program@ == "dd"@,
            views(command.args@) == self@.create_image_args(),
    {
        let mut output = String::from_str("of=");
        output.append(self.image_path.as_str());
        let blocks: u128 = self.size_gb as u128 * 1024;
        let mut count = String::from_str("count=");
        let digits = decimal_string(blocks);
        count.append(digits.as_str());
        let mut args: Vec<String> = Vec::new();
        args.push(String::from_str("if=/dev/zero"));
        args.push(output);
        args.push(String::from_str("bs=1M"));
        args.push(count);
        assert(views(args@) =~= self@.create_image_args());
        CommandLine { program: String::from_str("dd"), args }
    }

    /// The command that attaches the image to a free loop device and prints
    /// the device's name.
    pub fn attach_loop_command(&self) -> (command: CommandLine)
        ensures
            command.program@ == "losetup"@,
            views(command.args@) == seq!["-f"@, "--show"@, self@.image_path],
    {
        let mut args: Vec<String> = Vec::new();
        args.push(String::from_str("-f"));
        args.push(String::from_str("--show"));
        args.push(self.image_path.clone());
        assert(views(args@) =~= seq!["-f"@, "--show"@, self@.image_path]);
        CommandLine { program: String::from_str("losetup"), args }
    }

    /// The command that makes the filesystem on the loop device. It cannot be
    /// given before the image is attached.
    pub fn format_command(&self) -> (command: Result<CommandLine, ProvisionError>)
        ensures
            match command {
                Ok(line) => {
                    &&& self@.loop_device is Some
                    &&& line.program@ == self@.fs_type.mkfs_program_of()
                    &&& views(line.args@) == seq!["-f"@, self@.loop_device->Some_0]
                },
                Err(error) => self@.loop_device is None && error
                    == ProvisionError::LoopDeviceNotSet,
            },
    {
        match &self.loop_device {
            None => Err(ProvisionError::LoopDeviceNotSet),
            Some(device) => {
                let mut args: Vec<String> = Vec::new();
                args.push(String::from_str("-f"));
                args.push(device.clone());
                assert(views(args@) =~= seq!["-f"@, self@.loop_device->Some_0]);
                Ok(CommandLine { program: String::from_str(self.fs_type.mkfs_program()), args })
            },
        }
    }

    /// What to mount: the loop device, on the mount point, as the
    /// filesystem's kind. It cannot be given before the image is attached.
    pub fn mount_request(&self) -> (request: Result<MountRequest, ProvisionError>)
        ensures
            match request {
                Ok(mount) => {
                    &&& self@.loop_device is Some
                    &&& mount.source@ == self@.loop_device->Some_0
                    &&& mount.target@ == self@.mount_point
                    &&& mount.fs_type@ == self@.fs_type.kernel_name_of()
                },
                Err(error) => self@.loop_device is None && error
                    == ProvisionError::LoopDeviceNotSet,
            },
    {
        match &self.loop_device {
            None => Err(ProvisionError::LoopDeviceNotSet),
            Some(device) => Ok(
                MountRequest {
                    source: device.clone(),
                    target: self.mount_point.clone(),
                    fs_type: String::from_str(self.fs_type.kernel_name()),
                },
            ),
        }
    }

    /// The command that opens the mounted directory to every user.
    pub fn permissions_command(&self) -> (command: CommandLine)
        ensures
            command.program@ == "chmod"@,
            views(command.args@) == seq!["777"@, self@.mount_point],
    {
        let mut args: Vec<String> = Vec::new();
        args.push(String::from_str("777"));
        args.push(self.mount_point.clone());
        assert(views(args@) =~= seq!["777"@, self@.mount_point]);
        CommandLine { program: String::from_str("chmod"), args }
    }

    /// The command that detaches the loop device `device`.
    pub fn detach_loop_command(&self, device: &str) -> (command: CommandLine)
        ensures
            command.program@ == "losetup"@,
            views(command.args@) == seq!["-d"@, device@],
    {
        let mut args: Vec<String> = Vec::new();
        args.push(String::from_str("-d"));
        args.push(String::from_str(device));
        assert(views(args@) =~= seq!["-d"@, device@]);
        CommandLine { program: String::from_str("losetup"), args }
    }

    /// The steps that take the filesystem down, in order: unmount, detach the
    /// loop device if the image is attached to one, delete the image, delete
    /// the mount point.
    pub fn cleanup_steps(&self) -> (steps: Vec<CleanupStep>)
        ensures
            steps@ == cleanup_steps_of(self@.loop_device is Some),
    {
        let mut steps: Vec<CleanupStep> = Vec::new();
        steps.push(CleanupStep::Unmount);
        if self.loop_device.is_some() {
            steps.push(CleanupStep::DetachLoopDevice);
        }
        steps.push(CleanupStep::RemoveImage);
        steps.push(CleanupStep::RemoveMountPoint);
        assert(steps@ =~= cleanup_steps_of(self@.loop_device is Some));
        steps
    }
}

/// The filesystems that a benchmark compares, in the order in which they are
/// tested.
pub fn filesystems_under_test() -> (kinds: Vec<FilesystemType>)
    ensures
        kinds@ == seq![FilesystemType::Xfs, FilesystemType::Btrfs],
{
    let mut kinds: Vec<FilesystemType> = Vec::new();
    kinds.push(FilesystemType::Xfs);
    kinds.push(FilesystemType::Btrfs);
    assert(kinds@ =~= seq![FilesystemType::Xfs, FilesystemType::Btrfs]);
    kinds
}

/// A setup in which every step succeeds goes through all seven steps and is
/// then ready.
pub proof fn lemma_setup_reaches_ready()
    ensures
        SetupStep::RemoveLeftovers.after(true) == Some(SetupStep::CreateImage),
        SetupStep::CreateImage.after(true) == Some(SetupStep::AttachLoopDevice),
        SetupStep::AttachLoopDevice.after(true) == Some(SetupStep::Format),
        SetupStep::Format.after(true) == Some(SetupStep::CreateMountPoint),
        SetupStep::CreateMountPoint.after(true) == Some(SetupStep::Mount),
        SetupStep::Mount.after(true) == Some(SetupStep::SetPermissions),
        SetupStep::SetPermissions.after(true) == Some(SetupStep::Ready),
{
}

} // verus!
