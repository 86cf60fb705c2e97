//! The script that builds a disk from which Windows Setup runs unattended:
//! its steps, and what each step launches.

use crate::config::{
    driver_directory, join_path, joined, joined_all, unattend_file_names, unattend_paths,
    ImageSources,
};
use crate::runner::{
    first_missing, in_new_directory, just, script_view, CommandLine, Context, MissingVar, Plan,
    PlanView, Script, ScriptStep, StepView,
};
use crate::steps::{
    gpt_partition_queries, pair_paths, paired, partition_query, table_query, CopyPlan,
    CopyPlanView, GptPartitionInformation,
};
use crate::text::{
    copy_range, decimal, decimal_string, ends_with, from_chars, matches_at, starts_with,
    to_chars, trimmed_end, trimmed_end_len,
};
use vstd::prelude::*;
use vstd::string::StringExecFns;

verus! {

/// What the user asks of the script that builds an installation disk.
#[derive(Debug)]
pub struct BuildInstallationDiskArgs {
    /// The directory for temporary files.
    pub work_dir: String,
    /// The path of the disk image to create.
    pub output_image: String,
    /// Where the parts of the disk come from.
    pub sources: ImageSources,
}

/// The script that builds an installation disk.
pub struct BuildInstallationDiskScript {
    steps: Vec<ScriptStep<Step>>,
    args: BuildInstallationDiskArgs,
}

/// What a step of the script does.
#[derive(Clone, Copy, Debug, PartialEq, Eq, Structural)]
pub enum Step {
    /// Creates the blank disk image that holds the installer.
    CreateInstallerDisk,
    /// Writes an empty partition table to the installer disk.
    SetUpInstallerGptTable,
    /// Creates the setup and image partitions.
    CreateInstallerDiskPartitions,
    /// Gives the partitions the identifiers that the answer file names.
    SetInstallerDiskPartitionIds,
    /// Attaches the installer disk as a loopback device.
    MountInstallerDiskAsLoopbackDevice,
    /// Makes a FAT32 file system on the setup partition.
    CreateWinpeFat32,
    /// Mounts the setup partition.
    MountWinpePartition,
    /// Unpacks Windows Setup, without the image, onto the setup partition.
    ExtractSetupToWinpePartition,
    /// Copies the unattend files into the working directory.
    CopyUnattendFilesToWorkDir,
    /// Rewrites the answer file in the working directory.
    CustomizeAutounattendXml,
    /// Copies the answer files and scripts onto the setup partition.
    CopyUnattendToWinpePartition,
    /// Copies the cloudbase-init configuration onto the setup partition.
    CopyCloudbaseInitToWinpePartition,
    /// Unpacks the virtio drivers onto the setup partition.
    CopyVirtioToWinpePartition,
    /// Unmounts the setup partition.
    UnmountWinpePartition,
    /// Reads the figures of the image partition.
    GetWimPartitionParameters,
    /// Makes an NTFS file system on the image partition.
    CreateWimPartitionNtfs,
    /// Mounts the image partition.
    MountWimPartition,
    /// Unpacks the Windows image onto the image partition.
    CopyInstallWim,
    /// Unmounts the image partition.
    UnmountWimPartition,
    /// Flushes what was written to disk.
    FlushChanges,
    /// Detaches the loopback device.
    RemoveLoopbackDevice,
}

/// A step that launches no commands.
fn step(label: &'static str, action: Step) -> (made: ScriptStep<Step>)
    ensures
        made@ == (StepView { label: label@, action, commands: Seq::empty() }),
{
    ScriptStep::new(label, action)
}

/// A step that expects to launch `command`.
fn step_with(label: &'static str, action: Step, command: &'static str) -> (made: ScriptStep<Step>)
    ensures
        made@ == (StepView { label: label@, action, commands: seq![command@] }),
{
    let mut commands: Vec<&'static str> = Vec::new();
    commands.push(command);
    let wanted = commands.as_slice();
    assert(wanted.deep_view() =~= seq![command@]);
    ScriptStep::with_prereqs(label, action, wanted)
}

/// The steps that build an installation disk, in order.
pub open spec fn build_installation_disk_script() -> Seq<StepView<Step>> {
    seq![
        StepView {
            label: "create new disk to hold installer image"@,
            action: Step::CreateInstallerDisk,
            commands: seq!["qemu-img"@],
        },
        StepView {
            label: "set up GPT partition table on installer disk"@,
            action: Step::SetUpInstallerGptTable,
            commands: seq!["sgdisk"@],
        },
        StepView {
            label: "create partitions on installer disk"@,
            action: Step::CreateInstallerDiskPartitions,
            commands: seq!["sgdisk"@],
        },
        StepView {
            label: "set partition IDs for partitions on installer disk"@,
            action: Step::SetInstallerDiskPartitionIds,
            commands: seq!["sgdisk"@],
        },
        StepView {
            label: "mount installation image as loopback device"@,
            action: Step::MountInstallerDiskAsLoopbackDevice,
            commands: Seq::empty(),
        },
        StepView {
            label: "create FAT32 filesystem on WinPE partition"@,
            action: Step::CreateWinpeFat32,
            commands: Seq::empty(),
        },
        StepView {
            label: "mount WinPE partition"@,
            action: Step::MountWinpePartition,
            commands: Seq::empty(),
        },
        StepView {
            label: "extract setup files to WinPE partition"@,
            action: Step::ExtractSetupToWinpePartition,
            commands: seq!["7z"@],
        },
        StepView {
            label: "copy unattend files to working directory"@,
            action: Step::CopyUnattendFilesToWorkDir,
            commands: Seq::empty(),
        },
        StepView {
            label: "customizing Autounattend.xml"@,
            action: Step::CustomizeAutounattendXml,
            commands: Seq::empty(),
        },
        StepView {
            label: "copying unattend scripts to WinPE partition"@,
            action: Step::CopyUnattendToWinpePartition,
            commands: Seq::empty(),
        },
        StepView {
            label: "copying cloudbase-init scripts to WinPE partition"@,
            action: Step::CopyCloudbaseInitToWinpePartition,
            commands: Seq::empty(),
        },
        StepView {
            label: "copying virtio drivers to WinPE partition"@,
            action: Step::CopyVirtioToWinpePartition,
            commands: seq!["7z"@],
        },
        StepView {
            label: "unmounting WinPE partition"@,
            action: Step::UnmountWinpePartition,
            commands: Seq::empty(),
        },
        StepView {
            label: "reading partition parameters for WIM partition"@,
            action: Step::GetWimPartitionParameters,
            commands: seq!["sgdisk"@],
        },
        StepView {
            label: "creating NTFS filesystem on WIM partition"@,
            action: Step::CreateWimPartitionNtfs,
            commands: seq!["mkntfs"@],
        },
        StepView {
            label: "mounting WIM partition"@,
            action: Step::MountWimPartition,
            commands: seq!["ntfs-3g"@],
        },
        StepView {
            label: "unpacking install.wim into WIM partition"@,
            action: Step::CopyInstallWim,
            commands: seq!["7z"@],
        },
        StepView {
            label: "unmounting image partition"@,
            action: Step::UnmountWimPartition,
            commands: Seq::empty(),
        },
        StepView {
            label: "flushing changes to disk"@,
            action: Step::FlushChanges,
            commands: Seq::empty(),
        },
        StepView {
            label: "remove loopback device"@,
            action: Step::RemoveLoopbackDevice,
            commands: Seq::empty(),
        },
    ]
}

/// The steps that build an installation disk, in order.
fn build_installation_disk_steps() -> (steps: Vec<ScriptStep<Step>>)
    ensures
        script_view(steps@) == build_installation_disk_script(),
{
    let mut steps: Vec<ScriptStep<Step>> = Vec::new();
    steps.push(
        step_with(
            "create new disk to hold installer image",
            Step::CreateInstallerDisk,
            "qemu-img",
        ),
    );
    steps.push(
        step_with(
            "set up GPT partition table on installer disk",
            Step::SetUpInstallerGptTable,
            "sgdisk",
        ),
    );
    steps.push(
        step_with(
            "create partitions on installer disk",
            Step::CreateInstallerDiskPartitions,
            "sgdisk",
        ),
    );
    steps.push(
        step_with(
            "set partition IDs for partitions on installer disk",
            Step::SetInstallerDiskPartitionIds,
            "sgdisk",
        ),
    );
    steps.push(
        step(
            "mount installation image as loopback device",
            Step::MountInstallerDiskAsLoopbackDevice,
        ),
    );
    steps.push(step("create FAT32 filesystem on WinPE partition", Step::CreateWinpeFat32));
    steps.push(step("mount WinPE partition", Step::MountWinpePartition));
    steps.push(
        step_with(
            "extract setup files to WinPE partition",
            Step::ExtractSetupToWinpePartition,
            "7z",
        ),
    );
    steps.push(step("copy unattend files to working directory", Step::CopyUnattendFilesToWorkDir));
    steps.push(step("customizing Autounattend.xml", Step::CustomizeAutounattendXml));
    steps.push(
        step("copying unattend scripts to WinPE partition", Step::CopyUnattendToWinpePartition),
    );
    steps.push(
        step(
            "copying cloudbase-init scripts to WinPE partition",
            Step::CopyCloudbaseInitToWinpePartition,
        ),
    );
    steps.push(
        step_with(
            "copying virtio drivers to WinPE partition",
            Step::CopyVirtioToWinpePartition,
            "7z",
        ),
    );
    steps.push(step("unmounting WinPE partition", Step::UnmountWinpePartition));
    steps.push(
        step_with(
            "reading partition parameters for WIM partition",
            Step::GetWimPartitionParameters,
            "sgdisk",
        ),
    );
    steps.push(
        step_with(
            "creating NTFS filesystem on WIM partition",
            Step::CreateWimPartitionNtfs,
            "mkntfs",
        ),
    );
    steps.push(step_with("mounting WIM partition", Step::MountWimPartition, "ntfs-3g"));
    steps.push(step_with("unpacking install.wim into WIM partition", Step::CopyInstallWim, "7z"));
    steps.push(step("unmounting image partition", Step::UnmountWimPartition));
    steps.push(step("flushing changes to disk", Step::FlushChanges));
    steps.push(step("remove loopback device", Step::RemoveLoopbackDevice));
    assert(script_view(steps@) =~= build_installation_disk_script());
    steps
}

/// The values that the steps of the script that builds an installation
/// disk find in the store when the script starts. The driver directory is
/// that of Server 2022 unless the user names a release.
pub open spec fn initial_vars(args: BuildInstallationDiskArgs) -> Map<
    Seq<char>,
    Seq<char>,
> {
    let vars = Map::<Seq<char>, Seq<char>>::empty().insert("work_dir"@, args.work_dir@).insert(
        "windows_iso"@,
        args.sources.windows_iso@,
    ).insert("virtio_iso"@, args.sources.virtio_iso@).insert(
        "unattend_dir"@,
        args.sources.unattend_dir@,
    ).insert("output_image"@, args.output_image@);
    let indexed = match args.sources.unattend_image_index {
        Some(index) => vars.insert("unattend_image_index"@, decimal(index as nat)),
        None => vars,
    };
    match args.sources.windows_version {
        Some(version) => indexed.insert("windows_version"@, driver_directory(version)),
        None => indexed.insert("windows_version"@, "2k22"@),
    }
}

impl BuildInstallationDiskScript {
    /// What the user asked of the script.
    pub closed spec fn args_view(&self) -> BuildInstallationDiskArgs {
        self.args
    }

    /// The script's steps.
    pub closed spec fn steps_view(&self) -> Seq<ScriptStep<Step>> {
        self.steps@
    }

    /// The script for what the user asks.
    pub fn new(args: BuildInstallationDiskArgs) -> (script: Self)
        ensures
            script.args_view() == args,
            script_view(script.steps_view()) == build_installation_disk_script(),
    {
        BuildInstallationDiskScript { steps: build_installation_disk_steps(), args }
    }

    /// What the user asked of the script.
    pub fn args(&self) -> (args: &BuildInstallationDiskArgs)
        ensures
            *args == self.args_view(),
    {
        &self.args
    }

    /// The script's steps, in the order in which they run.
    pub fn steps(&self) -> (steps: &[ScriptStep<Step>])
        ensures
            steps@ == self.steps_view(),
    {
        self.steps.as_slice()
    }

    /// The files without which the script cannot run: the two ISOs.
    pub fn required_files(&self) -> (files: Vec<String>)
        ensures
            files.deep_view() == seq![
                self.args_view().sources.windows_iso@,
                self.args_view().sources.virtio_iso@,
            ],
    {
        let mut files: Vec<String> = Vec::new();
        files.push(self.args.sources.windows_iso.clone());
        files.push(self.args.sources.virtio_iso.clone());
        assert(files.deep_view() =~= seq![
            self.args.sources.windows_iso@,
            self.args.sources.virtio_iso@,
        ]);
        files
    }

    /// The files that the script can do without: the unattend files.
    pub fn optional_files(&self) -> (files: Vec<String>)
        ensures
            files.deep_view() == joined_all(
                self.args_view().sources.unattend_dir@,
                unattend_file_names(),
            ),
    {
        unattend_paths(self.args.sources.unattend_dir.as_str())
    }

    /// The store with which the script starts.
    pub fn initial_context(&self) -> (ctx: Context)
        ensures
            ctx@ == initial_vars(self.args_view()),
    {
        let args = &self.args;
        let mut ctx = Context::new();
        ctx.set_var("work_dir", args.work_dir.clone());
        ctx.set_var("windows_iso", args.sources.windows_iso.clone());
        ctx.set_var("virtio_iso", args.sources.virtio_iso.clone());
        ctx.set_var("unattend_dir", args.sources.unattend_dir.clone());
        ctx.set_var("output_image", args.output_image.clone());
        if let Some(index) = args.sources.unattend_image_index {
            ctx.set_var("unattend_image_index", decimal_string(index as u64));
        }
        match args.sources.windows_version {
            Some(version) => {
                ctx.set_var("windows_version", version.as_driver_path_component().to_owned());
            },
            None => {
                ctx.set_var("windows_version", "2k22".to_owned());
            },
        }
        ctx
    }
}

impl Script for BuildInstallationDiskScript {
    type Action = Step;

    /// The script's steps, in the order in which they run.
    fn steps(&self) -> (steps: &[ScriptStep<Step>])
        ensures
            steps@ == self.steps_view(),
    {
        BuildInstallationDiskScript::steps(self)
    }

    /// The files without which the script cannot run.
    fn required_files(&self) -> (files: Vec<String>)
        ensures
            files.deep_view() == seq![
                self.args_view().sources.windows_iso@,
                self.args_view().sources.virtio_iso@,
            ],
    {
        BuildInstallationDiskScript::required_files(self)
    }

    /// The files that the script can do without.
    fn optional_files(&self) -> (files: Vec<String>)
        ensures
            files.deep_view() == joined_all(
                self.args_view().sources.unattend_dir@,
                unattend_file_names(),
            ),
    {
        BuildInstallationDiskScript::optional_files(self)
    }

    /// The store with which the script starts.
    fn initial_context(&self) -> (ctx: Context)
        ensures
            ctx@ == initial_vars(self.args_view()),
    {
        BuildInstallationDiskScript::initial_context(self)
    }
}

/// Has `qemu-img` create the blank disk that holds the installer. The disk
/// has to be large enough that what is left of it beside the setup partition
/// of 1 GiB holds any `install.wim`; 8 GiB are enough for Server 2016 and
/// Server 2022.
pub fn create_installer_disk(ctx: &Context) -> (plan: Result<Plan, MissingVar>)
    ensures
        match first_missing(ctx@, seq!["output_image"@]) {
            Some(name) => plan matches Err(missing) && missing.name@ == name,
            None => plan matches Ok(plan) && plan.deep_view() == just(
                "qemu-img"@,
                seq!["create"@, "-f"@, "raw"@, ctx@["output_image"@], "8G"@],
            ),
        },
{
    proof {
        reveal_with_fuel(first_missing, 2);
    }
    let output_image = ctx.require("output_image")?;
    let mut arguments: Vec<String> = Vec::new();
    arguments.push("create".to_owned());
    arguments.push("-f".to_owned());
    arguments.push("raw".to_owned());
    arguments.push(output_image.to_owned());
    arguments.push("8G".to_owned());
    assert(arguments.deep_view() =~= seq!["create"@, "-f"@, "raw"@, ctx@["output_image"@], "8G"@]);
    Ok(Plan::just("qemu-img", arguments))
}

/// Has `sgdisk` write an empty partition table to the installer disk.
pub fn set_up_installer_gpt_table(ctx: &Context) -> (plan: Result<Plan, MissingVar>)
    ensures
        match first_missing(ctx@, seq!["output_image"@]) {
            Some(name) => plan matches Err(missing) && missing.name@ == name,
            None => plan matches Ok(plan) && plan.deep_view() == just(
                "sgdisk"@,
                seq!["-og"@, ctx@["output_image"@]],
            ),
        },
{
    proof {
        reveal_with_fuel(first_missing, 2);
    }
    let output_image = ctx.require("output_image")?;
    let mut arguments: Vec<String> = Vec::new();
    arguments.push("-og".to_owned());
    arguments.push(output_image.to_owned());
    assert(arguments.deep_view() =~= seq!["-og"@, ctx@["output_image"@]]);
    Ok(Plan::just("sgdisk", arguments))
}

/// Has `sgdisk` create the two partitions of the installer disk: one of 1 GiB
/// for Windows Setup, and one that takes the rest for the image.
pub fn create_installer_disk_partitions(ctx: &Context) -> (plan: Result<Plan, MissingVar>)
    ensures
        match first_missing(ctx@, seq!["output_image"@]) {
            Some(name) => plan matches Err(missing) && missing.name@ == name,
            None => plan matches Ok(plan) && plan.deep_view() == just(
                "sgdisk"@,
                seq![
                    "-n=1:0:+1G"@,
                    "-t"@,
                    "1:0700"@,
                    "-n=2:0:0"@,
                    "-t"@,
                    "2:0700"@,
                    ctx@["output_image"@],
                ],
            ),
        },
{
    proof {
        reveal_with_fuel(first_missing, 2);
    }
    let output_image = ctx.require("output_image")?;
    let mut arguments: Vec<String> = Vec::new();
    arguments.push("-n=1:0:+1G".to_owned());
    arguments.push("-t".to_owned());
    arguments.push("1:0700".to_owned());
    arguments.push("-n=2:0:0".to_owned());
    arguments.push("-t".to_owned());
    arguments.push("2:0700".to_owned());
    arguments.push(output_image.to_owned());
    assert(arguments.deep_view() =~= seq![
        "-n=1:0:+1G"@,
        "-t"@,
        "1:0700"@,
        "-n=2:0:0"@,
        "-t"@,
        "2:0700"@,
        ctx@["output_image"@],
    ]);
    Ok(Plan::just("sgdisk", arguments))
}

/// Has `sgdisk` give the two partitions the identifiers by which the answer
/// file names them.
pub fn set_installer_disk_partition_ids(ctx: &Context) -> (plan: Result<Plan, MissingVar>)
    ensures
        match first_missing(ctx@, seq!["output_image"@]) {
            Some(name) => plan matches Err(missing) && missing.name@ == name,
            None => plan matches Ok(plan) && plan.deep_view() == just(
                "sgdisk"@,
                seq![
                    "-u"@,
                    "1:569CBD84-352D-44D9-B92D-BF25B852925B"@,
                    "-u"@,
                    "2:A94E24F7-92C9-405C-82AA-9A1B45BA180C"@,
                    ctx@["output_image"@],
                ],
            ),
        },
{
    proof {
        reveal_with_fuel(first_missing, 2);
    }
    let output_image = ctx.require("output_image")?;
    let mut arguments: Vec<String> = Vec::new();
    arguments.push("-u".to_owned());
    arguments.push("1:569CBD84-352D-44D9-B92D-BF25B852925B".to_owned());
    arguments.push("-u".to_owned());
    arguments.push("2:A94E24F7-92C9-405C-82AA-9A1B45BA180C".to_owned());
    arguments.push(output_image.to_owned());
    assert(arguments.deep_view() =~= seq![
        "-u"@,
        "1:569CBD84-352D-44D9-B92D-BF25B852925B"@,
        "-u"@,
        "2:A94E24F7-92C9-405C-82AA-9A1B45BA180C"@,
        ctx@["output_image"@],
    ]);
    Ok(Plan::just("sgdisk", arguments))
}

/// Has `lofiadm` attach the installer disk as a loopback device. It prints
/// the path of the device, which `loopback_device` reads.
pub fn mount_installer_disk_as_loopback_device(ctx: &Context) -> (plan: Result<Plan, MissingVar>)
    ensures
        match first_missing(ctx@, seq!["output_image"@]) {
            Some(name) => plan matches Err(missing) && missing.name@ == name,
            None => plan matches Ok(plan) && plan.deep_view() == just(
                "pfexec"@,
                seq!["lofiadm"@, "-l"@, "-a"@, ctx@["output_image"@]],
            ),
        },
{
    proof {
        reveal_with_fuel(first_missing, 2);
    }
    let output_image = ctx.require("output_image")?;
    let mut arguments: Vec<String> = Vec::new();
    arguments.push("lofiadm".to_owned());
    arguments.push("-l".to_owned());
    arguments.push("-a".to_owned());
    arguments.push(output_image.to_owned());
    assert(arguments.deep_view() =~= seq!["lofiadm"@, "-l"@, "-a"@, ctx@["output_image"@]]);
    Ok(Plan::just("pfexec", arguments))
}

/// Has `mkfs` make a FAT32 file system on the setup partition. `mkfs` asks
/// before it writes; its standard input has to answer yes.
pub fn create_winpe_fat32(ctx: &Context) -> (plan: Result<Plan, MissingVar>)
    ensures
        match first_missing(ctx@, seq!["repack_loop_setup_raw"@]) {
            Some(name) => plan matches Err(missing) && missing.name@ == name,
            None => plan matches Ok(plan) && plan.deep_view() == just(
                "pfexec"@,
                seq!["mkfs"@, "-F"@, "pcfs"@, "-o"@, "fat=32"@, ctx@["repack_loop_setup_raw"@]],
            ),
        },
{
    proof {
        reveal_with_fuel(first_missing, 2);
    }
    let repack_loop_setup_raw = ctx.require("repack_loop_setup_raw")?;
    let mut arguments: Vec<String> = Vec::new();
    arguments.push("mkfs".to_owned());
    arguments.push("-F".to_owned());
    arguments.push("pcfs".to_owned());
    arguments.push("-o".to_owned());
    arguments.push("fat=32".to_owned());
    arguments.push(repack_loop_setup_raw.to_owned());
    assert(arguments.deep_view() =~= seq![
        "mkfs"@,
        "-F"@,
        "pcfs"@,
        "-o"@,
        "fat=32"@,
        ctx@["repack_loop_setup_raw"@],
    ]);
    Ok(Plan::just("pfexec", arguments))
}

/// Mounts the setup partition on the directory `setup-mount` in the working
/// directory, and leaves the path of that directory in the store.
pub fn mount_winpe_partition(ctx: &Context) -> (plan: Result<Plan, MissingVar>)
    ensures
        match first_missing(ctx@, seq!["work_dir"@, "repack_loop_setup"@]) {
            Some(name) => plan matches Err(missing) && missing.name@ == name,
            None => plan matches Ok(plan) && plan.deep_view() == in_new_directory(
                joined(ctx@["work_dir"@], "setup-mount"@),
                "pfexec"@,
                seq![
                    "mount"@,
                    "-F"@,
                    "pcfs"@,
                    ctx@["repack_loop_setup"@],
                    joined(ctx@["work_dir"@], "setup-mount"@),
                ],
                "setup_mount"@,
            ),
        },
{
    proof {
        reveal_with_fuel(first_missing, 3);
    }
    let work_dir = ctx.require("work_dir")?;
    let repack_loop_setup = ctx.require("repack_loop_setup")?;
    let setup_mount = join_path(work_dir, "setup-mount");
    let mut arguments: Vec<String> = Vec::new();
    arguments.push("mount".to_owned());
    arguments.push("-F".to_owned());
    arguments.push("pcfs".to_owned());
    arguments.push(repack_loop_setup.to_owned());
    arguments.push(setup_mount.as_str().to_owned());
    assert(arguments.deep_view() =~= seq![
        "mount"@,
        "-F"@,
        "pcfs"@,
        ctx@["repack_loop_setup"@],
        joined(ctx@["work_dir"@], "setup-mount"@),
    ]);
    Ok(Plan::in_new_directory(setup_mount, "pfexec", arguments, "setup_mount"))
}

/// Has `7z` unpack the Windows ISO onto the setup partition, all but the
/// image.
pub fn extract_setup_to_winpe_partition(ctx: &Context) -> (plan: Result<Plan, MissingVar>)
    ensures
        match first_missing(ctx@, seq!["windows_iso"@, "setup_mount"@]) {
            Some(name) => plan matches Err(missing) && missing.name@ == name,
            None => plan matches Ok(plan) && plan.deep_view() == just(
                "7z"@,
                seq![
                    "x"@,
                    "-x!sources/install.wim"@,
                    ctx@["windows_iso"@],
                    "-o"@ + ctx@["setup_mount"@],
                ],
            ),
        },
{
    proof {
        reveal_with_fuel(first_missing, 3);
    }
    let windows_iso = ctx.require("windows_iso")?;
    let setup_mount = ctx.require("setup_mount")?;
    let mut arguments: Vec<String> = Vec::new();
    arguments.push("x".to_owned());
    arguments.push("-x!sources/install.wim".to_owned());
    arguments.push(windows_iso.to_owned());
    let mut argument_3 = "-o".to_owned();
    argument_3.append(setup_mount);
    arguments.push(argument_3);
    assert(arguments.deep_view() =~= seq![
        "x"@,
        "-x!sources/install.wim"@,
        ctx@["windows_iso"@],
        "-o"@ + ctx@["setup_mount"@],
    ]);
    Ok(Plan::just("7z", arguments))
}

/// Unmounts the setup partition.
pub fn unmount_winpe_partition(ctx: &Context) -> (plan: Result<Plan, MissingVar>)
    ensures
        match first_missing(ctx@, seq!["setup_mount"@]) {
            Some(name) => plan matches Err(missing) && missing.name@ == name,
            None => plan matches Ok(plan) && plan.deep_view() == just(
                "pfexec"@,
                seq!["umount"@, ctx@["setup_mount"@]],
            ),
        },
{
    proof {
        reveal_with_fuel(first_missing, 2);
    }
    let setup_mount = ctx.require("setup_mount")?;
    let mut arguments: Vec<String> = Vec::new();
    arguments.push("umount".to_owned());
    arguments.push(setup_mount.to_owned());
    assert(arguments.deep_view() =~= seq!["umount"@, ctx@["setup_mount"@]]);
    Ok(Plan::just("pfexec", arguments))
}

/// Has `mkntfs` make an NTFS file system on the image partition, with the
/// figures of the partition that the store holds.
pub fn create_wim_partition_ntfs(ctx: &Context) -> (plan: Result<Plan, MissingVar>)
    ensures
        match first_missing(
            ctx@,
            seq!["sector_size"@, "first_sector"@, "partition_sectors"@, "repack_loop_image"@],
        ) {
            Some(name) => plan matches Err(missing) && missing.name@ == name,
            None => plan matches Ok(plan) && plan.deep_view() == just(
                "pfexec"@,
                seq![
                    "mkntfs"@,
                    "-Q"@,
                    "-s"@,
                    ctx@["sector_size"@],
                    "-p"@,
                    ctx@["first_sector"@],
                    "-H"@,
                    "16"@,
                    "-S"@,
                    "63"@,
                    ctx@["repack_loop_image"@],
                    ctx@["partition_sectors"@],
                ],
            ),
        },
{
    proof {
        reveal_with_fuel(first_missing, 5);
    }
    let sector_size = ctx.require("sector_size")?;
    let first_sector = ctx.require("first_sector")?;
    let partition_sectors = ctx.require("partition_sectors")?;
    let repack_loop_image = ctx.require("repack_loop_image")?;
    let mut arguments: Vec<String> = Vec::new();
    arguments.push("mkntfs".to_owned());
    arguments.push("-Q".to_owned());
    arguments.push("-s".to_owned());
    arguments.push(sector_size.to_owned());
    arguments.push("-p".to_owned());
    arguments.push(first_sector.to_owned());
    arguments.push("-H".to_owned());
    arguments.push("16".to_owned());
    arguments.push("-S".to_owned());
    arguments.push("63".to_owned());
    arguments.push(repack_loop_image.to_owned());
    arguments.push(partition_sectors.to_owned());
    assert(arguments.deep_view() =~= seq![
        "mkntfs"@,
        "-Q"@,
        "-s"@,
        ctx@["sector_size"@],
        "-p"@,
        ctx@["first_sector"@],
        "-H"@,
        "16"@,
        "-S"@,
        "63"@,
        ctx@["repack_loop_image"@],
        ctx@["partition_sectors"@],
    ]);
    Ok(Plan::just("pfexec", arguments))
}

/// Mounts the image partition on the directory `image-mount` in the working
/// directory, and leaves the path of that directory in the store.
pub fn mount_wim_partition(ctx: &Context) -> (plan: Result<Plan, MissingVar>)
    ensures
        match first_missing(ctx@, seq!["work_dir"@, "repack_loop_image"@]) {
            Some(name) => plan matches Err(missing) && missing.name@ == name,
            None => plan matches Ok(plan) && plan.deep_view() == in_new_directory(
                joined(ctx@["work_dir"@], "image-mount"@),
                "pfexec"@,
                seq![
                    "ntfs-3g"@,
                    ctx@["repack_loop_image"@],
                    joined(ctx@["work_dir"@], "image-mount"@),
                ],
                "image_mount"@,
            ),
        },
{
    proof {
        reveal_with_fuel(first_missing, 3);
    }
    let work_dir = ctx.require("work_dir")?;
    let repack_loop_image = ctx.require("repack_loop_image")?;
    let image_mount = join_path(work_dir, "image-mount");
    let mut arguments: Vec<String> = Vec::new();
    arguments.push("ntfs-3g".to_owned());
    arguments.push(repack_loop_image.to_owned());
    arguments.push(image_mount.as_str().to_owned());
    assert(arguments.deep_view() =~= seq![
        "ntfs-3g"@,
        ctx@["repack_loop_image"@],
        joined(ctx@["work_dir"@], "image-mount"@),
    ]);
    Ok(Plan::in_new_directory(image_mount, "pfexec", arguments, "image_mount"))
}

/// Has `7z` unpack the image out of the Windows ISO onto the image partition.
pub fn copy_install_wim(ctx: &Context) -> (plan: Result<Plan, MissingVar>)
    ensures
        match first_missing(ctx@, seq!["windows_iso"@, "image_mount"@]) {
            Some(name) => plan matches Err(missing) && missing.name@ == name,
            None => plan matches Ok(plan) && plan.deep_view() == just(
                "7z"@,
                seq![
                    "e"@,
                    "-i!sources/install.wim"@,
                    ctx@["windows_iso"@],
                    "-o"@ + ctx@["image_mount"@],
                ],
            ),
        },
{
    proof {
        reveal_with_fuel(first_missing, 3);
    }
    let windows_iso = ctx.require("windows_iso")?;
    let image_mount = ctx.require("image_mount")?;
    let mut arguments: Vec<String> = Vec::new();
    arguments.push("e".to_owned());
    arguments.push("-i!sources/install.wim".to_owned());
    arguments.push(windows_iso.to_owned());
    let mut argument_3 = "-o".to_owned();
    argument_3.append(image_mount);
    arguments.push(argument_3);
    assert(arguments.deep_view() =~= seq![
        "e"@,
        "-i!sources/install.wim"@,
        ctx@["windows_iso"@],
        "-o"@ + ctx@["image_mount"@],
    ]);
    Ok(Plan::just("7z", arguments))
}

/// Unmounts the image partition.
pub fn unmount_wim_partition(ctx: &Context) -> (plan: Result<Plan, MissingVar>)
    ensures
        match first_missing(ctx@, seq!["image_mount"@]) {
            Some(name) => plan matches Err(missing) && missing.name@ == name,
            None => plan matches Ok(plan) && plan.deep_view() == just(
                "pfexec"@,
                seq!["umount"@, ctx@["image_mount"@]],
            ),
        },
{
    proof {
        reveal_with_fuel(first_missing, 2);
    }
    let image_mount = ctx.require("image_mount")?;
    let mut arguments: Vec<String> = Vec::new();
    arguments.push("umount".to_owned());
    arguments.push(image_mount.to_owned());
    assert(arguments.deep_view() =~= seq!["umount"@, ctx@["image_mount"@]]);
    Ok(Plan::just("pfexec", arguments))
}

/// Has `sync` flush what was written to disk.
pub fn flush_changes(ctx: &Context) -> (plan: Result<Plan, MissingVar>)
    ensures
        match first_missing(ctx@, Seq::<Seq<char>>::empty()) {
            Some(name) => plan matches Err(missing) && missing.name@ == name,
            None => plan matches Ok(plan) && plan.deep_view() == just(
                "sync"@,
                Seq::<Seq<char>>::empty(),
            ),
        },
{
    proof {
        reveal_with_fuel(first_missing, 1);
    }
    let mut arguments: Vec<String> = Vec::new();
    assert(arguments.deep_view() =~= Seq::<Seq<char>>::empty());
    Ok(Plan::just("sync", arguments))
}

/// Has `lofiadm` detach the loopback device. The flushing needs a moment
/// first.
pub fn remove_loopback_device(ctx: &Context) -> (plan: Result<Plan, MissingVar>)
    ensures
        match first_missing(ctx@, seq!["repack_loop"@]) {
            Some(name) => plan matches Err(missing) && missing.name@ == name,
            None => plan matches Ok(plan) && plan.deep_view() == just(
                "pfexec"@,
                seq!["lofiadm"@, "-d"@, ctx@["repack_loop"@]],
            ),
        },
{
    proof {
        reveal_with_fuel(first_missing, 2);
    }
    let repack_loop = ctx.require("repack_loop")?;
    let mut arguments: Vec<String> = Vec::new();
    arguments.push("lofiadm".to_owned());
    arguments.push("-d".to_owned());
    arguments.push(repack_loop.to_owned());
    assert(arguments.deep_view() =~= seq!["lofiadm"@, "-d"@, ctx@["repack_loop"@]]);
    Ok(Plan::just("pfexec", arguments))
}

/// The device paths of a disk image attached as a loopback device.
#[derive(Debug)]
pub struct LoopbackDevice {
    /// The path that `lofiadm` printed, without the white space after it.
    pub repack_loop: String,
    /// The raw device of the first slice, the setup partition.
    pub repack_loop_setup_raw: String,
    /// The block device of the first slice, the setup partition.
    pub repack_loop_setup: String,
    /// The block device of the second slice, the image partition.
    pub repack_loop_image: String,
}

/// Why what `lofiadm` printed is no path to a loopback device.
#[derive(Clone, Copy, Debug, PartialEq, Eq, Structural)]
pub enum LoopbackError {
    /// The path does not lie under `/dev/dsk/`.
    NotUnderDevDsk,
    /// The path does not end in the partition `p0`.
    NoPartitionSuffix,
}

/// The name of the loopback device in what `lofiadm` printed: what stands
/// between `/dev/dsk/` at the start and `p0` at the end, white space after
/// it left aside.
pub open spec fn block_device(printed: Seq<char>) -> Result<Seq<char>, LoopbackError> {
    if !starts_with(printed, "/dev/dsk/"@) {
        Err(LoopbackError::NotUnderDevDsk)
    } else {
        let path = trimmed_end(printed.subrange("/dev/dsk/"@.len() as int, printed.len() as int));
        if !ends_with(path, "p0"@) {
            Err(LoopbackError::NoPartitionSuffix)
        } else {
            Ok(path.subrange(0, path.len() - "p0"@.len()))
        }
    }
}

/// Works out the device paths of the slices of a loopback device from the
/// path that `lofiadm` printed when it attached the disk image. `lofiadm`
/// names a partition of the device; the steps that follow work on slices.
pub fn loopback_device(printed: &str) -> (device: Result<LoopbackDevice, LoopbackError>)
    ensures
        match block_device(printed@) {
            Ok(name) => device matches Ok(found) && found.repack_loop@ == trimmed_end(printed@)
                && found.repack_loop_setup_raw@ == "/dev/rdsk/"@ + name + "s0"@
                && found.repack_loop_setup@ == "/dev/dsk/"@ + name + "s0"@
                && found.repack_loop_image@ == "/dev/dsk/"@ + name + "s1"@,
            Err(error) => device == Err::<LoopbackDevice, LoopbackError>(error),
        },
{
    let text = to_chars(printed);
    let prefix = to_chars("/dev/dsk/");
    let suffix = to_chars("p0");
    if !matches_at(&text, &prefix, 0) {
        return Err(LoopbackError::NotUnderDevDsk);
    }
    let rest = copy_range(&text, prefix.len(), text.len());
    let end = trimmed_end_len(&rest);
    let ghost path = trimmed_end(rest@);
    assert(rest@.take(end as int) == path);
    if suffix.len() > end {
        return Err(LoopbackError::NoPartitionSuffix);
    }
    let cut = end - suffix.len();
    let tail = copy_range(&rest, cut, end);
    assert(tail@ =~= path.subrange(path.len() - suffix.len(), path.len() as int));
    if !matches_at(&tail, &suffix, 0) {
        assert(tail@.subrange(0, suffix.len() as int) =~= tail@);
        return Err(LoopbackError::NoPartitionSuffix);
    }
    assert(tail@.subrange(0, suffix.len() as int) =~= tail@);
    let name = from_chars(&copy_range(&rest, 0, cut));
    assert(name@ =~= path.subrange(0, path.len() - suffix.len()));
    let whole = trimmed_end_len(&text);
    let repack_loop = from_chars(&copy_range(&text, 0, whole));
    assert(repack_loop@ =~= trimmed_end(printed@));
    let mut repack_loop_setup_raw = "/dev/rdsk/".to_owned();
    repack_loop_setup_raw.append(name.as_str());
    repack_loop_setup_raw.append("s0");
    let mut repack_loop_setup = "/dev/dsk/".to_owned();
    repack_loop_setup.append(name.as_str());
    repack_loop_setup.append("s0");
    let mut repack_loop_image = "/dev/dsk/".to_owned();
    repack_loop_image.append(name.as_str());
    repack_loop_image.append("s1");
    Ok(LoopbackDevice { repack_loop, repack_loop_setup_raw, repack_loop_setup, repack_loop_image })
}

/// The files of one kind of one driver in the directory of a release on a
/// virtio driver disk.
pub open spec fn driver_pattern(driver: Seq<char>, directory: Seq<char>, kind: Seq<char>) -> Seq<
    char,
> {
    driver + "/"@ + directory + "/amd64/*."@ + kind
}

/// The files to unpack from a virtio driver disk: for the block driver and
/// then for the network driver, the catalog, the setup information and the
/// driver itself, out of the directory of the release.
pub open spec fn driver_patterns_view(directory: Seq<char>) -> Seq<Seq<char>> {
    seq![
        driver_pattern("viostor"@, directory, "cat"@),
        driver_pattern("viostor"@, directory, "inf"@),
        driver_pattern("viostor"@, directory, "sys"@),
        driver_pattern("NetKVM"@, directory, "cat"@),
        driver_pattern("NetKVM"@, directory, "inf"@),
        driver_pattern("NetKVM"@, directory, "sys"@),
    ]
}

/// One pattern of files on a virtio driver disk.
fn pattern_for(driver: &str, directory: &str, kind: &str) -> (pattern: String)
    ensures
        pattern@ == driver_pattern(driver@, directory@, kind@),
{
    let mut pattern = driver.to_owned();
    pattern.append("/");
    pattern.append(directory);
    pattern.append("/amd64/*.");
    pattern.append(kind);
    pattern
}

/// The patterns of the files to unpack from a virtio driver disk, for the
/// release whose directory is `directory`.
pub fn driver_patterns(directory: &str) -> (patterns: Vec<String>)
    ensures
        patterns.deep_view() == driver_patterns_view(directory@),
{
    let mut patterns: Vec<String> = Vec::new();
    patterns.push(pattern_for("viostor", directory, "cat"));
    patterns.push(pattern_for("viostor", directory, "inf"));
    patterns.push(pattern_for("viostor", directory, "sys"));
    patterns.push(pattern_for("NetKVM", directory, "cat"));
    patterns.push(pattern_for("NetKVM", directory, "inf"));
    patterns.push(pattern_for("NetKVM", directory, "sys"));
    assert(patterns.deep_view() =~= driver_patterns_view(directory@));
    patterns
}

/// The seconds to leave the flushing to finish before the loopback
/// device is detached.
pub const FLUSH_SETTLE_SECONDS: u64 = 2;

impl LoopbackDevice {
    /// Leaves the device paths in the store, for the steps that make and
    /// mount the file systems.
    pub fn record(self, ctx: &mut Context)
        ensures
            final(ctx)@ == old(ctx)@.insert("repack_loop"@, self.repack_loop@).insert(
                "repack_loop_setup_raw"@,
                self.repack_loop_setup_raw@,
            ).insert("repack_loop_setup"@, self.repack_loop_setup@).insert(
                "repack_loop_image"@,
                self.repack_loop_image@,
            ),
    {
        ctx.set_var("repack_loop", self.repack_loop);
        ctx.set_var("repack_loop_setup_raw", self.repack_loop_setup_raw);
        ctx.set_var("repack_loop_setup", self.repack_loop_setup);
        ctx.set_var("repack_loop_image", self.repack_loop_image);
    }
}

/// The names of the unattend files that go to the root of the setup
/// partition.
pub open spec fn setup_file_names() -> Seq<Seq<char>> {
    seq!["Autounattend.xml"@, "OxidePrepBaseImage.ps1"@, "prep.cmd"@, "specialize-unattend.xml"@]
}

/// The names of the unattend files that go to the directory of
/// cloudbase-init on the setup partition.
pub open spec fn cloudbase_file_names() -> Seq<Seq<char>> {
    seq!["cloudbase-init-unattend.conf"@, "cloudbase-init.conf"@]
}

/// Plans the copying of the answer files and scripts to the root of the
/// setup partition. Each of them has to be there.
pub fn copy_unattend_to_winpe_partition(ctx: &Context) -> (plan: Result<CopyPlan, MissingVar>)
    ensures
        match first_missing(ctx@, seq!["setup_mount"@, "unattend_dir"@]) {
            Some(name) => plan matches Err(missing) && missing.name@ == name,
            None => plan matches Ok(found) && found.deep_view() == (CopyPlanView {
                directories: Seq::empty(),
                files: paired(ctx@["unattend_dir"@], ctx@["setup_mount"@], setup_file_names()),
                tolerate_missing: false,
                outcome: Seq::empty(),
            }),
        },
{
    proof {
        reveal_with_fuel(first_missing, 3);
    }
    let setup_mount = ctx.require("setup_mount")?;
    let unattend_dir = ctx.require("unattend_dir")?;
    let mut names: Vec<&'static str> = Vec::new();
    names.push("Autounattend.xml");
    names.push("OxidePrepBaseImage.ps1");
    names.push("prep.cmd");
    names.push("specialize-unattend.xml");
    assert(names.deep_view() =~= setup_file_names());
    let files = pair_paths(unattend_dir, setup_mount, &names);
    let plan = CopyPlan {
        directories: Vec::new(),
        files,
        tolerate_missing: false,
        outcome: Vec::new(),
    };
    assert(plan.deep_view().directories =~= Seq::<Seq<char>>::empty());
    assert(plan.deep_view().outcome =~= Seq::<(Seq<char>, Seq<char>)>::empty());
    Ok(plan)
}

/// Plans the copying of the configuration of cloudbase-init to its
/// directory on the setup partition. Each file has to be there.
pub fn copy_cloudbase_init_to_winpe_partition(ctx: &Context) -> (plan: Result<
    CopyPlan,
    MissingVar,
>)
    ensures
        match first_missing(ctx@, seq!["unattend_dir"@, "setup_mount"@]) {
            Some(name) => plan matches Err(missing) && missing.name@ == name,
            None => plan matches Ok(found) && found.deep_view() == (CopyPlanView {
                directories: seq![joined(ctx@["setup_mount"@], "cloudbase-init"@)],
                files: paired(
                    ctx@["unattend_dir"@],
                    joined(ctx@["setup_mount"@], "cloudbase-init"@),
                    cloudbase_file_names(),
                ),
                tolerate_missing: false,
                outcome: Seq::empty(),
            }),
        },
{
    proof {
        reveal_with_fuel(first_missing, 3);
    }
    let unattend_dir = ctx.require("unattend_dir")?;
    let setup_mount = ctx.require("setup_mount")?;
    let cloudbase_dir = join_path(setup_mount, "cloudbase-init");
    let mut names: Vec<&'static str> = Vec::new();
    names.push("cloudbase-init-unattend.conf");
    names.push("cloudbase-init.conf");
    assert(names.deep_view() =~= cloudbase_file_names());
    let files = pair_paths(unattend_dir, cloudbase_dir.as_str(), &names);
    let mut directories: Vec<String> = Vec::new();
    directories.push(cloudbase_dir);
    let plan = CopyPlan { directories, files, tolerate_missing: false, outcome: Vec::new() };
    assert(plan.deep_view().directories =~= seq![joined(ctx@["setup_mount"@], "cloudbase-init"@)]);
    assert(plan.deep_view().outcome =~= Seq::<(Seq<char>, Seq<char>)>::empty());
    Ok(plan)
}

/// The plan that has `7z` unpack the files that match `pattern` out of the
/// driver disk into the directory of the drivers on the setup partition.
pub open spec fn driver_extraction(
    virtio_iso: Seq<char>,
    setup_mount: Seq<char>,
    pattern: Seq<char>,
) -> PlanView {
    just("7z"@, seq!["e"@, virtio_iso, "-o"@ + setup_mount + "/virtio-drivers/"@, pattern])
}

/// Plans the unpacking of the virtio drivers onto the setup partition: one
/// run of `7z` for each kind of file of each driver, out of the directory
/// of the release that the store names.
pub fn copy_virtio_to_winpe_partition(ctx: &Context) -> (plans: Result<Vec<Plan>, MissingVar>)
    ensures
        match first_missing(ctx@, seq!["setup_mount"@, "virtio_iso"@, "windows_version"@]) {
            Some(name) => plans matches Err(missing) && missing.name@ == name,
            None => plans matches Ok(plans) && plans.deep_view() == Seq::new(
                6,
                |i: int|
                    driver_extraction(
                        ctx@["virtio_iso"@],
                        ctx@["setup_mount"@],
                        driver_patterns_view(ctx@["windows_version"@])[i],
                    ),
            ),
        },
{
    proof {
        reveal_with_fuel(first_missing, 4);
    }
    let setup_mount = ctx.require("setup_mount")?;
    let virtio_iso = ctx.require("virtio_iso")?;
    let windows_version = ctx.require("windows_version")?;
    let patterns = driver_patterns(windows_version);
    assert(patterns.deep_view().len() == 6);
    let mut plans: Vec<Plan> = Vec::new();
    let mut i: usize = 0;
    while i < patterns.len()
        invariant
            i <= patterns.len(),
            patterns.len() == 6,
            patterns.deep_view() == driver_patterns_view(windows_version@),
            plans.len() == i,
            forall|k: int|
                0 <= k < i ==> (#[trigger] plans[k]).deep_view() == driver_extraction(
                    virtio_iso@,
                    setup_mount@,
                    driver_patterns_view(windows_version@)[k],
                ),
        decreases patterns.len() - i,
    {
        let mut target = "-o".to_owned();
        target.append(setup_mount);
        target.append("/virtio-drivers/");
        let mut arguments: Vec<String> = Vec::new();
        arguments.push("e".to_owned());
        arguments.push(virtio_iso.to_owned());
        arguments.push(target);
        arguments.push(patterns[i].clone());
        assert(patterns.deep_view()[i as int] == patterns[i as int]@);
        assert(arguments.deep_view() =~= seq![
            "e"@,
            virtio_iso@,
            "-o"@ + setup_mount@ + "/virtio-drivers/"@,
            driver_patterns_view(windows_version@)[i as int],
        ]);
        plans.push(Plan::just("7z", arguments));
        i += 1;
    }
    assert(plans.deep_view() =~= Seq::new(
        6,
        |i: int|
            driver_extraction(
                ctx@["virtio_iso"@],
                ctx@["setup_mount"@],
                driver_patterns_view(ctx@["windows_version"@])[i],
            ),
    ));
    Ok(plans)
}

/// The number of the partition of the installer disk that holds the image.
pub const WIM_PARTITION: u32 = 2;

/// The commands whose output holds the figures of the image partition of
/// the installer disk.
pub fn wim_partition_queries(ctx: &Context) -> (queries: Result<Vec<CommandLine>, MissingVar>)
    ensures
        match first_missing(ctx@, seq!["output_image"@]) {
            Some(name) => queries matches Err(missing) && missing.name@ == name,
            None => queries matches Ok(queries) && queries.deep_view() == seq![
                table_query(ctx@["output_image"@]),
                partition_query(ctx@["output_image"@], WIM_PARTITION),
                partition_query(ctx@["output_image"@], WIM_PARTITION),
                partition_query(ctx@["output_image"@], WIM_PARTITION),
            ],
        },
{
    proof {
        reveal_with_fuel(first_missing, 2);
    }
    let output_image = ctx.require("output_image")?;
    Ok(gpt_partition_queries(output_image, WIM_PARTITION))
}

/// Leaves the sector size, the first sector and the number of sectors of
/// the image partition in the store, for the step that makes its file
/// system.
pub fn get_wim_partition_parameters(ctx: &mut Context, params: GptPartitionInformation)
    ensures
        final(ctx)@ == old(ctx)@.insert("sector_size"@, params.sector_size@).insert(
            "first_sector"@,
            params.first_sector@,
        ).insert("partition_sectors"@, params.partition_sectors@),
{
    ctx.set_var("sector_size", params.sector_size);
    ctx.set_var("first_sector", params.first_sector);
    ctx.set_var("partition_sectors", params.partition_sectors);
}

} // verus!
