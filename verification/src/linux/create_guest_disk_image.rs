//! The script that creates a Windows guest image with QEMU as the
//! installation VM: its steps, and what each step launches.

use crate::config::{
    join_path, joined, joined_all, unattend_file_names, unattend_paths, ImageSources,
};
use crate::runner::{
    first_missing, just, leaving, script_view, CommandLine, CommandView, Context, MissingVar, Plan,
    Script, ScriptStep, StepView,
};
use crate::steps::{
    gpt_partition_queries, partition_query, record_partition_size, resize_arguments_view,
    shrink_image_in_store, table_query, trimmed_size_of, GptPartitionInformation, ShrinkPlan,
    ShrinkStepError, OUTPUT_IMAGE_SIZE, WINDOWS_PARTITION,
};
use vstd::prelude::*;
use vstd::string::StringExecFns;

verus! {

/// What the user asks of the script.
#[derive(Debug)]
pub struct CreateGuestDiskImageArgs {
    /// The directory for temporary files.
    pub work_dir: String,
    /// The path of the image to create.
    pub output_image: String,
    /// Where the parts of the image come from.
    pub sources: ImageSources,
    /// The path to the OVMF firmware to give to QEMU.
    pub ovmf_path: String,
    /// Whether the installation VM shows a graphical console.
    pub vga_console: bool,
}

/// The script that creates a guest disk image.
pub struct CreateGuestDiskImageScript {
    steps: Vec<ScriptStep<Step>>,
    args: CreateGuestDiskImageArgs,
}

/// What a step of the script does.
#[derive(Clone, Copy, Debug, PartialEq, Eq, Structural)]
pub enum Step {
    /// Creates the blank disk image to which Windows is installed.
    CreateOutputImage,
    /// Packs the unattend files into an ISO for the installation VM.
    CreateConfigIso,
    /// Copies the unattend files into the working directory.
    CopyUnattendFilesToWorkDir,
    /// Rewrites the answer file in the working directory.
    CustomizeAutounattendXml,
    /// Runs Windows Setup in a QEMU VM.
    InstallViaQemu,
    /// Reads the sector size and the last sector of the Windows partition.
    GetPartitionSize,
    /// Trims the unused sectors from the end of the image.
    ShrinkOutputImage,
    /// Writes a new secondary partition table at the end of the image.
    RepairSecondaryGpt,
}

/// A step that launches no commands.
fn step(label: &'static str, action: Step) -> (made: ScriptStep<Step>)
    ensures
        made@ == (StepView { label: label@, action, commands: Seq::empty() }),
{
    ScriptStep::new(label, action)
}

/// A step that expects to launch `command`.
fn step_with(label: &'static str, action: Step, command: &'static str) -> (made: ScriptStep<Step>)
    ensures
        made@ == (StepView { label: label@, action, commands: seq![command@] }),
{
    let mut commands: Vec<&'static str> = Vec::new();
    commands.push(command);
    let wanted = commands.as_slice();
    assert(wanted.deep_view() =~= seq![command@]);
    ScriptStep::with_prereqs(label, action, wanted)
}

/// The steps that create a guest disk image, in order.
pub open spec fn create_guest_disk_image_script() -> Seq<StepView<Step>> {
    seq![
        StepView {
            label: "create output image"@,
            action: Step::CreateOutputImage,
            commands: seq!["qemu-img"@],
        },
        StepView {
            label: "create guest configuration ISO"@,
            action: Step::CreateConfigIso,
            commands: seq!["genisoimage"@],
        },
        StepView {
            label: "copy unattend files to work directory"@,
            action: Step::CopyUnattendFilesToWorkDir,
            commands: Seq::empty(),
        },
        StepView {
            label: "customize Autounattend.xml"@,
            action: Step::CustomizeAutounattendXml,
            commands: Seq::empty(),
        },
        StepView {
            label: "install Windows to output image using QEMU"@,
            action: Step::InstallViaQemu,
            commands: seq!["qemu-system-x86_64"@],
        },
        StepView {
            label: "get size of primary installation partition"@,
            action: Step::GetPartitionSize,
            commands: seq!["sgdisk"@],
        },
        StepView {
            label: "trim unused sectors from output image"@,
            action: Step::ShrinkOutputImage,
            commands: seq!["qemu-img"@],
        },
        StepView {
            label: "repair secondary GPT in output image"@,
            action: Step::RepairSecondaryGpt,
            commands: seq!["sgdisk"@],
        },
    ]
}

/// The steps that create a guest disk image, in order.
fn create_guest_disk_image_steps() -> (steps: Vec<ScriptStep<Step>>)
    ensures
        script_view(steps@) == create_guest_disk_image_script(),
{
    let mut steps: Vec<ScriptStep<Step>> = Vec::new();
    steps.push(step_with("create output image", Step::CreateOutputImage, "qemu-img"));
    steps.push(step_with("create guest configuration ISO", Step::CreateConfigIso, "genisoimage"));
    steps.push(step("copy unattend files to work directory", Step::CopyUnattendFilesToWorkDir));
    steps.push(step("customize Autounattend.xml", Step::CustomizeAutounattendXml));
    steps.push(
        step_with(
            "install Windows to output image using QEMU",
            Step::InstallViaQemu,
            "qemu-system-x86_64",
        ),
    );
    steps.push(
        step_with("get size of primary installation partition", Step::GetPartitionSize, "sgdisk"),
    );
    steps.push(
        step_with("trim unused sectors from output image", Step::ShrinkOutputImage, "qemu-img"),
    );
    steps.push(
        step_with("repair secondary GPT in output image", Step::RepairSecondaryGpt, "sgdisk"),
    );
    assert(script_view(steps@) =~= create_guest_disk_image_script());
    steps
}

/// The values that the script's steps find in the store when the script
/// starts.
pub open spec fn initial_vars(args: CreateGuestDiskImageArgs) -> Map<Seq<char>, Seq<char>> {
    let vars = Map::<Seq<char>, Seq<char>>::empty().insert("work_dir"@, args.work_dir@).insert(
        "windows_iso"@,
        args.sources.windows_iso@,
    ).insert("virtio_iso"@, args.sources.virtio_iso@).insert(
        "unattend_dir"@,
        args.sources.unattend_dir@,
    ).insert("output_image"@, args.output_image@).insert("ovmf_path"@, args.ovmf_path@);
    if args.vga_console {
        vars.insert("vga_console"@, Seq::empty())
    } else {
        vars
    }
}

impl CreateGuestDiskImageScript {
    /// What the user asked of the script.
    pub closed spec fn args_view(&self) -> CreateGuestDiskImageArgs {
        self.args
    }

    /// The script's steps.
    pub closed spec fn steps_view(&self) -> Seq<ScriptStep<Step>> {
        self.steps@
    }

    /// The script for what the user asks.
    pub fn new(args: CreateGuestDiskImageArgs) -> (script: Self)
        ensures
            script.args_view() == args,
            script_view(script.steps_view()) == create_guest_disk_image_script(),
    {
        CreateGuestDiskImageScript { steps: create_guest_disk_image_steps(), args }
    }

    /// What the user asked of the script.
    pub fn args(&self) -> (args: &CreateGuestDiskImageArgs)
        ensures
            *args == self.args_view(),
    {
        &self.args
    }

    /// The script's steps, in the order in which they run.
    pub fn steps(&self) -> (steps: &[ScriptStep<Step>])
        ensures
            steps@ == self.steps_view(),
    {
        self.steps.as_slice()
    }

    /// The files without which the script cannot run: the two ISOs and the
    /// firmware.
    pub fn required_files(&self) -> (files: Vec<String>)
        ensures
            files.deep_view() == seq![
                self.args_view().sources.windows_iso@,
                self.args_view().sources.virtio_iso@,
                self.args_view().ovmf_path@,
            ],
    {
        let mut files: Vec<String> = Vec::new();
        files.push(self.args.sources.windows_iso.clone());
        files.push(self.args.sources.virtio_iso.clone());
        files.push(self.args.ovmf_path.clone());
        assert(files.deep_view() =~= seq![
            self.args.sources.windows_iso@,
            self.args.sources.virtio_iso@,
            self.args.ovmf_path@,
        ]);
        files
    }

    /// The files that the script can do without, though the user most
    /// likely wants them: the unattend files. The Windows ISO may carry an
    /// answer file of its own.
    pub fn optional_files(&self) -> (files: Vec<String>)
        ensures
            files.deep_view() == joined_all(
                self.args_view().sources.unattend_dir@,
                unattend_file_names(),
            ),
    {
        unattend_paths(self.args.sources.unattend_dir.as_str())
    }

    /// The store with which the script starts.
    pub fn initial_context(&self) -> (ctx: Context)
        ensures
            ctx@ == initial_vars(self.args_view()),
    {
        let args = &self.args;
        let mut ctx = Context::new();
        ctx.set_var("work_dir", args.work_dir.clone());
        ctx.set_var("windows_iso", args.sources.windows_iso.clone());
        ctx.set_var("virtio_iso", args.sources.virtio_iso.clone());
        ctx.set_var("unattend_dir", args.sources.unattend_dir.clone());
        ctx.set_var("output_image", args.output_image.clone());
        ctx.set_var("ovmf_path", args.ovmf_path.clone());
        if args.vga_console {
            ctx.set_var("vga_console", String::new());
        }
        ctx
    }
}

impl Script for CreateGuestDiskImageScript {
    type Action = Step;

    /// The script's steps, in the order in which they run.
    fn steps(&self) -> (steps: &[ScriptStep<Step>])
        ensures
            steps@ == self.steps_view(),
    {
        CreateGuestDiskImageScript::steps(self)
    }

    /// The files without which the script cannot run.
    fn required_files(&self) -> (files: Vec<String>)
        ensures
            files.deep_view() == seq![
                self.args_view().sources.windows_iso@,
                self.args_view().sources.virtio_iso@,
                self.args_view().ovmf_path@,
            ],
    {
        CreateGuestDiskImageScript::required_files(self)
    }

    /// The files that the script can do without.
    fn optional_files(&self) -> (files: Vec<String>)
        ensures
            files.deep_view() == joined_all(
                self.args_view().sources.unattend_dir@,
                unattend_file_names(),
            ),
    {
        CreateGuestDiskImageScript::optional_files(self)
    }

    /// The store with which the script starts.
    fn initial_context(&self) -> (ctx: Context)
        ensures
            ctx@ == initial_vars(self.args_view()),
    {
        CreateGuestDiskImageScript::initial_context(self)
    }
}

/// Has `qemu-img` create the blank image to which Windows is installed.
pub fn create_output_image(ctx: &Context) -> (plan: Result<Plan, MissingVar>)
    ensures
        match first_missing(ctx@, seq!["output_image"@]) {
            Some(name) => plan matches Err(missing) && missing.name@ == name,
            None => plan matches Ok(plan) && plan.deep_view() == just(
                "qemu-img"@,
                seq!["create"@, "-f"@, "raw"@, ctx@["output_image"@], OUTPUT_IMAGE_SIZE@],
            ),
        },
{
    proof {
        reveal_with_fuel(first_missing, 2);
    }
    let output_image = ctx.require("output_image")?;
    Ok(crate::steps::create_output_image(output_image))
}

/// The commands whose output holds the figures of the Windows partition of
/// the installed image.
pub fn partition_size_queries(ctx: &Context) -> (queries: Result<Vec<CommandLine>, MissingVar>)
    ensures
        match first_missing(ctx@, seq!["output_image"@]) {
            Some(name) => queries matches Err(missing) && missing.name@ == name,
            None => queries matches Ok(queries) && queries.deep_view() == seq![
                table_query(ctx@["output_image"@]),
                partition_query(ctx@["output_image"@], WINDOWS_PARTITION),
                partition_query(ctx@["output_image"@], WINDOWS_PARTITION),
                partition_query(ctx@["output_image"@], WINDOWS_PARTITION),
            ],
        },
{
    proof {
        reveal_with_fuel(first_missing, 2);
    }
    let output_image = ctx.require("output_image")?;
    Ok(gpt_partition_queries(output_image, WINDOWS_PARTITION))
}

/// Leaves the sector size and the last sector of the Windows partition in
/// the store, for the step that trims the image.
pub fn get_partition_size(ctx: &mut Context, info: GptPartitionInformation)
    ensures
        final(ctx)@ == old(ctx)@.insert("sector_size"@, info.sector_size@).insert(
            "last_sector"@,
            info.last_sector@,
        ),
{
    record_partition_size(ctx, info)
}

/// Plans the trimming of the unused sectors from the end of the installed
/// image.
pub fn shrink_output_image(ctx: &Context) -> (plan: Result<ShrinkPlan, ShrinkStepError>)
    ensures
        match first_missing(ctx@, seq!["output_image"@, "sector_size"@, "last_sector"@]) {
            Some(name) => plan matches Err(ShrinkStepError::Missing(missing)) && missing.name@
                == name,
            None => match trimmed_size_of(ctx@["sector_size"@], ctx@["last_sector"@]) {
                Ok(size) => plan matches Ok(found) && found.with_flag.deep_view() == (CommandView {
                    program: "qemu-img"@,
                    arguments: resize_arguments_view(ctx@["output_image"@], size, true),
                }) && found.without_flag.deep_view() == (CommandView {
                    program: "qemu-img"@,
                    arguments: resize_arguments_view(ctx@["output_image"@], size, false),
                }),
                Err(error) => plan matches Err(ShrinkStepError::Size(found)) && found == error,
            },
        },
{
    shrink_image_in_store(ctx)
}

/// Has `sgdisk` write a new secondary partition table at the end of the
/// trimmed image.
pub fn repair_secondary_gpt(ctx: &Context) -> (plan: Result<Plan, MissingVar>)
    ensures
        match first_missing(ctx@, seq!["output_image"@]) {
            Some(name) => plan matches Err(missing) && missing.name@ == name,
            None => plan matches Ok(plan) && plan.deep_view() == just(
                "sgdisk"@,
                seq!["-e"@, ctx@["output_image"@]],
            ),
        },
{
    proof {
        reveal_with_fuel(first_missing, 2);
    }
    let output_image = ctx.require("output_image")?;
    Ok(crate::steps::repair_secondary_gpt(output_image))
}

/// Has `genisoimage` pack the unattend files into the ISO `unattend.iso` in
/// the working directory, and leaves the path of the ISO in the store.
pub fn create_config_iso(ctx: &Context) -> (plan: Result<Plan, MissingVar>)
    ensures
        match first_missing(ctx@, seq!["work_dir"@, "unattend_dir"@]) {
            Some(name) => plan matches Err(missing) && missing.name@ == name,
            None => plan matches Ok(plan) && plan.deep_view() == leaving(
                "genisoimage"@,
                seq![
                    "-J"@,
                    "-R"@,
                    "-o"@,
                    joined(ctx@["work_dir"@], "unattend.iso"@),
                    ctx@["unattend_dir"@],
                ],
                "unattend_iso"@,
                joined(ctx@["work_dir"@], "unattend.iso"@),
            ),
        },
{
    proof {
        reveal_with_fuel(first_missing, 3);
    }
    let work_dir = ctx.require("work_dir")?;
    let unattend_dir = ctx.require("unattend_dir")?;
    let unattend_iso = join_path(work_dir, "unattend.iso");
    let mut arguments: Vec<String> = Vec::new();
    arguments.push("-J".to_owned());
    arguments.push("-R".to_owned());
    arguments.push("-o".to_owned());
    arguments.push(unattend_iso.as_str().to_owned());
    arguments.push(unattend_dir.to_owned());
    assert(arguments.deep_view() =~= seq![
        "-J"@,
        "-R"@,
        "-o"@,
        joined(ctx@["work_dir"@], "unattend.iso"@),
        ctx@["unattend_dir"@],
    ]);
    Ok(Plan::leaving("genisoimage", arguments, "unattend_iso", unattend_iso))
}

/// The NVMe disk of the installation VM, from which its firmware boots
/// first.
pub const QEMU_NVME_DISK: &'static str =
    "nvme,drive=drivec,serial=01de01de,physical_block_size=512,logical_block_size=512,\
    discard_granularity=512,bootindex=1";

/// The arguments with which QEMU runs the installation, but for those
/// that choose the display: a VM with two processors and 2 GiB of memory,
/// the image to install to as an NVMe disk, and the Windows ISO, the
/// driver ISO and the ISO with the unattend files as CD-ROM drives. Windows
/// Setup finds the answer file on the last of them. The serial port goes to
/// the standard output, because the script that prepares the image writes
/// its report there and fails without one; the monitor listens on a TCP
/// port, so that key presses can be sent to the guest.
pub open spec fn qemu_machine_arguments(vars: Map<Seq<char>, Seq<char>>) -> Seq<Seq<char>> {
    seq![
        "-nodefaults"@,
        "-enable-kvm"@,
        "-M"@,
        "pc"@,
        "-m"@,
        "2048"@,
        "-cpu"@,
        "host,kvm=off,hv_relaxed,hv_spinlocks=0x1fff,hv_vapic,hv_time"@,
        "-smp"@,
        "2,sockets=1,cores=2"@,
        "-rtc"@,
        "base=localtime"@,
        "-drive"@,
        "if=pflash,format=raw,readonly=on,file="@ + vars["ovmf_path"@],
        "-netdev"@,
        "user,id=net0"@,
        "-device"@,
        "virtio-net-pci,netdev=net0"@,
        "-device"@,
        QEMU_NVME_DISK@,
        "-drive"@,
        "if=none,id=drivec,file="@ + vars["output_image"@] + ",format=raw"@,
        "-device"@,
        "ide-cd,drive=win-disk,id=cd-disk0,unit=0,bus=ide.0,bootindex=2"@,
        "-drive"@,
        "file="@ + vars["windows_iso"@] + ",if=none,id=win-disk,media=cdrom"@,
        "-device"@,
        "ide-cd,drive=virtio-disk,id=cd-disk1,unit=0,bus=ide.1"@,
        "-drive"@,
        "file="@ + vars["virtio_iso"@] + ",if=none,id=virtio-disk,media=cdrom"@,
        "-device"@,
        "ide-cd,drive=unattend-disk,id=cd-disk2,unit=1,bus=ide.0"@,
        "-drive"@,
        "file="@ + vars["unattend_iso"@] + ",if=none,id=unattend-disk,media=cdrom"@,
        "-serial"@,
        "stdio"@,
        "-monitor"@,
        "telnet:localhost:8888,server,nowait"@,
    ]
}

/// The arguments that choose QEMU's display: a window if the store holds
/// `vga_console`, none otherwise.
pub open spec fn qemu_display_arguments(vars: Map<Seq<char>, Seq<char>>) -> Seq<Seq<char>> {
    if vars.contains_key("vga_console"@) {
        seq!["-vga"@, "std"@, "-display"@, "gtk"@]
    } else {
        seq!["-display"@, "none"@]
    }
}

/// The address at which QEMU's monitor listens.
pub const MONITOR_ADDRESS: &'static str = "127.0.0.1:8888";

/// How often a connection to the monitor is tried again after it was
/// refused. QEMU needs a moment to open the port.
pub const MONITOR_RETRIES: u32 = 10;

/// The seconds to wait before a connection to the monitor is tried again,
/// and between two presses of the Enter key.
pub const MONITOR_PAUSE_SECONDS: u64 = 1;

/// The monitor command that presses the Enter key in the guest.
pub const ENTER_KEY_COMMAND: &'static str = "sendkey ret\n";

/// How often the Enter key is pressed in the guest, to get past the prompt
/// to press any key to boot from the CD and past the Windows boot menu.
pub const ENTER_KEY_PRESSES: u32 = 20;

/// What to do when a connection to the monitor was refused and `retries`
/// connections were tried again before it: try again, as the one after
/// those, or give up.
pub fn after_refused_connection(retries: u32) -> (next: Option<u32>)
    ensures
        next == if retries < MONITOR_RETRIES {
            Some((retries + 1) as u32)
        } else {
            None::<u32>
        },
{
    if retries < MONITOR_RETRIES {
        Some(retries + 1)
    } else {
        None
    }
}

/// The command that runs the installation in QEMU.
pub fn install_via_qemu(ctx: &Context) -> (command: Result<CommandLine, MissingVar>)
    ensures
        match first_missing(
            ctx@,
            seq!["ovmf_path"@, "output_image"@, "windows_iso"@, "virtio_iso"@, "unattend_iso"@],
        ) {
            Some(name) => command matches Err(missing) && missing.name@ == name,
            None => command matches Ok(command) && command.deep_view() == (CommandView {
                program: "qemu-system-x86_64"@,
                arguments: qemu_machine_arguments(ctx@) + qemu_display_arguments(ctx@),
            }),
        },
{
    proof {
        reveal_with_fuel(first_missing, 6);
    }
    let ovmf_path = ctx.require("ovmf_path")?;
    let output_image = ctx.require("output_image")?;
    let windows_iso = ctx.require("windows_iso")?;
    let virtio_iso = ctx.require("virtio_iso")?;
    let unattend_iso = ctx.require("unattend_iso")?;
    let mut arguments: Vec<String> = Vec::new();
    arguments.push("-nodefaults".to_owned());
    arguments.push("-enable-kvm".to_owned());
    arguments.push("-M".to_owned());
    arguments.push("pc".to_owned());
    arguments.push("-m".to_owned());
    arguments.push("2048".to_owned());
    arguments.push("-cpu".to_owned());
    arguments.push("host,kvm=off,hv_relaxed,hv_spinlocks=0x1fff,hv_vapic,hv_time".to_owned());
    arguments.push("-smp".to_owned());
    arguments.push("2,sockets=1,cores=2".to_owned());
    arguments.push("-rtc".to_owned());
    arguments.push("base=localtime".to_owned());
    arguments.push("-drive".to_owned());
    let mut argument_13 = "if=pflash,format=raw,readonly=on,file=".to_owned();
    argument_13.append(ovmf_path);
    arguments.push(argument_13);
    arguments.push("-netdev".to_owned());
    arguments.push("user,id=net0".to_owned());
    arguments.push("-device".to_owned());
    arguments.push("virtio-net-pci,netdev=net0".to_owned());
    arguments.push("-device".to_owned());
    arguments.push(QEMU_NVME_DISK.to_owned());
    arguments.push("-drive".to_owned());
    let mut argument_21 = "if=none,id=drivec,file=".to_owned();
    argument_21.append(output_image);
    argument_21.append(",format=raw");
    arguments.push(argument_21);
    arguments.push("-device".to_owned());
    arguments.push("ide-cd,drive=win-disk,id=cd-disk0,unit=0,bus=ide.0,bootindex=2".to_owned());
    arguments.push("-drive".to_owned());
    let mut argument_25 = "file=".to_owned();
    argument_25.append(windows_iso);
    argument_25.append(",if=none,id=win-disk,media=cdrom");
    arguments.push(argument_25);
    arguments.push("-device".to_owned());
    arguments.push("ide-cd,drive=virtio-disk,id=cd-disk1,unit=0,bus=ide.1".to_owned());
    arguments.push("-drive".to_owned());
    let mut argument_29 = "file=".to_owned();
    argument_29.append(virtio_iso);
    argument_29.append(",if=none,id=virtio-disk,media=cdrom");
    arguments.push(argument_29);
    arguments.push("-device".to_owned());
    arguments.push("ide-cd,drive=unattend-disk,id=cd-disk2,unit=1,bus=ide.0".to_owned());
    arguments.push("-drive".to_owned());
    let mut argument_33 = "file=".to_owned();
    argument_33.append(unattend_iso);
    argument_33.append(",if=none,id=unattend-disk,media=cdrom");
    arguments.push(argument_33);
    arguments.push("-serial".to_owned());
    arguments.push("stdio".to_owned());
    arguments.push("-monitor".to_owned());
    arguments.push("telnet:localhost:8888,server,nowait".to_owned());
    assert(arguments.deep_view() =~= qemu_machine_arguments(ctx@));
    let ghost machine = arguments.deep_view();
    if ctx.get_var("vga_console").is_some() {
        arguments.push("-vga".to_owned());
        arguments.push("std".to_owned());
        arguments.push("-display".to_owned());
        arguments.push("gtk".to_owned());
    } else {
        arguments.push("-display".to_owned());
        arguments.push("none".to_owned());
    }
    assert(arguments.deep_view() =~= machine + qemu_display_arguments(ctx@));
    Ok(CommandLine { program: "qemu-system-x86_64".to_owned(), arguments })
}

} // verus!
