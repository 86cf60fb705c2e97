//! The script that installs Windows from an installation disk in a
//! propolis-standalone VM and keeps the resulting image: its steps, and
//! what each step launches.

use crate::config::{join_path, joined};
use crate::runner::{
    first_missing, just, script_view, CommandLine, CommandView, Context, MissingVar, Plan,
    Script, ScriptStep, StepView,
};
use crate::steps::{
    gpt_partition_queries, partition_query, record_partition_size, resize_arguments_view,
    shrink_image_in_store, table_query, trimmed_size_of, GptPartitionInformation, ShrinkPlan,
    ShrinkStepError, OUTPUT_IMAGE_SIZE, WINDOWS_PARTITION,
};
use vstd::prelude::*;
use vstd::string::StringExecFns;

verus! {

/// What the user asks of the script that creates a guest disk image.
#[derive(Debug)]
pub struct CreateGuestDiskImageArgs {
    /// The directory for temporary files.
    pub work_dir: String,
    /// The path of the image to create.
    pub output_image: String,
    /// The physical link to which the installation VM's network interface
    /// is bound.
    pub vnic_link: String,
    /// The path to the installation disk that the other script built.
    pub installer_image: String,
    /// The path to the guest firmware to give to Propolis.
    pub propolis_bootrom: String,
}

/// The script that creates a guest disk image.
pub struct CreateGuestDiskImageScript {
    steps: Vec<ScriptStep<Step>>,
    args: CreateGuestDiskImageArgs,
}

/// The name of the installation VM's network interface.
pub const VNIC_NAME: &'static str = "vnic0";

/// What a step of the script does.
#[derive(Clone, Copy, Debug, PartialEq, Eq, Structural)]
pub enum Step {
    /// Creates the virtual network interface of the installation VM.
    CreateVnic,
    /// Creates the blank disk image to which Windows is installed.
    CreateOutputImage,
    /// Writes the configuration of the installation VM.
    WriteVmToml,
    /// Runs Windows Setup in a propolis-standalone VM.
    RunPropolisStandalone,
    /// Reads the sector size and the last sector of the Windows partition.
    GetPartitionSize,
    /// Trims the unused sectors from the end of the image.
    ShrinkOutputImage,
    /// Writes a new secondary partition table at the end of the image.
    RepairSecondaryGpt,
    /// Removes the virtual network interface of the installation VM.
    RemoveVnic,
}

/// A step that launches no commands.
fn step(label: &'static str, action: Step) -> (made: ScriptStep<Step>)
    ensures
        made@ == (StepView { label: label@, action, commands: Seq::empty() }),
{
    ScriptStep::new(label, action)
}

/// A step that expects to launch `command`.
fn step_with(label: &'static str, action: Step, command: &'static str) -> (made: ScriptStep<Step>)
    ensures
        made@ == (StepView { label: label@, action, commands: seq![command@] }),
{
    let mut commands: Vec<&'static str> = Vec::new();
    commands.push(command);
    let wanted = commands.as_slice();
    assert(wanted.deep_view() =~= seq![command@]);
    ScriptStep::with_prereqs(label, action, wanted)
}

/// The steps that create a guest disk image, in order.
pub open spec fn create_guest_disk_image_script() -> Seq<StepView<Step>> {
    seq![
        StepView {
            label: "create VNIC for installation VM"@,
            action: Step::CreateVnic,
            commands: Seq::empty(),
        },
        StepView {
            label: "create output image"@,
            action: Step::CreateOutputImage,
            commands: seq!["qemu-img"@],
        },
        StepView {
            label: "write config TOML for installation VM"@,
            action: Step::WriteVmToml,
            commands: Seq::empty(),
        },
        StepView {
            label: "run installation in propolis-standalone"@,
            action: Step::RunPropolisStandalone,
            commands: seq!["propolis-standalone"@],
        },
        StepView {
            label: "get size of primary installation partition"@,
            action: Step::GetPartitionSize,
            commands: seq!["sgdisk"@],
        },
        StepView {
            label: "trim unused sectors from output image"@,
            action: Step::ShrinkOutputImage,
            commands: seq!["qemu-img"@],
        },
        StepView {
            label: "repair secondary GPT in output image"@,
            action: Step::RepairSecondaryGpt,
            commands: seq!["sgdisk"@],
        },
        StepView {
            label: "remove installation VM VNIC"@,
            action: Step::RemoveVnic,
            commands: Seq::empty(),
        },
    ]
}

/// The steps that create a guest disk image, in order.
fn create_guest_disk_image_steps() -> (steps: Vec<ScriptStep<Step>>)
    ensures
        script_view(steps@) == create_guest_disk_image_script(),
{
    let mut steps: Vec<ScriptStep<Step>> = Vec::new();
    steps.push(step("create VNIC for installation VM", Step::CreateVnic));
    steps.push(step_with("create output image", Step::CreateOutputImage, "qemu-img"));
    steps.push(step("write config TOML for installation VM", Step::WriteVmToml));
    steps.push(
        step_with(
            "run installation in propolis-standalone",
            Step::RunPropolisStandalone,
            "propolis-standalone",
        ),
    );
    steps.push(
        step_with("get size of primary installation partition", Step::GetPartitionSize, "sgdisk"),
    );
    steps.push(
        step_with("trim unused sectors from output image", Step::ShrinkOutputImage, "qemu-img"),
    );
    steps.push(
        step_with("repair secondary GPT in output image", Step::RepairSecondaryGpt, "sgdisk"),
    );
    steps.push(step("remove installation VM VNIC", Step::RemoveVnic));
    assert(script_view(steps@) =~= create_guest_disk_image_script());
    steps
}

/// The values that the steps of the script that creates a guest disk image
/// find in the store when the script starts.
pub open spec fn initial_vars(args: CreateGuestDiskImageArgs) -> Map<
    Seq<char>,
    Seq<char>,
> {
    Map::<Seq<char>, Seq<char>>::empty().insert("work_dir"@, args.work_dir@).insert(
        "vnic_link"@,
        args.vnic_link@,
    ).insert("vnic_name"@, VNIC_NAME@).insert("installer_image"@, args.installer_image@).insert(
        "output_image"@,
        args.output_image@,
    ).insert("propolis_bootrom"@, args.propolis_bootrom@)
}

impl CreateGuestDiskImageScript {
    /// What the user asked of the script.
    pub closed spec fn args_view(&self) -> CreateGuestDiskImageArgs {
        self.args
    }

    /// The script's steps.
    pub closed spec fn steps_view(&self) -> Seq<ScriptStep<Step>> {
        self.steps@
    }

    /// The script for what the user asks.
    pub fn new(args: CreateGuestDiskImageArgs) -> (script: Self)
        ensures
            script.args_view() == args,
            script_view(script.steps_view()) == create_guest_disk_image_script(),
    {
        CreateGuestDiskImageScript { steps: create_guest_disk_image_steps(), args }
    }

    /// What the user asked of the script.
    pub fn args(&self) -> (args: &CreateGuestDiskImageArgs)
        ensures
            *args == self.args_view(),
    {
        &self.args
    }

    /// The script's steps, in the order in which they run.
    pub fn steps(&self) -> (steps: &[ScriptStep<Step>])
        ensures
            steps@ == self.steps_view(),
    {
        self.steps.as_slice()
    }

    /// The files without which the script cannot run: the installation
    /// disk and the firmware.
    pub fn required_files(&self) -> (files: Vec<String>)
        ensures
            files.deep_view() == seq![
                self.args_view().installer_image@,
                self.args_view().propolis_bootrom@,
            ],
    {
        let mut files: Vec<String> = Vec::new();
        files.push(self.args.installer_image.clone());
        files.push(self.args.propolis_bootrom.clone());
        assert(files.deep_view() =~= seq![
            self.args.installer_image@,
            self.args.propolis_bootrom@,
        ]);
        files
    }

    /// The files that the script can do without: none.
    pub fn optional_files(&self) -> (files: Vec<String>)
        ensures
            files.deep_view() == Seq::<Seq<char>>::empty(),
    {
        let files: Vec<String> = Vec::new();
        assert(files.deep_view() =~= Seq::<Seq<char>>::empty());
        files
    }

    /// The store with which the script starts.
    pub fn initial_context(&self) -> (ctx: Context)
        ensures
            ctx@ == initial_vars(self.args_view()),
    {
        let args = &self.args;
        let mut ctx = Context::new();
        ctx.set_var("work_dir", args.work_dir.clone());
        ctx.set_var("vnic_link", args.vnic_link.clone());
        ctx.set_var("vnic_name", VNIC_NAME.to_owned());
        ctx.set_var("installer_image", args.installer_image.clone());
        ctx.set_var("output_image", args.output_image.clone());
        ctx.set_var("propolis_bootrom", args.propolis_bootrom.clone());
        ctx
    }
}

impl Script for CreateGuestDiskImageScript {
    type Action = Step;

    /// The script's steps, in the order in which they run.
    fn steps(&self) -> (steps: &[ScriptStep<Step>])
        ensures
            steps@ == self.steps_view(),
    {
        CreateGuestDiskImageScript::steps(self)
    }

    /// The files without which the script cannot run.
    fn required_files(&self) -> (files: Vec<String>)
        ensures
            files.deep_view() == seq![
                self.args_view().installer_image@,
                self.args_view().propolis_bootrom@,
            ],
    {
        CreateGuestDiskImageScript::required_files(self)
    }

    /// The files that the script can do without.
    fn optional_files(&self) -> (files: Vec<String>)
        ensures
            files.deep_view() == Seq::<Seq<char>>::empty(),
    {
        CreateGuestDiskImageScript::optional_files(self)
    }

    /// The store with which the script starts.
    fn initial_context(&self) -> (ctx: Context)
        ensures
            ctx@ == initial_vars(self.args_view()),
    {
        CreateGuestDiskImageScript::initial_context(self)
    }
}

/// Has `qemu-img` create the blank image to which Windows is installed.
pub fn create_output_image(ctx: &Context) -> (plan: Result<Plan, MissingVar>)
    ensures
        match first_missing(ctx@, seq!["output_image"@]) {
            Some(name) => plan matches Err(missing) && missing.name@ == name,
            None => plan matches Ok(plan) && plan.deep_view() == just(
                "qemu-img"@,
                seq!["create"@, "-f"@, "raw"@, ctx@["output_image"@], OUTPUT_IMAGE_SIZE@],
            ),
        },
{
    proof {
        reveal_with_fuel(first_missing, 2);
    }
    let output_image = ctx.require("output_image")?;
    Ok(crate::steps::create_output_image(output_image))
}

/// The commands whose output holds the figures of the Windows partition of
/// the installed image.
pub fn partition_size_queries(ctx: &Context) -> (queries: Result<Vec<CommandLine>, MissingVar>)
    ensures
        match first_missing(ctx@, seq!["output_image"@]) {
            Some(name) => queries matches Err(missing) && missing.name@ == name,
            None => queries matches Ok(queries) && queries.deep_view() == seq![
                table_query(ctx@["output_image"@]),
                partition_query(ctx@["output_image"@], WINDOWS_PARTITION),
                partition_query(ctx@["output_image"@], WINDOWS_PARTITION),
                partition_query(ctx@["output_image"@], WINDOWS_PARTITION),
            ],
        },
{
    proof {
        reveal_with_fuel(first_missing, 2);
    }
    let output_image = ctx.require("output_image")?;
    Ok(gpt_partition_queries(output_image, WINDOWS_PARTITION))
}

/// Leaves the sector size and the last sector of the Windows partition in
/// the store, for the step that trims the image.
pub fn get_partition_size(ctx: &mut Context, info: GptPartitionInformation)
    ensures
        final(ctx)@ == old(ctx)@.insert("sector_size"@, info.sector_size@).insert(
            "last_sector"@,
            info.last_sector@,
        ),
{
    record_partition_size(ctx, info)
}

/// Plans the trimming of the unused sectors from the end of the installed
/// image.
pub fn shrink_output_image(ctx: &Context) -> (plan: Result<ShrinkPlan, ShrinkStepError>)
    ensures
        match first_missing(ctx@, seq!["output_image"@, "sector_size"@, "last_sector"@]) {
            Some(name) => plan matches Err(ShrinkStepError::Missing(missing)) && missing.name@
                == name,
            None => match trimmed_size_of(ctx@["sector_size"@], ctx@["last_sector"@]) {
                Ok(size) => plan matches Ok(found) && found.with_flag.deep_view() == (CommandView {
                    program: "qemu-img"@,
                    arguments: resize_arguments_view(ctx@["output_image"@], size, true),
                }) && found.without_flag.deep_view() == (CommandView {
                    program: "qemu-img"@,
                    arguments: resize_arguments_view(ctx@["output_image"@], size, false),
                }),
                Err(error) => plan matches Err(ShrinkStepError::Size(found)) && found == error,
            },
        },
{
    shrink_image_in_store(ctx)
}

/// Has `sgdisk` write a new secondary partition table at the end of the
/// trimmed image.
pub fn repair_secondary_gpt(ctx: &Context) -> (plan: Result<Plan, MissingVar>)
    ensures
        match first_missing(ctx@, seq!["output_image"@]) {
            Some(name) => plan matches Err(missing) && missing.name@ == name,
            None => plan matches Ok(plan) && plan.deep_view() == just(
                "sgdisk"@,
                seq!["-e"@, ctx@["output_image"@]],
            ),
        },
{
    proof {
        reveal_with_fuel(first_missing, 2);
    }
    let output_image = ctx.require("output_image")?;
    Ok(crate::steps::repair_secondary_gpt(output_image))
}

/// Has `dladm` create the virtual network interface of the installation VM on
/// the physical link that the user named.
pub fn create_vnic(ctx: &Context) -> (plan: Result<Plan, MissingVar>)
    ensures
        match first_missing(ctx@, seq!["vnic_link"@, "vnic_name"@]) {
            Some(name) => plan matches Err(missing) && missing.name@ == name,
            None => plan matches Ok(plan) && plan.deep_view() == just(
                "pfexec"@,
                seq![
                    "dladm"@,
                    "create-vnic"@,
                    "-t"@,
                    "-l"@,
                    ctx@["vnic_link"@],
                    ctx@["vnic_name"@],
                ],
            ),
        },
{
    proof {
        reveal_with_fuel(first_missing, 3);
    }
    let vnic_link = ctx.require("vnic_link")?;
    let vnic_name = ctx.require("vnic_name")?;
    let mut arguments: Vec<String> = Vec::new();
    arguments.push("dladm".to_owned());
    arguments.push("create-vnic".to_owned());
    arguments.push("-t".to_owned());
    arguments.push("-l".to_owned());
    arguments.push(vnic_link.to_owned());
    arguments.push(vnic_name.to_owned());
    assert(arguments.deep_view() =~= seq![
        "dladm"@,
        "create-vnic"@,
        "-t"@,
        "-l"@,
        ctx@["vnic_link"@],
        ctx@["vnic_name"@],
    ]);
    Ok(Plan::just("pfexec", arguments))
}

/// Has `dladm` remove the virtual network interface of the installation VM.
pub fn remove_vnic(ctx: &Context) -> (plan: Result<Plan, MissingVar>)
    ensures
        match first_missing(ctx@, seq!["vnic_name"@]) {
            Some(name) => plan matches Err(missing) && missing.name@ == name,
            None => plan matches Ok(plan) && plan.deep_view() == just(
                "pfexec"@,
                seq!["dladm"@, "delete-vnic"@, ctx@["vnic_name"@]],
            ),
        },
{
    proof {
        reveal_with_fuel(first_missing, 2);
    }
    let vnic_name = ctx.require("vnic_name")?;
    let mut arguments: Vec<String> = Vec::new();
    arguments.push("dladm".to_owned());
    arguments.push("delete-vnic".to_owned());
    arguments.push(vnic_name.to_owned());
    assert(arguments.deep_view() =~= seq!["dladm"@, "delete-vnic"@, ctx@["vnic_name"@]]);
    Ok(Plan::just("pfexec", arguments))
}

/// The configuration of the installation VM, up to the path of the
/// firmware.
pub const VM_TOML_MAIN: &'static str =
    "\n[main]\nname = \"wimsy-server\"\ncpus = 2\nmemory = 2048\nbootrom = \"";

/// The configuration of the installation VM, from the firmware to the path
/// of the image to install to.
pub const VM_TOML_IMAGE: &'static str = "\"\n\n[block_dev.win_image]\ntype = \"file\"\npath = \"";

/// The configuration of the installation VM, from the image to install to
/// to the path of the installation disk.
pub const VM_TOML_INSTALLER: &'static str =
    "\"\n[dev.block0]\ndriver = \"pci-nvme\"\nblock_dev = \"win_image\"\npci-path = \"0.16.0\"\n\n\
    [block_dev.win_iso]\ntype = \"file\"\npath = \"";

/// The configuration of the installation VM, from the installation disk to
/// the name of the network interface.
pub const VM_TOML_NETWORK: &'static str =
    "\"\n[dev.block1]\ndriver = \"pci-nvme\"\nblock_dev = \"win_iso\"\npci-path = \"0.17.0\"\n\n\
    [dev.net0]\ndriver = \"pci-virtio-viona\"\nvnic = \"";

/// The end of the configuration of the installation VM.
pub const VM_TOML_END: &'static str = "\"\npci-path = \"0.8.0\"\n";

/// The configuration of an installation VM with two processors and 2 GiB
/// of memory, with the image to install to and the installation disk as
/// NVMe disks and with one network interface.
pub open spec fn vm_toml(
    bootrom: Seq<char>,
    output_image: Seq<char>,
    installer_image: Seq<char>,
    vnic_name: Seq<char>,
) -> Seq<char> {
    VM_TOML_MAIN@ + bootrom + VM_TOML_IMAGE@ + output_image + VM_TOML_INSTALLER@ + installer_image
        + VM_TOML_NETWORK@ + vnic_name + VM_TOML_END@
}

/// A file to write, and the values to leave in the store once it is
/// written.
#[derive(Debug)]
pub struct FilePlan {
    /// The path of the file.
    pub path: String,
    /// What the file holds.
    pub content: String,
    /// The name and the value to set in the store after the writing.
    pub outcome: (String, String),
}

/// Plans the writing of the configuration of the installation VM to the
/// file `vm.toml` in the working directory; the path of the file is then
/// left in the store.
pub fn write_vm_toml(ctx: &Context) -> (plan: Result<FilePlan, MissingVar>)
    ensures
        match first_missing(
            ctx@,
            seq![
                "work_dir"@,
                "propolis_bootrom"@,
                "output_image"@,
                "installer_image"@,
                "vnic_name"@,
            ],
        ) {
            Some(name) => plan matches Err(missing) && missing.name@ == name,
            None => plan matches Ok(found) && found.path@ == joined(ctx@["work_dir"@], "vm.toml"@)
                && found.content@ == vm_toml(
                ctx@["propolis_bootrom"@],
                ctx@["output_image"@],
                ctx@["installer_image"@],
                ctx@["vnic_name"@],
            ) && found.outcome.0@ == "vm_toml_path"@ && found.outcome.1@ == found.path@,
        },
{
    proof {
        reveal_with_fuel(first_missing, 6);
    }
    let work_dir = ctx.require("work_dir")?;
    let propolis_bootrom = ctx.require("propolis_bootrom")?;
    let output_image = ctx.require("output_image")?;
    let installer_image = ctx.require("installer_image")?;
    let vnic_name = ctx.require("vnic_name")?;
    let path = join_path(work_dir, "vm.toml");
    let mut content = VM_TOML_MAIN.to_owned();
    content.append(propolis_bootrom);
    content.append(VM_TOML_IMAGE);
    content.append(output_image);
    content.append(VM_TOML_INSTALLER);
    content.append(installer_image);
    content.append(VM_TOML_NETWORK);
    content.append(vnic_name);
    content.append(VM_TOML_END);
    let outcome = ("vm_toml_path".to_owned(), path.clone());
    Ok(FilePlan { path, content, outcome })
}

/// How often to look for the socket of the guest's first serial port, a
/// second apart, before going on without having seen it.
pub const TTYA_CHECKS: u32 = 6;

/// The seconds to leave propolis-standalone after that to finish setting
/// up the socket: it takes away the permissions of a socket that is opened
/// to everyone too early.
pub const TTYA_SETTLE_SECONDS: u64 = 5;

/// How to run the installation in propolis-standalone.
#[derive(Debug)]
pub struct PropolisPlan {
    /// The directory in which propolis-standalone runs, and in which it
    /// makes the socket of the guest's first serial port.
    pub work_dir: String,
    /// The command that launches propolis-standalone.
    pub launch: CommandLine,
    /// The path of the socket of the guest's first serial port. The guest
    /// starts once something connects to it.
    pub ttya: String,
    /// The command that lets everyone read and write the socket, so that
    /// this process can connect to it.
    pub grant: CommandLine,
}

/// Plans the run of the installation in propolis-standalone, with the
/// configuration whose path the store holds.
pub fn run_propolis_standalone(ctx: &Context) -> (plan: Result<PropolisPlan, MissingVar>)
    ensures
        match first_missing(ctx@, seq!["work_dir"@, "vm_toml_path"@]) {
            Some(name) => plan matches Err(missing) && missing.name@ == name,
            None => plan matches Ok(found) && found.work_dir@ == ctx@["work_dir"@]
                && found.launch.deep_view() == (CommandView {
                program: "pfexec"@,
                arguments: seq!["propolis-standalone"@, ctx@["vm_toml_path"@]],
            }) && found.ttya@ == joined(ctx@["work_dir"@], "ttya"@) && found.grant.deep_view() == (
            CommandView {
                program: "pfexec"@,
                arguments: seq!["chmod"@, "666"@, joined(ctx@["work_dir"@], "ttya"@)],
            }),
        },
{
    proof {
        reveal_with_fuel(first_missing, 3);
    }
    let work_dir = ctx.require("work_dir")?;
    let vm_toml_path = ctx.require("vm_toml_path")?;
    let ttya = join_path(work_dir, "ttya");
    let mut launch: Vec<String> = Vec::new();
    launch.push("propolis-standalone".to_owned());
    launch.push(vm_toml_path.to_owned());
    assert(launch.deep_view() =~= seq!["propolis-standalone"@, ctx@["vm_toml_path"@]]);
    let mut grant: Vec<String> = Vec::new();
    grant.push("chmod".to_owned());
    grant.push("666".to_owned());
    grant.push(ttya.clone());
    assert(grant.deep_view() =~= seq!["chmod"@, "666"@, joined(ctx@["work_dir"@], "ttya"@)]);
    Ok(
        PropolisPlan {
            work_dir: work_dir.to_owned(),
            launch: CommandLine { program: "pfexec".to_owned(), arguments: launch },
            ttya,
            grant: CommandLine { program: "pfexec".to_owned(), arguments: grant },
        },
    )
}

} // verus!
