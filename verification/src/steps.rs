//! What the steps shared by several scripts compute: the partition figures
//! read from `sgdisk`'s output, and the size to which an installed image is
//! trimmed.

use crate::autounattend::{rules_for, AutounattendUpdater};
use crate::config::{join_path, joined, unattend_file_names, unattend_files};
use crate::runner::{
    first_missing, just, recorded, CommandLine, CommandView, Context, MissingVar, Plan,
};
use crate::text::{decimal, decimal_string, parse_u64, parsed_u64};
use crate::util::{find_row_and_column, row_and_column, GrepError};
use vstd::prelude::*;

verus! {

/// The figures of one partition of a GPT disk image, as `sgdisk` prints
/// them.
#[derive(Debug)]
pub struct GptPartitionInformation {
    pub sector_size: String,
    pub first_sector: String,
    pub last_sector: String,
    pub partition_sectors: String,
}

/// One of the figures of a partition.
#[derive(Clone, Copy, Debug, PartialEq, Eq, Structural)]
pub enum GptField {
    SectorSize,
    FirstSector,
    LastSector,
    PartitionSectors,
}

/// A figure that `sgdisk`'s output does not hold, and why not.
#[derive(Debug)]
pub struct GptError {
    pub field: GptField,
    pub cause: GrepError,
}

/// The figure `field` as it stands in `output`: the fourth word of the line
/// with `Sector size`, or the third word of the line that names the figure.
pub open spec fn gpt_figure(field: GptField, output: Seq<char>) -> Result<
    Seq<char>,
    Option<Seq<char>>,
> {
    match field {
        GptField::SectorSize => row_and_column(output, "Sector size"@, 3),
        GptField::FirstSector => row_and_column(output, "First sector"@, 2),
        GptField::LastSector => row_and_column(output, "Last sector"@, 2),
        GptField::PartitionSectors => row_and_column(output, "Partition size"@, 2),
    }
}

/// The reason in `cause` is the one that `wanted` gives.
pub open spec fn same_cause(cause: GrepError, wanted: Option<Seq<char>>) -> bool {
    match wanted {
        None => cause matches GrepError::RowNotFound,
        Some(line) => cause matches GrepError::ColumnMissing(text) && text@ == line,
    }
}

/// Reads one figure out of `output`.
fn read_figure(field: GptField, output: &str) -> (figure: Result<String, GptError>)
    ensures
        match gpt_figure(field, output@) {
            Ok(word) => figure matches Ok(text) && text@ == word,
            Err(wanted) => figure matches Err(error) && error.field == field && same_cause(
                error.cause,
                wanted,
            ),
        },
{
    let found = match field {
        GptField::SectorSize => find_row_and_column(output, "Sector size", 3),
        GptField::FirstSector => find_row_and_column(output, "First sector", 2),
        GptField::LastSector => find_row_and_column(output, "Last sector", 2),
        GptField::PartitionSectors => find_row_and_column(output, "Partition size", 2),
    };
    match found {
        Ok(text) => Ok(text),
        Err(cause) => Err(GptError { field, cause }),
    }
}

/// Reads the figures of a partition out of what `sgdisk` printed: the
/// sector size out of `table`, the output of `sgdisk -p`, and the other
/// three out of `first`, `last` and `size`, each the output of one run of
/// `sgdisk -i` for the partition. The first figure that is not there
/// decides the error.
pub fn get_gpt_partition_information(table: &str, first: &str, last: &str, size: &str) -> (info:
    Result<GptPartitionInformation, GptError>)
    ensures
        match (
            gpt_figure(GptField::SectorSize, table@),
            gpt_figure(GptField::FirstSector, first@),
            gpt_figure(GptField::LastSector, last@),
            gpt_figure(GptField::PartitionSectors, size@),
        ) {
            (Ok(a), Ok(b), Ok(c), Ok(d)) => info matches Ok(found) && found.sector_size@ == a
                && found.first_sector@ == b && found.last_sector@ == c
                && found.partition_sectors@ == d,
            (Err(cause), _, _, _) => info matches Err(error) && error.field
                == GptField::SectorSize && same_cause(error.cause, cause),
            (Ok(_), Err(cause), _, _) => info matches Err(error) && error.field
                == GptField::FirstSector && same_cause(error.cause, cause),
            (Ok(_), Ok(_), Err(cause), _) => info matches Err(error) && error.field
                == GptField::LastSector && same_cause(error.cause, cause),
            (Ok(_), Ok(_), Ok(_), Err(cause)) => info matches Err(error) && error.field
                == GptField::PartitionSectors && same_cause(error.cause, cause),
        },
{
    let sector_size = read_figure(GptField::SectorSize, table)?;
    let first_sector = read_figure(GptField::FirstSector, first)?;
    let last_sector = read_figure(GptField::LastSector, last)?;
    let partition_sectors = read_figure(GptField::PartitionSectors, size)?;
    Ok(GptPartitionInformation { sector_size, first_sector, last_sector, partition_sectors })
}

/// The sector size and the last sector of a partition, out of its figures.
pub fn get_output_image_partition_size(info: GptPartitionInformation) -> (size: (String, String))
    ensures
        size.0@ == info.sector_size@,
        size.1@ == info.last_sector@,
{
    (info.sector_size, info.last_sector)
}

/// The number of sectors kept after the last partition for the secondary
/// partition table.
pub const SECONDARY_GPT_SECTORS: u64 = 34;

/// The size in bytes of an image trimmed after the sector `last_sector`,
/// with room left for the secondary partition table.
pub open spec fn trimmed_size(sector_size: nat, last_sector: nat) -> nat {
    sector_size * last_sector + SECONDARY_GPT_SECTORS as nat * sector_size
}

/// Why the size of the trimmed image could not be computed.
#[derive(Clone, Copy, Debug, PartialEq, Eq, Structural)]
pub enum ShrinkError {
    /// The sector size is not a number that fits in 64 bits.
    SectorSize,
    /// The last sector is not a number that fits in 64 bits.
    LastSector,
    /// The size does not fit in 64 bits.
    TooLarge,
}

/// The size in bytes to which an image is trimmed whose sector size and
/// last sector are written as `sector_size` and `last_sector`, or why there
/// is no such size.
pub open spec fn trimmed_size_of(sector_size: Seq<char>, last_sector: Seq<char>) -> Result<
    u64,
    ShrinkError,
> {
    match (parsed_u64(sector_size), parsed_u64(last_sector)) {
        (None, _) => Err(ShrinkError::SectorSize),
        (Some(_), None) => Err(ShrinkError::LastSector),
        (Some(bytes), Some(last)) => if trimmed_size(bytes as nat, last as nat) <= u64::MAX {
            Ok(trimmed_size(bytes as nat, last as nat) as u64)
        } else {
            Err(ShrinkError::TooLarge)
        },
    }
}

/// The size in bytes to which an installed image is trimmed: everything up
/// to the last sector of its last partition, and room for a new secondary
/// partition table after it. The two figures come as `sgdisk` printed them.
pub fn trimmed_image_size(sector_size: &str, last_sector: &str) -> (size: Result<u64, ShrinkError>)
    ensures
        size == trimmed_size_of(sector_size@, last_sector@),
{
    let bytes = match parse_u64(sector_size) {
        Some(bytes) => bytes,
        None => {
            return Err(ShrinkError::SectorSize);
        },
    };
    let last = match parse_u64(last_sector) {
        Some(last) => last,
        None => {
            return Err(ShrinkError::LastSector);
        },
    };
    let partitions = match bytes.checked_mul(last) {
        Some(partitions) => partitions,
        None => {
            return Err(ShrinkError::TooLarge);
        },
    };
    let table = match SECONDARY_GPT_SECTORS.checked_mul(bytes) {
        Some(table) => table,
        None => {
            return Err(ShrinkError::TooLarge);
        },
    };
    match partitions.checked_add(table) {
        Some(size) => Ok(size),
        None => Err(ShrinkError::TooLarge),
    }
}

/// The size of the blank image to which Windows is installed.
pub const OUTPUT_IMAGE_SIZE: &'static str = "30G";

/// The number of the partition that holds Windows once Setup with the
/// unattend files of this tool has run.
pub const WINDOWS_PARTITION: u32 = 4;

/// Has `qemu-img` create the blank image at `image_path` to which Windows
/// is installed.
pub fn create_output_image(image_path: &str) -> (plan: Plan)
    ensures
        plan.deep_view() == just(
            "qemu-img"@,
            seq!["create"@, "-f"@, "raw"@, image_path@, OUTPUT_IMAGE_SIZE@],
        ),
{
    let mut arguments: Vec<String> = Vec::new();
    arguments.push("create".to_owned());
    arguments.push("-f".to_owned());
    arguments.push("raw".to_owned());
    arguments.push(image_path.to_owned());
    arguments.push(OUTPUT_IMAGE_SIZE.to_owned());
    assert(arguments.deep_view() =~= seq![
        "create"@,
        "-f"@,
        "raw"@,
        image_path@,
        OUTPUT_IMAGE_SIZE@,
    ]);
    Plan::just("qemu-img", arguments)
}

/// Has `sgdisk` write a new secondary partition table at the end of the
/// image at `image_path`.
pub fn repair_secondary_gpt(image_path: &str) -> (plan: Plan)
    ensures
        plan.deep_view() == just("sgdisk"@, seq!["-e"@, image_path@]),
{
    let mut arguments: Vec<String> = Vec::new();
    arguments.push("-e".to_owned());
    arguments.push(image_path.to_owned());
    assert(arguments.deep_view() =~= seq!["-e"@, image_path@]);
    Plan::just("sgdisk", arguments)
}

/// The command that prints the partition table of an image.
pub open spec fn table_query(image_path: Seq<char>) -> CommandView {
    CommandView { program: "sgdisk"@, arguments: seq!["-p"@, image_path] }
}

/// The command that prints the figures of one partition of an image.
pub open spec fn partition_query(image_path: Seq<char>, partition_id: u32) -> CommandView {
    CommandView {
        program: "sgdisk"@,
        arguments: seq!["-i"@, decimal(partition_id as nat), image_path],
    }
}

/// The commands whose output holds the figures of the partition
/// `partition_id` of the image at `image_path`: one that prints the
/// partition table, for the sector size, and then one each for the first
/// sector, the last sector and the number of sectors. Their outputs, in
/// this order, are what `get_gpt_partition_information` reads.
pub fn gpt_partition_queries(image_path: &str, partition_id: u32) -> (queries: Vec<CommandLine>)
    ensures
        queries.deep_view() == seq![
            table_query(image_path@),
            partition_query(image_path@, partition_id),
            partition_query(image_path@, partition_id),
            partition_query(image_path@, partition_id),
        ],
{
    let mut queries: Vec<CommandLine> = Vec::new();
    let mut table: Vec<String> = Vec::new();
    table.push("-p".to_owned());
    table.push(image_path.to_owned());
    assert(table.deep_view() =~= seq!["-p"@, image_path@]);
    queries.push(CommandLine { program: "sgdisk".to_owned(), arguments: table });
    let mut i: usize = 0;
    while i < 3
        invariant
            i <= 3,
            queries.len() == i + 1,
            queries[0].deep_view() == table_query(image_path@),
            forall|k: int|
                1 <= k <= i ==> (#[trigger] queries[k]).deep_view() == partition_query(
                    image_path@,
                    partition_id,
                ),
        decreases 3 - i,
    {
        let mut arguments: Vec<String> = Vec::new();
        arguments.push("-i".to_owned());
        arguments.push(decimal_string(partition_id as u64));
        arguments.push(image_path.to_owned());
        assert(arguments.deep_view() =~= seq!["-i"@, decimal(partition_id as nat), image_path@]);
        queries.push(CommandLine { program: "sgdisk".to_owned(), arguments });
        i += 1;
    }
    assert(queries.deep_view() =~= seq![
        table_query(image_path@),
        partition_query(image_path@, partition_id),
        partition_query(image_path@, partition_id),
        partition_query(image_path@, partition_id),
    ]);
    queries
}

/// The arguments for `qemu-img` that resize the image at `image_path` to
/// `size` bytes, with or without the flag that permits shrinking.
pub open spec fn resize_arguments_view(image_path: Seq<char>, size: u64, shrink: bool) -> Seq<
    Seq<char>,
> {
    let head = if shrink {
        seq!["resize"@, "--shrink"@]
    } else {
        seq!["resize"@]
    };
    head + seq!["-f"@, "raw"@, image_path, decimal(size as nat)]
}

/// The arguments for `qemu-img` that resize the image at `image_path` to
/// `size` bytes.
pub fn resize_arguments(image_path: &str, size: u64, shrink: bool) -> (arguments: Vec<String>)
    ensures
        arguments.deep_view() == resize_arguments_view(image_path@, size, shrink),
{
    let mut arguments: Vec<String> = Vec::new();
    arguments.push("resize".to_owned());
    if shrink {
        arguments.push("--shrink".to_owned());
    }
    arguments.push("-f".to_owned());
    arguments.push("raw".to_owned());
    arguments.push(image_path.to_owned());
    arguments.push(decimal_string(size));
    assert(arguments.deep_view() =~= resize_arguments_view(image_path@, size, shrink));
    arguments
}

/// How to trim an image: the command to try first, and the one to try if
/// the first fails.
#[derive(Debug)]
pub struct ShrinkPlan {
    /// `qemu-img resize` with `--shrink`, which versions from 5.10 on ask
    /// for before they make an image smaller.
    pub with_flag: CommandLine,
    /// `qemu-img resize` without the flag, for versions that do not know
    /// it.
    pub without_flag: CommandLine,
}

/// Works out how to trim the unused sectors from the installed image at
/// `image_path`, whose sector size is `sector_size` and whose last
/// partition ends at `last_sector`, both as `sgdisk` printed them. Room for
/// a new secondary partition table stays after the partition; the table
/// itself has to be written anew, as `repair_secondary_gpt` does.
pub fn shrink_output_image(image_path: &str, sector_size: &str, last_sector: &str) -> (plan:
    Result<ShrinkPlan, ShrinkError>)
    ensures
        match trimmed_size_of(sector_size@, last_sector@) {
            Ok(size) => plan matches Ok(found) && found.with_flag.deep_view() == (CommandView {
                program: "qemu-img"@,
                arguments: resize_arguments_view(image_path@, size, true),
            }) && found.without_flag.deep_view() == (CommandView {
                program: "qemu-img"@,
                arguments: resize_arguments_view(image_path@, size, false),
            }),
            Err(error) => plan matches Err(found) && found == error,
        },
{
    let size = trimmed_image_size(sector_size, last_sector)?;
    Ok(
        ShrinkPlan {
            with_flag: CommandLine {
                program: "qemu-img".to_owned(),
                arguments: resize_arguments(image_path, size, true),
            },
            without_flag: CommandLine {
                program: "qemu-img".to_owned(),
                arguments: resize_arguments(image_path, size, false),
            },
        },
    )
}

/// Files to copy, and what to do around the copying.
#[derive(Debug)]
pub struct CopyPlan {
    /// The directories to create first, with their parents.
    pub directories: Vec<String>,
    /// The files to copy: from where, and to where.
    pub files: Vec<(String, String)>,
    /// Whether a file that is not there to be copied is passed over. If
    /// not, it is a failure.
    pub tolerate_missing: bool,
    /// The names and values to set in the store after the copying.
    pub outcome: Vec<(String, String)>,
}

/// A copy plan as the text of its parts.
pub struct CopyPlanView {
    pub directories: Seq<Seq<char>>,
    pub files: Seq<(Seq<char>, Seq<char>)>,
    pub tolerate_missing: bool,
    pub outcome: Seq<(Seq<char>, Seq<char>)>,
}

impl DeepView for CopyPlan {
    type V = CopyPlanView;

    open spec fn deep_view(&self) -> CopyPlanView {
        CopyPlanView {
            directories: self.directories.deep_view(),
            files: pairs_view(self.files@),
            tolerate_missing: self.tolerate_missing,
            outcome: pairs_view(self.outcome@),
        }
    }
}

impl CopyPlan {
    /// Leaves the values of the plan's outcome in the store, in their
    /// order.
    pub fn record(&self, ctx: &mut Context)
        ensures
            final(ctx)@ == recorded(old(ctx)@, self.deep_view().outcome, self.outcome.len() as int),
    {
        let mut i: usize = 0;
        while i < self.outcome.len()
            invariant
                i <= self.outcome.len(),
                ctx@ == recorded(old(ctx)@, self.deep_view().outcome, i as int),
            decreases self.outcome.len() - i,
        {
            ctx.set_var(self.outcome[i].0.as_str(), self.outcome[i].1.clone());
            i += 1;
        }
    }
}

/// The pairs of the paths of `names` in the directories `from` and `to`.
pub open spec fn paired(from: Seq<char>, to: Seq<char>, names: Seq<Seq<char>>) -> Seq<
    (Seq<char>, Seq<char>),
> {
    Seq::new(names.len(), |i: int| (joined(from, names[i]), joined(to, names[i])))
}

/// What `pairs` holds, as text.
pub open spec fn pairs_view(pairs: Seq<(String, String)>) -> Seq<(Seq<char>, Seq<char>)> {
    Seq::new(pairs.len(), |i: int| (pairs[i].0@, pairs[i].1@))
}

/// The pairs of the paths of `names` in the directories `from` and `to`.
pub fn pair_paths(from: &str, to: &str, names: &Vec<&'static str>) -> (pairs: Vec<
    (String, String),
>)
    ensures
        pairs_view(pairs@) == paired(from@, to@, names.deep_view()),
{
    let mut pairs: Vec<(String, String)> = Vec::new();
    let mut i: usize = 0;
    while i < names.len()
        invariant
            i <= names.len(),
            pairs.len() == i,
            forall|k: int|
                0 <= k < i ==> (#[trigger] pairs[k]).0@ == joined(from@, names[k]@) && pairs[k].1@
                    == joined(to@, names[k]@),
        decreases names.len() - i,
    {
        pairs.push((join_path(from, names[i]), join_path(to, names[i])));
        i += 1;
    }
    assert(pairs_view(pairs@) =~= paired(from@, to@, names.deep_view())) by {
        assert forall|k: int| 0 <= k < pairs.len() implies pairs_view(pairs@)[k] == paired(
            from@,
            to@,
            names.deep_view(),
        )[k] by {
            assert(names.deep_view()[k] == names[k]@);
        }
    }
    pairs
}

/// Plans the copying of the unattend files into the directory `unattend`
/// of the working directory, from where the steps that follow take them.
/// A file that is not there to be copied is no failure.
pub fn copy_unattend_files_to_work_dir(ctx: &Context) -> (plan: Result<CopyPlan, MissingVar>)
    ensures
        match first_missing(ctx@, seq!["work_dir"@, "unattend_dir"@]) {
            Some(name) => plan matches Err(missing) && missing.name@ == name,
            None => plan matches Ok(found) && found.deep_view() == (CopyPlanView {
                directories: seq![joined(ctx@["work_dir"@], "unattend"@)],
                files: paired(
                    ctx@["unattend_dir"@],
                    joined(ctx@["work_dir"@], "unattend"@),
                    unattend_file_names(),
                ),
                tolerate_missing: true,
                outcome: seq![("unattend_dir"@, joined(ctx@["work_dir"@], "unattend"@))],
            }),
        },
{
    proof {
        reveal_with_fuel(first_missing, 3);
    }
    let work_dir = ctx.require("work_dir")?;
    let unattend_dir = ctx.require("unattend_dir")?;
    let directory = join_path(work_dir, "unattend");
    let names = unattend_files();
    let files = pair_paths(unattend_dir, directory.as_str(), &names);
    let mut outcome: Vec<(String, String)> = Vec::new();
    outcome.push(("unattend_dir".to_owned(), directory.clone()));
    assert(pairs_view(outcome@) =~= seq![("unattend_dir"@, directory@)]);
    let mut directories: Vec<String> = Vec::new();
    directories.push(directory);
    assert(directories.deep_view() =~= seq![joined(ctx@["work_dir"@], "unattend"@)]);
    Ok(CopyPlan { directories, files, tolerate_missing: true, outcome })
}

/// How to rewrite the answer file of an installation.
pub struct Customization {
    /// The updater to run.
    pub updater: AutounattendUpdater,
    /// The path to which the answer file is copied first, and from which
    /// the updater reads.
    pub scratch: String,
    /// The path of the answer file, to which the updater writes.
    pub answer_file: String,
}

/// Why the rewriting of the answer file could not be planned.
#[derive(Debug)]
pub enum CustomizeError {
    /// The store does not say where the unattend files are.
    Missing(MissingVar),
    /// The image index in the store is no number that fits in 32 bits.
    BadImageIndex,
}

/// The image index that the store asks for, if it asks for one and it is a
/// number that fits in 32 bits.
pub open spec fn wanted_image_index(vars: Map<Seq<char>, Seq<char>>) -> Result<Option<u32>, ()> {
    if !vars.contains_key("unattend_image_index"@) {
        Ok(None)
    } else {
        match parsed_u64(vars["unattend_image_index"@]) {
            Some(index) => if index <= u32::MAX {
                Ok(Some(index as u32))
            } else {
                Err(())
            },
            None => Err(()),
        }
    }
}

/// Plans the rewriting of the answer file in the directory of the unattend
/// files: with the image index that the store asks for, if it asks for
/// one, and with the driver paths left as they are.
pub fn customize_autounattend_xml(ctx: &Context) -> (plan: Result<Customization, CustomizeError>)
    ensures
        match wanted_image_index(ctx@) {
            Err(_) => plan matches Err(CustomizeError::BadImageIndex),
            Ok(index) => if ctx@.contains_key("unattend_dir"@) {
                plan matches Ok(found) && found.updater@ == rules_for(index, None)
                    && found.scratch@ == joined(ctx@["unattend_dir"@], "Autounattend.tmp"@)
                    && found.answer_file@ == joined(ctx@["unattend_dir"@], "Autounattend.xml"@)
            } else {
                plan matches Err(CustomizeError::Missing(missing)) && missing.name@
                    == "unattend_dir"@
            },
        },
{
    let index: Option<u32> = match ctx.get_var("unattend_image_index") {
        None => None,
        Some(text) => match parse_u64(text) {
            Some(index) => {
                if index <= u32::MAX as u64 {
                    Some(index as u32)
                } else {
                    return Err(CustomizeError::BadImageIndex);
                }
            },
            None => {
                return Err(CustomizeError::BadImageIndex);
            },
        },
    };
    let updater = AutounattendUpdater::new(index, None);
    let unattend_dir = match ctx.require("unattend_dir") {
        Ok(dir) => dir,
        Err(missing) => {
            return Err(CustomizeError::Missing(missing));
        },
    };
    Ok(
        Customization {
            updater,
            scratch: join_path(unattend_dir, "Autounattend.tmp"),
            answer_file: join_path(unattend_dir, "Autounattend.xml"),
        },
    )
}

/// Why the trimming of an image could not be planned.
#[derive(Debug)]
pub enum ShrinkStepError {
    /// The store lacks the path of the image or one of its figures.
    Missing(MissingVar),
    /// The figures give no size.
    Size(ShrinkError),
}

/// Leaves the sector size and the last sector of the Windows partition in
/// the store, for the step that trims the image.
pub fn record_partition_size(ctx: &mut Context, info: GptPartitionInformation)
    ensures
        final(ctx)@ == old(ctx)@.insert("sector_size"@, info.sector_size@).insert(
            "last_sector"@,
            info.last_sector@,
        ),
{
    let (sector_size, last_sector) = get_output_image_partition_size(info);
    ctx.set_var("sector_size", sector_size);
    ctx.set_var("last_sector", last_sector);
}

/// Plans the trimming of the image whose path and figures the store holds.
pub fn shrink_image_in_store(ctx: &Context) -> (plan: Result<ShrinkPlan, ShrinkStepError>)
    ensures
        match first_missing(ctx@, seq!["output_image"@, "sector_size"@, "last_sector"@]) {
            Some(name) => plan matches Err(ShrinkStepError::Missing(missing)) && missing.name@
                == name,
            None => match trimmed_size_of(ctx@["sector_size"@], ctx@["last_sector"@]) {
                Ok(size) => plan matches Ok(found) && found.with_flag.deep_view() == (CommandView {
                    program: "qemu-img"@,
                    arguments: resize_arguments_view(ctx@["output_image"@], size, true),
                }) && found.without_flag.deep_view() == (CommandView {
                    program: "qemu-img"@,
                    arguments: resize_arguments_view(ctx@["output_image"@], size, false),
                }),
                Err(error) => plan matches Err(ShrinkStepError::Size(found)) && found == error,
            },
        },
{
    proof {
        reveal_with_fuel(first_missing, 4);
    }
    let image = match ctx.require("output_image") {
        Ok(value) => value,
        Err(missing) => {
            return Err(ShrinkStepError::Missing(missing));
        },
    };
    let sector_size = match ctx.require("sector_size") {
        Ok(value) => value,
        Err(missing) => {
            return Err(ShrinkStepError::Missing(missing));
        },
    };
    let last_sector = match ctx.require("last_sector") {
        Ok(value) => value,
        Err(missing) => {
            return Err(ShrinkStepError::Missing(missing));
        },
    };
    match shrink_output_image(image, sector_size, last_sector) {
        Ok(plan) => Ok(plan),
        Err(error) => Err(ShrinkStepError::Size(error)),
    }
}

} // verus!
