//! What the tool does on an illumos host: it builds a disk from which
//! Windows Setup runs unattended, and it installs Windows from such a disk
//! in a propolis-standalone VM.
//!
//! Propolis cannot show a disk to its guest as a removable one, so the
//! answer file has to lie on the installation disk itself. The first script
//! makes that disk: a blank image with a partition table, Windows PE and all
//! unattend files on a FAT32 setup partition, and the installable image
//! `install.wim` on an NTFS partition of its own. From there on a guest
//! image is made as on any host: a VM with a blank disk and the
//! installation disk is started, and Windows Setup does the rest.

use crate::config::ImageSources;
use crate::illumos::build_installation_disk::{
    build_installation_disk_script, BuildInstallationDiskArgs, BuildInstallationDiskScript,
};
use crate::illumos::create_guest_disk_image::{
    create_guest_disk_image_script, CreateGuestDiskImageArgs, CreateGuestDiskImageScript,
};
use crate::runner::script_view;
use vstd::prelude::*;

pub mod build_installation_disk;
pub mod create_guest_disk_image;

verus! {

/// What the user asks the tool to do.
#[derive(Debug)]
pub enum Command {
    /// Build an installation disk from a set of sources.
    BuildInstallationDisk { sources: ImageSources },
    /// Install Windows from an installation disk and keep the resulting
    /// image.
    CreateGuestDiskImage { vnic_link: String, installer_image: String, propolis_bootrom: String },
}

/// One of the two scripts.
pub enum AnyScript {
    BuildInstallationDisk(BuildInstallationDiskScript),
    CreateGuestDiskImage(CreateGuestDiskImageScript),
}

/// The script for what the user asks the tool to do.
pub fn get_script(work_dir: String, output_image: String, command: Command) -> (script: AnyScript)
    ensures
        match command {
            Command::BuildInstallationDisk { sources } => {
                &&& script matches AnyScript::BuildInstallationDisk(made)
                &&& made.args_view() == (BuildInstallationDiskArgs {
                    work_dir,
                    output_image,
                    sources,
                })
                &&& script_view(made.steps_view()) == build_installation_disk_script()
            },
            Command::CreateGuestDiskImage { vnic_link, installer_image, propolis_bootrom } => {
                &&& script matches AnyScript::CreateGuestDiskImage(made)
                &&& made.args_view() == (CreateGuestDiskImageArgs {
                    work_dir,
                    output_image,
                    vnic_link,
                    installer_image,
                    propolis_bootrom,
                })
                &&& script_view(made.steps_view()) == create_guest_disk_image_script()
            },
        },
{
    match command {
        Command::BuildInstallationDisk { sources } => AnyScript::BuildInstallationDisk(
            BuildInstallationDiskScript::new(
                BuildInstallationDiskArgs { work_dir, output_image, sources },
            ),
        ),
        Command::CreateGuestDiskImage {
            vnic_link,
            installer_image,
            propolis_bootrom,
        } => AnyScript::CreateGuestDiskImage(
            CreateGuestDiskImageScript::new(
                CreateGuestDiskImageArgs {
                    work_dir,
                    output_image,
                    vnic_link,
                    installer_image,
                    propolis_bootrom,
                },
            ),
        ),
    }
}

} // verus!
