//! What the tool does on a Linux host: it creates a Windows guest image,
//! with QEMU as the installation VM.

use crate::config::ImageSources;
use crate::linux::create_guest_disk_image::{
    create_guest_disk_image_script, CreateGuestDiskImageArgs, CreateGuestDiskImageScript,
};
use crate::runner::script_view;
use vstd::prelude::*;

pub mod create_guest_disk_image;

verus! {

/// What the user asks the tool to do.
#[derive(Debug)]
pub enum Command {
    /// Install Windows in a VM and keep the resulting image.
    CreateGuestDiskImage { sources: ImageSources, ovmf_path: String, vga_console: bool },
}

/// The script for what the user asks the tool to do.
pub fn get_script(work_dir: String, output_image: String, command: Command) -> (script:
    CreateGuestDiskImageScript)
    ensures
        match command {
            Command::CreateGuestDiskImage { sources, ovmf_path, vga_console } => script.args_view()
                == (CreateGuestDiskImageArgs {
                work_dir,
                output_image,
                sources,
                ovmf_path,
                vga_console,
            }),
        },
        script_view(script.steps_view()) == create_guest_disk_image_script(),
{
    match command {
        Command::CreateGuestDiskImage {
            sources,
            ovmf_path,
            vga_console,
        } => CreateGuestDiskImageScript::new(
            CreateGuestDiskImageArgs { work_dir, output_image, sources, ovmf_path, vga_console },
        ),
    }
}

} // verus!
