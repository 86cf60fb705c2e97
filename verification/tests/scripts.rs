use wimsy::autounattend::VirtioDriverVersion;
use wimsy::config::ImageSources;
use wimsy::illumos::build_installation_disk as build;
use wimsy::illumos::create_guest_disk_image as guest;
use wimsy::illumos::{get_script as get_illumos_script, AnyScript, Command as IllumosCommand};
use wimsy::linux::create_guest_disk_image as qemu;
use wimsy::linux::{get_script as get_linux_script, Command as LinuxCommand};
use wimsy::runner::{CommandLine, Context, Plan, Script, ScriptStep};
use wimsy::steps::{
    copy_unattend_files_to_work_dir, create_output_image, customize_autounattend_xml,
    gpt_partition_queries, repair_secondary_gpt, shrink_output_image, CustomizeError,
    GptPartitionInformation, ShrinkError, ShrinkStepError,
};
use wimsy::util::required_commands;

fn sources() -> ImageSources {
    ImageSources {
        windows_iso: "/iso/win.iso".to_string(),
        virtio_iso: "/iso/virtio.iso".to_string(),
        unattend_dir: "/src/unattend".to_string(),
        unattend_image_index: Some(3),
        windows_version: Some(VirtioDriverVersion::Server2019),
    }
}

fn store(vars: &[(&str, &str)]) -> Context {
    let mut ctx = Context::new();
    for (name, value) in vars {
        ctx.set_var(name, value.to_string());
    }
    ctx
}

fn words(command: &CommandLine) -> Vec<&str> {
    let mut all = vec![command.program.as_str()];
    all.extend(command.arguments.iter().map(|a| a.as_str()));
    all
}

fn plain(plan: &Plan) -> Vec<&str> {
    assert!(plan.directories.is_empty());
    assert!(plan.outcome.is_empty());
    words(&plan.command)
}

fn labels<A>(steps: &[ScriptStep<A>]) -> Vec<&'static str> {
    steps.iter().map(|step| step.label()).collect()
}

fn info() -> GptPartitionInformation {
    GptPartitionInformation {
        sector_size: "512".to_string(),
        first_sector: "2099200".to_string(),
        last_sector: "16777182".to_string(),
        partition_sectors: "14677983".to_string(),
    }
}

#[test]
fn the_linux_script_has_eight_steps() {
    let script = get_linux_script(
        "/work".to_string(),
        "/out.img".to_string(),
        LinuxCommand::CreateGuestDiskImage {
            sources: sources(),
            ovmf_path: "/fw/OVMF.fd".to_string(),
            vga_console: false,
        },
    );
    assert_eq!(script.args().work_dir, "/work");
    assert_eq!(script.args().output_image, "/out.img");
    assert_eq!(script.args().ovmf_path, "/fw/OVMF.fd");
    assert_eq!(script.args().sources.virtio_iso, "/iso/virtio.iso");
    assert!(!script.args().vga_console);
    assert_eq!(
        labels(script.steps()),
        vec![
            "create output image",
            "create guest configuration ISO",
            "copy unattend files to work directory",
            "customize Autounattend.xml",
            "install Windows to output image using QEMU",
            "get size of primary installation partition",
            "trim unused sectors from output image",
            "repair secondary GPT in output image",
        ]
    );
    let actions: Vec<qemu::Step> = script.steps().iter().map(|step| *step.action()).collect();
    assert_eq!(
        actions,
        vec![
            qemu::Step::CreateOutputImage,
            qemu::Step::CreateConfigIso,
            qemu::Step::CopyUnattendFilesToWorkDir,
            qemu::Step::CustomizeAutounattendXml,
            qemu::Step::InstallViaQemu,
            qemu::Step::GetPartitionSize,
            qemu::Step::ShrinkOutputImage,
            qemu::Step::RepairSecondaryGpt,
        ]
    );
    assert_eq!(script.steps()[0].prereq_commands(), &["qemu-img"]);
    assert!(script.steps()[2].prereq_commands().is_empty());
    assert_eq!(
        required_commands(script.steps()),
        vec!["genisoimage", "qemu-img", "qemu-system-x86_64", "sgdisk"]
    );
    assert_eq!(script.required_files(), vec!["/iso/win.iso", "/iso/virtio.iso", "/fw/OVMF.fd"]);
    assert_eq!(script.optional_files().len(), 6);
    assert_eq!(script.optional_files()[0], "/src/unattend/Autounattend.xml");
    assert_eq!(Script::steps(&script).len(), 8);
}

#[test]
fn the_linux_store_starts_with_the_paths() {
    let make = |vga_console| {
        qemu::CreateGuestDiskImageScript::new(qemu::CreateGuestDiskImageArgs {
            work_dir: "/work".to_string(),
            output_image: "/out.img".to_string(),
            sources: sources(),
            ovmf_path: "/fw/OVMF.fd".to_string(),
            vga_console,
        })
    };
    let ctx = make(false).initial_context();
    assert_eq!(ctx.get_var("work_dir"), Some("/work"));
    assert_eq!(ctx.get_var("windows_iso"), Some("/iso/win.iso"));
    assert_eq!(ctx.get_var("virtio_iso"), Some("/iso/virtio.iso"));
    assert_eq!(ctx.get_var("unattend_dir"), Some("/src/unattend"));
    assert_eq!(ctx.get_var("output_image"), Some("/out.img"));
    assert_eq!(ctx.get_var("ovmf_path"), Some("/fw/OVMF.fd"));
    assert_eq!(ctx.get_var("vga_console"), None);
    assert_eq!(ctx.get_var("unattend_image_index"), None);
    assert_eq!(ctx.get_var("windows_version"), None);
    let ctx = Script::initial_context(&make(true));
    assert_eq!(ctx.get_var("vga_console"), Some(""));
}

#[test]
fn the_illumos_scripts_have_their_steps() {
    let script = get_illumos_script(
        "/work".to_string(),
        "/installer.img".to_string(),
        IllumosCommand::BuildInstallationDisk { sources: sources() },
    );
    let script = match script {
        AnyScript::BuildInstallationDisk(script) => script,
        AnyScript::CreateGuestDiskImage(_) => panic!("the wrong script"),
    };
    assert_eq!(script.args().output_image, "/installer.img");
    assert_eq!(script.steps().len(), 21);
    assert_eq!(labels(script.steps())[0], "create new disk to hold installer image");
    assert_eq!(labels(script.steps())[9], "customizing Autounattend.xml");
    assert_eq!(labels(script.steps())[19], "flushing changes to disk");
    assert_eq!(labels(script.steps())[20], "remove loopback device");
    assert_eq!(*script.steps()[4].action(), build::Step::MountInstallerDiskAsLoopbackDevice);
    assert_eq!(*script.steps()[12].action(), build::Step::CopyVirtioToWinpePartition);
    assert_eq!(script.steps()[12].prereq_commands(), &["7z"]);
    assert_eq!(*script.steps()[19].action(), build::Step::FlushChanges);
    assert_eq!(
        required_commands(script.steps()),
        vec!["7z", "mkntfs", "ntfs-3g", "qemu-img", "sgdisk"]
    );
    assert_eq!(script.required_files(), vec!["/iso/win.iso", "/iso/virtio.iso"]);
    assert_eq!(script.optional_files()[5], "/src/unattend/specialize-unattend.xml");

    let script = get_illumos_script(
        "/work".to_string(),
        "/out.img".to_string(),
        IllumosCommand::CreateGuestDiskImage {
            vnic_link: "igb0".to_string(),
            installer_image: "/installer.img".to_string(),
            propolis_bootrom: "/fw/OVMF_CODE.fd".to_string(),
        },
    );
    let script = match script {
        AnyScript::CreateGuestDiskImage(script) => script,
        AnyScript::BuildInstallationDisk(_) => panic!("the wrong script"),
    };
    assert_eq!(
        labels(script.steps()),
        vec![
            "create VNIC for installation VM",
            "create output image",
            "write config TOML for installation VM",
            "run installation in propolis-standalone",
            "get size of primary installation partition",
            "trim unused sectors from output image",
            "repair secondary GPT in output image",
            "remove installation VM VNIC",
        ]
    );
    assert_eq!(*script.steps()[3].action(), guest::Step::RunPropolisStandalone);
    assert_eq!(
        required_commands(script.steps()),
        vec!["propolis-standalone", "qemu-img", "sgdisk"]
    );
    assert_eq!(script.required_files(), vec!["/installer.img", "/fw/OVMF_CODE.fd"]);
    assert!(script.optional_files().is_empty());
    let ctx = script.initial_context();
    assert_eq!(ctx.get_var("work_dir"), Some("/work"));
    assert_eq!(ctx.get_var("vnic_link"), Some("igb0"));
    assert_eq!(ctx.get_var("vnic_name"), Some("vnic0"));
    assert_eq!(guest::VNIC_NAME, "vnic0");
    assert_eq!(ctx.get_var("installer_image"), Some("/installer.img"));
    assert_eq!(ctx.get_var("output_image"), Some("/out.img"));
    assert_eq!(ctx.get_var("propolis_bootrom"), Some("/fw/OVMF_CODE.fd"));
    assert_eq!(ctx.get_var("windows_iso"), None);
}

#[test]
fn the_installer_store_names_index_and_release() {
    let make = |index, version| {
        let mut sources = sources();
        sources.unattend_image_index = index;
        sources.windows_version = version;
        build::BuildInstallationDiskScript::new(build::BuildInstallationDiskArgs {
            work_dir: "/work".to_string(),
            output_image: "/installer.img".to_string(),
            sources,
        })
        .initial_context()
    };
    let ctx = make(Some(3), Some(VirtioDriverVersion::Server2019));
    assert_eq!(ctx.get_var("work_dir"), Some("/work"));
    assert_eq!(ctx.get_var("windows_iso"), Some("/iso/win.iso"));
    assert_eq!(ctx.get_var("virtio_iso"), Some("/iso/virtio.iso"));
    assert_eq!(ctx.get_var("unattend_dir"), Some("/src/unattend"));
    assert_eq!(ctx.get_var("output_image"), Some("/installer.img"));
    assert_eq!(ctx.get_var("unattend_image_index"), Some("3"));
    assert_eq!(ctx.get_var("windows_version"), Some("2k19"));
    let ctx = make(None, None);
    assert_eq!(ctx.get_var("unattend_image_index"), None);
    assert_eq!(ctx.get_var("windows_version"), Some("2k22"));
    let ctx = make(Some(4294967295), Some(VirtioDriverVersion::Server2016));
    assert_eq!(ctx.get_var("unattend_image_index"), Some("4294967295"));
    assert_eq!(ctx.get_var("windows_version"), Some("2k16"));
}

#[test]
fn the_installer_disk_is_made_with_these_commands() {
    let ctx = store(&[
        ("output_image", "/installer.img"),
        ("windows_iso", "/iso/win.iso"),
        ("work_dir", "/work"),
    ]);
    assert_eq!(
        plain(&build::create_installer_disk(&ctx).unwrap()),
        vec!["qemu-img", "create", "-f", "raw", "/installer.img", "8G"]
    );
    assert_eq!(
        plain(&build::set_up_installer_gpt_table(&ctx).unwrap()),
        vec!["sgdisk", "-og", "/installer.img"]
    );
    assert_eq!(
        plain(&build::create_installer_disk_partitions(&ctx).unwrap()),
        vec!["sgdisk", "-n=1:0:+1G", "-t", "1:0700", "-n=2:0:0", "-t", "2:0700", "/installer.img"]
    );
    assert_eq!(
        plain(&build::set_installer_disk_partition_ids(&ctx).unwrap()),
        vec![
            "sgdisk",
            "-u",
            "1:569CBD84-352D-44D9-B92D-BF25B852925B",
            "-u",
            "2:A94E24F7-92C9-405C-82AA-9A1B45BA180C",
            "/installer.img"
        ]
    );
    assert_eq!(
        plain(&build::mount_installer_disk_as_loopback_device(&ctx).unwrap()),
        vec!["pfexec", "lofiadm", "-l", "-a", "/installer.img"]
    );
    assert_eq!(plain(&build::flush_changes(&ctx).unwrap()), vec!["sync"]);
    assert_eq!(plain(&build::flush_changes(&Context::new()).unwrap()), vec!["sync"]);
    assert_eq!(build::create_installer_disk(&Context::new()).unwrap_err().name, "output_image");
    assert_eq!(build::create_winpe_fat32(&ctx).unwrap_err().name, "repack_loop_setup_raw");
    assert_eq!(build::mount_winpe_partition(&ctx).unwrap_err().name, "repack_loop_setup");
    assert_eq!(build::mount_winpe_partition(&Context::new()).unwrap_err().name, "work_dir");
    assert_eq!(build::extract_setup_to_winpe_partition(&ctx).unwrap_err().name, "setup_mount");
    assert_eq!(
        build::extract_setup_to_winpe_partition(&Context::new()).unwrap_err().name,
        "windows_iso"
    );
}

#[test]
fn the_loopback_device_gives_the_slices() {
    let device = build::loopback_device("/dev/dsk/c1t2d0p0\n").unwrap();
    assert_eq!(device.repack_loop, "/dev/dsk/c1t2d0p0");
    assert_eq!(device.repack_loop_setup_raw, "/dev/rdsk/c1t2d0s0");
    assert_eq!(device.repack_loop_setup, "/dev/dsk/c1t2d0s0");
    assert_eq!(device.repack_loop_image, "/dev/dsk/c1t2d0s1");
    let mut ctx = Context::new();
    device.record(&mut ctx);
    assert_eq!(ctx.get_var("repack_loop"), Some("/dev/dsk/c1t2d0p0"));
    assert_eq!(ctx.get_var("repack_loop_setup_raw"), Some("/dev/rdsk/c1t2d0s0"));
    assert_eq!(ctx.get_var("repack_loop_setup"), Some("/dev/dsk/c1t2d0s0"));
    assert_eq!(ctx.get_var("repack_loop_image"), Some("/dev/dsk/c1t2d0s1"));

    let device = build::loopback_device("/dev/dsk/p0p0 \t\r\n").unwrap();
    assert_eq!(device.repack_loop, "/dev/dsk/p0p0");
    assert_eq!(device.repack_loop_image, "/dev/dsk/p0s1");
    let device = build::loopback_device("/dev/dsk/p0").unwrap();
    assert_eq!(device.repack_loop_setup, "/dev/dsk/s0");

    assert_eq!(
        build::loopback_device("/dev/lofi/1\n").unwrap_err(),
        build::LoopbackError::NotUnderDevDsk
    );
    assert_eq!(
        build::loopback_device(" /dev/dsk/c1p0").unwrap_err(),
        build::LoopbackError::NotUnderDevDsk
    );
    assert_eq!(build::loopback_device("").unwrap_err(), build::LoopbackError::NotUnderDevDsk);
    assert_eq!(
        build::loopback_device("/dev/dsk/c1t2d0p1\n").unwrap_err(),
        build::LoopbackError::NoPartitionSuffix
    );
    assert_eq!(
        build::loopback_device("/dev/dsk/").unwrap_err(),
        build::LoopbackError::NoPartitionSuffix
    );
    assert_eq!(
        build::loopback_device("/dev/dsk/p").unwrap_err(),
        build::LoopbackError::NoPartitionSuffix
    );
    assert_eq!(
        build::loopback_device("/dev/dsk/c1p0 x").unwrap_err(),
        build::LoopbackError::NoPartitionSuffix
    );
    for printed in ["/dev/dsk/c2t0d0p0\n", "/dev/dsk/xp0  ", "/dev/dsk/p0", "x", "/dev/dsk/ap0b"] {
        let expected = printed
            .strip_prefix("/dev/dsk/")
            .and_then(|rest| rest.trim_end().strip_suffix("p0"))
            .map(|name| format!("/dev/rdsk/{}s0", name));
        assert_eq!(
            build::loopback_device(printed).ok().map(|device| device.repack_loop_setup_raw),
            expected
        );
    }
}

#[test]
fn the_partitions_are_filled_with_these_commands() {
    let mut ctx = store(&[
        ("work_dir", "/work"),
        ("output_image", "/installer.img"),
        ("windows_iso", "/iso/win.iso"),
        ("virtio_iso", "/iso/virtio.iso"),
        ("unattend_dir", "/work/unattend"),
        ("windows_version", "2k19"),
    ]);
    build::loopback_device("/dev/dsk/c1t2d0p0\n").unwrap().record(&mut ctx);
    assert_eq!(
        plain(&build::create_winpe_fat32(&ctx).unwrap()),
        vec!["pfexec", "mkfs", "-F", "pcfs", "-o", "fat=32", "/dev/rdsk/c1t2d0s0"]
    );
    let plan = build::mount_winpe_partition(&ctx).unwrap();
    assert_eq!(plan.directories, vec!["/work/setup-mount"]);
    assert_eq!(
        words(&plan.command),
        vec!["pfexec", "mount", "-F", "pcfs", "/dev/dsk/c1t2d0s0", "/work/setup-mount"]
    );
    assert_eq!(plan.outcome, vec![("setup_mount".to_string(), "/work/setup-mount".to_string())]);
    assert_eq!(ctx.get_var("setup_mount"), None);
    plan.record(&mut ctx);
    assert_eq!(ctx.get_var("setup_mount"), Some("/work/setup-mount"));

    assert_eq!(
        plain(&build::extract_setup_to_winpe_partition(&ctx).unwrap()),
        vec!["7z", "x", "-x!sources/install.wim", "/iso/win.iso", "-o/work/setup-mount"]
    );

    let copies = build::copy_unattend_to_winpe_partition(&ctx).unwrap();
    assert!(copies.directories.is_empty());
    assert!(!copies.tolerate_missing);
    assert!(copies.outcome.is_empty());
    let pair = |from: &str, to: &str| (from.to_string(), to.to_string());
    assert_eq!(
        copies.files,
        vec![
            pair("/work/unattend/Autounattend.xml", "/work/setup-mount/Autounattend.xml"),
            pair("/work/unattend/OxidePrepBaseImage.ps1", "/work/setup-mount/OxidePrepBaseImage.ps1"),
            pair("/work/unattend/prep.cmd", "/work/setup-mount/prep.cmd"),
            pair("/work/unattend/specialize-unattend.xml", "/work/setup-mount/specialize-unattend.xml"),
        ]
    );
    let copies = build::copy_cloudbase_init_to_winpe_partition(&ctx).unwrap();
    assert_eq!(copies.directories, vec!["/work/setup-mount/cloudbase-init"]);
    assert!(!copies.tolerate_missing);
    assert_eq!(
        copies.files,
        vec![
            pair(
                "/work/unattend/cloudbase-init-unattend.conf",
                "/work/setup-mount/cloudbase-init/cloudbase-init-unattend.conf"
            ),
            pair(
                "/work/unattend/cloudbase-init.conf",
                "/work/setup-mount/cloudbase-init/cloudbase-init.conf"
            ),
        ]
    );

    assert_eq!(
        build::driver_patterns("2k19"),
        vec![
            "viostor/2k19/amd64/*.cat",
            "viostor/2k19/amd64/*.inf",
            "viostor/2k19/amd64/*.sys",
            "NetKVM/2k19/amd64/*.cat",
            "NetKVM/2k19/amd64/*.inf",
            "NetKVM/2k19/amd64/*.sys",
        ]
    );
    let expected: Vec<String> =
        itertools::Itertools::cartesian_product(["viostor", "NetKVM"].into_iter(), ["cat", "inf", "sys"])
            .map(|(driver, ext)| format!("{}/{}/amd64/*.{}", driver, "2k22", ext))
            .collect();
    assert_eq!(build::driver_patterns("2k22"), expected);
    let plans = build::copy_virtio_to_winpe_partition(&ctx).unwrap();
    assert_eq!(plans.len(), 6);
    assert_eq!(
        plain(&plans[0]),
        vec!["7z", "e", "/iso/virtio.iso", "-o/work/setup-mount/virtio-drivers/", "viostor/2k19/amd64/*.cat"]
    );
    assert_eq!(
        plain(&plans[5]),
        vec!["7z", "e", "/iso/virtio.iso", "-o/work/setup-mount/virtio-drivers/", "NetKVM/2k19/amd64/*.sys"]
    );
    assert_eq!(
        plain(&build::unmount_winpe_partition(&ctx).unwrap()),
        vec!["pfexec", "umount", "/work/setup-mount"]
    );

    let queries = build::wim_partition_queries(&ctx).unwrap();
    assert_eq!(queries.len(), 4);
    assert_eq!(words(&queries[0]), vec!["sgdisk", "-p", "/installer.img"]);
    for query in &queries[1..] {
        assert_eq!(words(query), vec!["sgdisk", "-i", "2", "/installer.img"]);
    }
    assert_eq!(build::create_wim_partition_ntfs(&ctx).unwrap_err().name, "sector_size");
    build::get_wim_partition_parameters(&mut ctx, info());
    assert_eq!(ctx.get_var("sector_size"), Some("512"));
    assert_eq!(ctx.get_var("first_sector"), Some("2099200"));
    assert_eq!(ctx.get_var("partition_sectors"), Some("14677983"));
    assert_eq!(ctx.get_var("last_sector"), None);
    assert_eq!(
        plain(&build::create_wim_partition_ntfs(&ctx).unwrap()),
        vec![
            "pfexec", "mkntfs", "-Q", "-s", "512", "-p", "2099200", "-H", "16", "-S", "63",
            "/dev/dsk/c1t2d0s1", "14677983"
        ]
    );
    let plan = build::mount_wim_partition(&ctx).unwrap();
    assert_eq!(plan.directories, vec!["/work/image-mount"]);
    assert_eq!(words(&plan.command), vec!["pfexec", "ntfs-3g", "/dev/dsk/c1t2d0s1", "/work/image-mount"]);
    assert_eq!(build::copy_install_wim(&ctx).unwrap_err().name, "image_mount");
    plan.record(&mut ctx);
    assert_eq!(
        plain(&build::copy_install_wim(&ctx).unwrap()),
        vec!["7z", "e", "-i!sources/install.wim", "/iso/win.iso", "-o/work/image-mount"]
    );
    assert_eq!(
        plain(&build::unmount_wim_partition(&ctx).unwrap()),
        vec!["pfexec", "umount", "/work/image-mount"]
    );
    assert_eq!(
        plain(&build::remove_loopback_device(&ctx).unwrap()),
        vec!["pfexec", "lofiadm", "-d", "/dev/dsk/c1t2d0p0"]
    );
    assert_eq!(
        build::copy_virtio_to_winpe_partition(&store(&[("setup_mount", "/m"), ("windows_version", "x")]))
            .unwrap_err()
            .name,
        "virtio_iso"
    );
}

#[test]
fn the_unattend_files_are_copied_and_customized() {
    let mut ctx = store(&[("work_dir", "/work"), ("unattend_dir", "/src/unattend")]);
    let copies = copy_unattend_files_to_work_dir(&ctx).unwrap();
    assert_eq!(copies.directories, vec!["/work/unattend"]);
    assert!(copies.tolerate_missing);
    assert_eq!(copies.files.len(), 6);
    assert_eq!(
        copies.files[0],
        ("/src/unattend/Autounattend.xml".to_string(), "/work/unattend/Autounattend.xml".to_string())
    );
    assert_eq!(
        copies.files[4],
        ("/src/unattend/prep.cmd".to_string(), "/work/unattend/prep.cmd".to_string())
    );
    assert_eq!(copies.outcome, vec![("unattend_dir".to_string(), "/work/unattend".to_string())]);
    copies.record(&mut ctx);
    assert_eq!(ctx.get_var("unattend_dir"), Some("/work/unattend"));
    assert_eq!(copy_unattend_files_to_work_dir(&Context::new()).unwrap_err().name, "work_dir");
    assert_eq!(
        copy_unattend_files_to_work_dir(&store(&[("work_dir", "/work")])).unwrap_err().name,
        "unattend_dir"
    );

    let plan = customize_autounattend_xml(&ctx).unwrap();
    assert_eq!(plan.updater.rule_count(), 0);
    assert_eq!(plan.scratch, "/work/unattend/Autounattend.tmp");
    assert_eq!(plan.answer_file, "/work/unattend/Autounattend.xml");
    ctx.set_var("unattend_image_index", "5".to_string());
    let plan = customize_autounattend_xml(&ctx).unwrap();
    assert_eq!(plan.updater.rule_count(), 1);
    let (items, count) = plan
        .updater
        .rewrite_events(vec![wimsy::events::XmlItem::characters("text")])
        .unwrap();
    assert_eq!((items.len(), count), (1, 0));
    ctx.set_var("unattend_image_index", "five".to_string());
    assert!(matches!(customize_autounattend_xml(&ctx), Err(CustomizeError::BadImageIndex)));
    ctx.set_var("unattend_image_index", "4294967296".to_string());
    assert!(matches!(customize_autounattend_xml(&ctx), Err(CustomizeError::BadImageIndex)));
    ctx.set_var("unattend_image_index", "4294967295".to_string());
    assert!(customize_autounattend_xml(&ctx).is_ok());
    let lone = store(&[("unattend_image_index", "1")]);
    assert!(matches!(
        customize_autounattend_xml(&lone),
        Err(CustomizeError::Missing(missing)) if missing.name == "unattend_dir"
    ));
}

#[test]
fn the_image_is_created_trimmed_and_repaired() {
    assert_eq!(
        plain(&create_output_image("/out.img")),
        vec!["qemu-img", "create", "-f", "raw", "/out.img", "30G"]
    );
    assert_eq!(plain(&repair_secondary_gpt("/out.img")), vec!["sgdisk", "-e", "/out.img"]);
    let queries = gpt_partition_queries("/out.img", 4);
    assert_eq!(queries.len(), 4);
    assert_eq!(words(&queries[0]), vec!["sgdisk", "-p", "/out.img"]);
    assert_eq!(words(&queries[1]), vec!["sgdisk", "-i", "4", "/out.img"]);
    assert_eq!(words(&queries[3]), vec!["sgdisk", "-i", "4", "/out.img"]);
    assert_eq!(words(&gpt_partition_queries("x", 128)[2]), vec!["sgdisk", "-i", "128", "x"]);
    let plan = shrink_output_image("/out.img", "512", "1000").unwrap();
    assert_eq!(
        words(&plan.with_flag),
        vec!["qemu-img", "resize", "--shrink", "-f", "raw", "/out.img", "529408"]
    );
    assert_eq!(
        words(&plan.without_flag),
        vec!["qemu-img", "resize", "-f", "raw", "/out.img", "529408"]
    );
    assert_eq!(
        shrink_output_image("/out.img", "512 B", "1000").unwrap_err(),
        ShrinkError::SectorSize
    );
    assert_eq!(shrink_output_image("/out.img", "512", "").unwrap_err(), ShrinkError::LastSector);
    assert_eq!(
        shrink_output_image("/out.img", "18446744073709551615", "2").unwrap_err(),
        ShrinkError::TooLarge
    );

    let mut ctx = store(&[("output_image", "/out.img")]);
    assert_eq!(
        plain(&qemu::create_output_image(&ctx).unwrap()),
        vec!["qemu-img", "create", "-f", "raw", "/out.img", "30G"]
    );
    assert_eq!(
        plain(&guest::create_output_image(&ctx).unwrap()),
        vec!["qemu-img", "create", "-f", "raw", "/out.img", "30G"]
    );
    assert_eq!(qemu::create_output_image(&Context::new()).unwrap_err().name, "output_image");
    assert_eq!(words(&qemu::partition_size_queries(&ctx).unwrap()[1]), vec!["sgdisk", "-i", "4", "/out.img"]);
    assert_eq!(words(&guest::partition_size_queries(&ctx).unwrap()[0]), vec!["sgdisk", "-p", "/out.img"]);
    assert!(matches!(
        qemu::shrink_output_image(&ctx),
        Err(ShrinkStepError::Missing(missing)) if missing.name == "sector_size"
    ));
    qemu::get_partition_size(&mut ctx, info());
    assert_eq!(ctx.get_var("sector_size"), Some("512"));
    assert_eq!(ctx.get_var("last_sector"), Some("16777182"));
    assert_eq!(ctx.get_var("first_sector"), None);
    let plan = qemu::shrink_output_image(&ctx).unwrap();
    let size = (512u64 * 16777182 + 34 * 512).to_string();
    assert_eq!(
        words(&plan.with_flag),
        vec!["qemu-img", "resize", "--shrink", "-f", "raw", "/out.img", size.as_str()]
    );
    let plan = guest::shrink_output_image(&ctx).unwrap();
    assert_eq!(
        words(&plan.without_flag),
        vec!["qemu-img", "resize", "-f", "raw", "/out.img", size.as_str()]
    );
    ctx.set_var("last_sector", "many".to_string());
    assert!(matches!(
        guest::shrink_output_image(&ctx),
        Err(ShrinkStepError::Size(ShrinkError::LastSector))
    ));
    assert!(matches!(
        guest::shrink_output_image(&Context::new()),
        Err(ShrinkStepError::Missing(missing)) if missing.name == "output_image"
    ));
    assert_eq!(plain(&qemu::repair_secondary_gpt(&ctx).unwrap()), vec!["sgdisk", "-e", "/out.img"]);
    assert_eq!(plain(&guest::repair_secondary_gpt(&ctx).unwrap()), vec!["sgdisk", "-e", "/out.img"]);
    let mut other = Context::new();
    guest::get_partition_size(&mut other, info());
    assert_eq!(other.get_var("last_sector"), Some("16777182"));
}

#[test]
fn qemu_is_launched_with_the_disks_of_the_store() {
    let mut ctx = store(&[("work_dir", "/work"), ("unattend_dir", "/work/unattend")]);
    let plan = qemu::create_config_iso(&ctx).unwrap();
    assert!(plan.directories.is_empty());
    assert_eq!(
        words(&plan.command),
        vec!["genisoimage", "-J", "-R", "-o", "/work/unattend.iso", "/work/unattend"]
    );
    assert_eq!(plan.outcome, vec![("unattend_iso".to_string(), "/work/unattend.iso".to_string())]);
    assert_eq!(qemu::install_via_qemu(&ctx).unwrap_err().name, "ovmf_path");
    plan.record(&mut ctx);
    ctx.set_var("ovmf_path", "/fw/OVMF.fd".to_string());
    ctx.set_var("output_image", "/out.img".to_string());
    ctx.set_var("windows_iso", "/iso/win.iso".to_string());
    assert_eq!(qemu::install_via_qemu(&ctx).unwrap_err().name, "virtio_iso");
    ctx.set_var("virtio_iso", "/iso/virtio.iso".to_string());
    let command = qemu::install_via_qemu(&ctx).unwrap();
    let expected = vec![
        "qemu-system-x86_64",
        "-nodefaults",
        "-enable-kvm",
        "-M",
        "pc",
        "-m",
        "2048",
        "-cpu",
        "host,kvm=off,hv_relaxed,hv_spinlocks=0x1fff,hv_vapic,hv_time",
        "-smp",
        "2,sockets=1,cores=2",
        "-rtc",
        "base=localtime",
        "-drive",
        "if=pflash,format=raw,readonly=on,file=/fw/OVMF.fd",
        "-netdev",
        "user,id=net0",
        "-device",
        "virtio-net-pci,netdev=net0",
        "-device",
        "nvme,drive=drivec,serial=01de01de,physical_block_size=512,\
                logical_block_size=512,discard_granularity=512,bootindex=1",
        "-drive",
        "if=none,id=drivec,file=/out.img,format=raw",
        "-device",
        "ide-cd,drive=win-disk,id=cd-disk0,unit=0,bus=ide.0,bootindex=2",
        "-drive",
        "file=/iso/win.iso,if=none,id=win-disk,media=cdrom",
        "-device",
        "ide-cd,drive=virtio-disk,id=cd-disk1,unit=0,bus=ide.1",
        "-drive",
        "file=/iso/virtio.iso,if=none,id=virtio-disk,media=cdrom",
        "-device",
        "ide-cd,drive=unattend-disk,id=cd-disk2,unit=1,bus=ide.0",
        "-drive",
        "file=/work/unattend.iso,if=none,id=unattend-disk,media=cdrom",
        "-serial",
        "stdio",
        "-monitor",
        "telnet:localhost:8888,server,nowait",
        "-display",
        "none",
    ];
    assert_eq!(words(&command), expected);
    ctx.set_var("vga_console", String::new());
    let command = qemu::install_via_qemu(&ctx).unwrap();
    assert_eq!(command.arguments.len(), 42);
    assert_eq!(&words(&command)[..39], &expected[..39]);
    assert_eq!(&command.arguments[38..], &["-vga", "std", "-display", "gtk"]);
}

#[test]
fn propolis_is_configured_and_launched() {
    let mut ctx = store(&[
        ("work_dir", "/work"),
        ("vnic_link", "igb0"),
        ("vnic_name", "vnic0"),
        ("installer_image", "/installer.img"),
        ("output_image", "/out.img"),
        ("propolis_bootrom", "/fw/OVMF_CODE.fd"),
    ]);
    assert_eq!(
        plain(&guest::create_vnic(&ctx).unwrap()),
        vec!["pfexec", "dladm", "create-vnic", "-t", "-l", "igb0", "vnic0"]
    );
    assert_eq!(
        plain(&guest::remove_vnic(&ctx).unwrap()),
        vec!["pfexec", "dladm", "delete-vnic", "vnic0"]
    );
    assert_eq!(guest::create_vnic(&Context::new()).unwrap_err().name, "vnic_link");
    assert_eq!(guest::create_vnic(&store(&[("vnic_link", "x")])).unwrap_err().name, "vnic_name");
    let file = guest::write_vm_toml(&ctx).unwrap();
    assert_eq!(file.path, "/work/vm.toml");
    assert_eq!(file.outcome, ("vm_toml_path".to_string(), "/work/vm.toml".to_string()));
    let expected = format!(
        r#"
[main]
name = "wimsy-server"
cpus = 2
memory = 2048
bootrom = "{}"

[block_dev.win_image]
type = "file"
path = "{}"
[dev.block0]
driver = "pci-nvme"
block_dev = "win_image"
pci-path = "0.16.0"

[block_dev.win_iso]
type = "file"
path = "{}"
[dev.block1]
driver = "pci-nvme"
block_dev = "win_iso"
pci-path = "0.17.0"

[dev.net0]
driver = "pci-virtio-viona"
vnic = "{}"
pci-path = "0.8.0"
"#,
        "/fw/OVMF_CODE.fd", "/out.img", "/installer.img", "vnic0"
    );
    assert_eq!(file.content, expected);
    assert_eq!(guest::write_vm_toml(&store(&[("work_dir", "/w")])).unwrap_err().name, "propolis_bootrom");
    assert_eq!(guest::run_propolis_standalone(&ctx).unwrap_err().name, "vm_toml_path");
    ctx.set_var(&file.outcome.0, file.outcome.1.clone());
    let plan = guest::run_propolis_standalone(&ctx).unwrap();
    assert_eq!(plan.work_dir, "/work");
    assert_eq!(words(&plan.launch), vec!["pfexec", "propolis-standalone", "/work/vm.toml"]);
    assert_eq!(plan.ttya, "/work/ttya");
    assert_eq!(words(&plan.grant), vec!["pfexec", "chmod", "666", "/work/ttya"]);
}

#[test]
fn a_refused_connection_is_tried_again_ten_times() {
    assert_eq!(qemu::MONITOR_RETRIES, 10);
    assert_eq!(qemu::ENTER_KEY_PRESSES, 20);
    assert_eq!(qemu::MONITOR_PAUSE_SECONDS, 1);
    assert_eq!(qemu::MONITOR_ADDRESS, "127.0.0.1:8888");
    assert_eq!(qemu::ENTER_KEY_COMMAND, "sendkey ret\n");
    assert_eq!(qemu::after_refused_connection(0), Some(1));
    assert_eq!(qemu::after_refused_connection(9), Some(10));
    assert_eq!(qemu::after_refused_connection(10), None);
    assert_eq!(qemu::after_refused_connection(u32::MAX), None);
    let mut connections = 1;
    let mut retries = 0;
    while let Some(next) = qemu::after_refused_connection(retries) {
        retries = next;
        connections += 1;
    }
    assert_eq!(connections, 11);
    assert_eq!(guest::TTYA_CHECKS, 6);
    assert_eq!(guest::TTYA_SETTLE_SECONDS, 5);
    assert_eq!(build::FLUSH_SETTLE_SECONDS, 2);
}
