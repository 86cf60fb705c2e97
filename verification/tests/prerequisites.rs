use wimsy::config::{join_path, unattend_files, unattend_paths, UNATTEND_FILE_COUNT};
use wimsy::autounattend::VirtioDriverVersion;
use wimsy::runner::{ScriptStep, Verdict};
use wimsy::util::{
    check_executable_prerequisites, check_file_prerequisites, check_prerequisites,
    required_commands, FileStatus,
};

fn files(found: &[(&str, FileStatus)]) -> Vec<(String, FileStatus)> {
    found.iter().map(|(path, status)| (path.to_string(), *status)).collect()
}

fn commands(found: &[(&'static str, Option<&str>)]) -> Vec<(&'static str, Option<String>)> {
    found.iter().map(|(name, reason)| (*name, reason.map(|r| r.to_string()))).collect()
}

#[test]
fn files_that_are_missing_or_no_files_are_complained_of() {
    let found = files(&[
        ("win.iso", FileStatus::Missing),
        ("virtio.iso", FileStatus::File),
        ("/tmp", FileStatus::NotAFile),
    ]);
    assert_eq!(
        check_file_prerequisites(&found),
        vec!["'win.iso' not found", "'/tmp' exists but isn't a file"]
    );
    let found = files(&[("win.iso", FileStatus::File), ("virtio.iso", FileStatus::File)]);
    assert!(check_file_prerequisites(&found).is_empty());
    assert!(check_file_prerequisites(&vec![]).is_empty());
    let found = files(&[
        ("win.iso", FileStatus::NotAFile),
        ("virtio.iso", FileStatus::Missing),
        ("/tmp", FileStatus::Missing),
    ]);
    assert_eq!(
        check_file_prerequisites(&found),
        vec!["'win.iso' exists but isn't a file", "'virtio.iso' not found", "'/tmp' not found"]
    );
}

#[test]
fn commands_come_once_and_in_dictionary_order() {
    let steps = vec![
        ScriptStep::with_prereqs("a", 0u8, &["sgdisk"]),
        ScriptStep::new("b", 1u8),
        ScriptStep::with_prereqs("c", 2u8, &["qemu-img", "7z", "sgdisk"]),
        ScriptStep::with_prereqs("d", 3u8, &["mkntfs", "qemu-img", "Zip", "ntfs-3g"]),
        ScriptStep::with_prereqs("e", 4u8, &["qemu", "", "qemu-img2"]),
    ];
    let commands = required_commands(&steps);
    assert_eq!(
        commands,
        vec!["", "7z", "Zip", "mkntfs", "ntfs-3g", "qemu", "qemu-img", "qemu-img2", "sgdisk"]
    );
    let mut expected: Vec<&str> =
        steps.iter().flat_map(|step| step.prereq_commands().iter().copied()).collect();
    expected.sort();
    expected.dedup();
    assert_eq!(commands, expected);
    assert!(required_commands::<u8>(&[]).is_empty());
    assert!(required_commands(&[ScriptStep::new("only", ())]).is_empty());
    let accented = vec![ScriptStep::with_prereqs("x", (), &["é", "z", "e", "ez", "\u{10000}", "\u{ffff}"])];
    assert_eq!(required_commands(&accented), vec!["e", "ez", "z", "é", "\u{ffff}", "\u{10000}"]);
}

#[test]
fn commands_that_were_not_found_are_complained_of() {
    let found = commands(&[
        ("7z", Some("cannot find binary path")),
        ("qemu-img", None),
        ("sgdisk", Some("")),
    ]);
    assert_eq!(
        check_executable_prerequisites(&found),
        vec![
            "binary or command '7z' not found (is it on your PATH?): cannot find binary path",
            "binary or command 'sgdisk' not found (is it on your PATH?): ",
        ]
    );
    let found = commands(&[("7z", None), ("qemu-img", None)]);
    assert!(check_executable_prerequisites(&found).is_empty());
    assert!(check_executable_prerequisites(&vec![]).is_empty());
}

#[test]
fn required_things_are_errors_and_optional_ones_warnings() {
    let missing = check_prerequisites(
        &files(&[("win.iso", FileStatus::File), ("virtio.iso", FileStatus::Missing)]),
        &files(&[("unattend/prep.cmd", FileStatus::NotAFile)]),
        &commands(&[("qemu-img", Some("not there"))]),
    );
    assert_eq!(
        missing.errors(),
        &vec![
            "'virtio.iso' not found",
            "binary or command 'qemu-img' not found (is it on your PATH?): not there"
        ]
    );
    assert_eq!(missing.warnings(), &vec!["'unattend/prep.cmd' exists but isn't a file"]);
    assert_eq!(missing.verdict(), Verdict::Abort);

    let missing = check_prerequisites(
        &files(&[("win.iso", FileStatus::File), ("virtio.iso", FileStatus::File)]),
        &files(&[("unattend/prep.cmd", FileStatus::Missing)]),
        &commands(&[("qemu-img", None)]),
    );
    assert!(missing.errors().is_empty());
    assert_eq!(missing.warnings(), &vec!["'unattend/prep.cmd' not found"]);
    assert_eq!(missing.verdict(), Verdict::ProceedWithWarnings);

    let missing = check_prerequisites(&vec![], &vec![], &vec![]);
    assert_eq!(missing.verdict(), Verdict::Proceed);
}

#[test]
fn paths_are_joined_as_camino_joins_them() {
    assert_eq!(join_path("/tmp/work", "unattend"), "/tmp/work/unattend");
    assert_eq!(join_path("/tmp/work/", "unattend"), "/tmp/work/unattend");
    assert_eq!(join_path("", "unattend"), "unattend");
    assert_eq!(join_path("work", ""), "work/");
    assert_eq!(join_path("work", "/etc/passwd"), "/etc/passwd");
    assert_eq!(join_path("/", "x"), "/x");
    assert_eq!(join_path("a//", "b/c"), "a//b/c");
    let dirs = ["", "/", "a", "a/", "/a/b", "a//", "./a", "ä/ö", "a b"];
    let names = ["", "x", "x/y", "/x", "/", "x/", "../x", ".", "ü"];
    for dir in dirs {
        for name in names {
            let mut path = camino::Utf8PathBuf::from(dir);
            path.push(name);
            assert_eq!(join_path(dir, name), path.as_str(), "{:?} joined with {:?}", dir, name);
        }
    }
}

#[test]
fn the_unattend_files_are_six() {
    assert_eq!(UNATTEND_FILE_COUNT, 6);
    assert_eq!(
        unattend_files(),
        vec![
            "Autounattend.xml",
            "cloudbase-init-unattend.conf",
            "cloudbase-init.conf",
            "OxidePrepBaseImage.ps1",
            "prep.cmd",
            "specialize-unattend.xml",
        ]
    );
    assert_eq!(
        unattend_paths("/u"),
        vec![
            "/u/Autounattend.xml",
            "/u/cloudbase-init-unattend.conf",
            "/u/cloudbase-init.conf",
            "/u/OxidePrepBaseImage.ps1",
            "/u/prep.cmd",
            "/u/specialize-unattend.xml",
        ]
    );
    assert_eq!(unattend_paths("")[4], "prep.cmd");
}

#[test]
fn releases_have_their_driver_directories() {
    assert_eq!(VirtioDriverVersion::Server2016.as_driver_path_component(), "2k16");
    assert_eq!(VirtioDriverVersion::Server2019.as_driver_path_component(), "2k19");
    assert_eq!(VirtioDriverVersion::Server2022.as_driver_path_component(), "2k22");
}
