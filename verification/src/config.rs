//! What the user hands to a script: the sources of an image, and the files
//! that answer the questions of Windows Setup.

use crate::autounattend::VirtioDriverVersion;
use crate::text::to_chars;
use vstd::prelude::*;
use vstd::string::StringExecFns;

verus! {

/// The number of files that steer an unattended installation.
pub const UNATTEND_FILE_COUNT: usize = 6;

/// The names of the files that steer an unattended installation.
pub open spec fn unattend_file_names() -> Seq<Seq<char>> {
    seq![
        "Autounattend.xml"@,
        "cloudbase-init-unattend.conf"@,
        "cloudbase-init.conf"@,
        "OxidePrepBaseImage.ps1"@,
        "prep.cmd"@,
        "specialize-unattend.xml"@,
    ]
}

/// The names of the files that steer an unattended installation.
pub fn unattend_files() -> (names: Vec<&'static str>)
    ensures
        names.deep_view() == unattend_file_names(),
        names.len() == UNATTEND_FILE_COUNT,
{
    let mut names: Vec<&'static str> = Vec::new();
    names.push("Autounattend.xml");
    names.push("cloudbase-init-unattend.conf");
    names.push("cloudbase-init.conf");
    names.push("OxidePrepBaseImage.ps1");
    names.push("prep.cmd");
    names.push("specialize-unattend.xml");
    assert(names.deep_view() =~= unattend_file_names());
    names
}

/// Where the parts of an image come from.
#[derive(Debug)]
pub struct ImageSources {
    /// The path to the Windows setup ISO.
    pub windows_iso: String,
    /// The path to an ISO with signed virtio-net and virtio-block drivers,
    /// laid out as the Fedora project lays out its driver disks.
    pub virtio_iso: String,
    /// The path to the directory with the unattend files to put into the
    /// image.
    pub unattend_dir: String,
    /// The image index to write into the answer file; without one the index
    /// in the answer file stays.
    pub unattend_image_index: Option<u32>,
    /// The Windows Server release whose drivers the answer file should
    /// name; without one the driver paths in the answer file stay.
    pub windows_version: Option<VirtioDriverVersion>,
}

/// The directory of a release on a virtio driver disk.
pub open spec fn driver_directory(version: VirtioDriverVersion) -> Seq<char> {
    match version {
        VirtioDriverVersion::Server2016 => "2k16"@,
        VirtioDriverVersion::Server2019 => "2k19"@,
        VirtioDriverVersion::Server2022 => "2k22"@,
    }
}

impl VirtioDriverVersion {
    /// The directory of the release on a virtio driver disk.
    pub fn as_driver_path_component(&self) -> (directory: &'static str)
        ensures
            directory@ == driver_directory(*self),
    {
        match self {
            VirtioDriverVersion::Server2016 => "2k16",
            VirtioDriverVersion::Server2019 => "2k19",
            VirtioDriverVersion::Server2022 => "2k22",
        }
    }
}

/// The path `dir` extended by `name`: `name` itself if it starts at the
/// root, else `dir` and `name` with one slash between them unless `dir` is
/// empty or ends in a slash already.
pub open spec fn joined(dir: Seq<char>, name: Seq<char>) -> Seq<char> {
    if name.len() > 0 && name[0] == '/' {
        name
    } else if dir.len() == 0 || dir.last() == '/' {
        dir + name
    } else {
        dir + seq!['/'] + name
    }
}

/// The path `dir` extended by `name`.
pub fn join_path(dir: &str, name: &str) -> (path: String)
    ensures
        path@ == joined(dir@, name@),
{
    let head = to_chars(dir);
    let tail = to_chars(name);
    if tail.len() > 0 && tail[0] == '/' {
        return name.to_owned();
    }
    let mut path = dir.to_owned();
    if head.len() > 0 && head[head.len() - 1] != '/' {
        path.push('/');
        assert(path@ =~= dir@ + seq!['/']);
    }
    path.append(name);
    path
}

/// The paths of `names` in the directory `dir`, in the order of `names`.
pub open spec fn joined_all(dir: Seq<char>, names: Seq<Seq<char>>) -> Seq<Seq<char>> {
    Seq::new(names.len(), |i: int| joined(dir, names[i]))
}

/// The paths at which the unattend files lie in the directory `dir`.
pub fn unattend_paths(dir: &str) -> (paths: Vec<String>)
    ensures
        paths.deep_view() == joined_all(dir@, unattend_file_names()),
{
    let names = unattend_files();
    let mut paths: Vec<String> = Vec::new();
    let mut i: usize = 0;
    while i < names.len()
        invariant
            i <= names.len(),
            names.deep_view() == unattend_file_names(),
            paths.len() == i,
            forall|k: int| 0 <= k < i ==> (#[trigger] paths[k])@ == joined(dir@, names[k]@),
        decreases names.len() - i,
    {
        paths.push(join_path(dir, names[i]));
        i += 1;
    }
    assert(paths.deep_view() =~= joined_all(dir@, unattend_file_names())) by {
        assert forall|k: int| 0 <= k < paths.len() implies paths.deep_view()[k] == joined(
            dir@,
            unattend_file_names()[k],
        ) by {
            assert(names.deep_view()[k] == names[k]@);
        }
    }
    paths
}

} // verus!
