//! Where things lie below the project root: the configuration files, the
//! build manifest, the build outputs and the disk image.

use vstd::prelude::*;
use vstd::string::StrSliceExecFns;
use crate::registry::{id_name, ArchId, ArchitectureProfile, BootArtifactKind};
use crate::text::{joined, owned};

verus! {

/// `name` placed inside the directory `base`.
///
/// An empty `base` is the current directory and adds nothing; a `base` that
/// already ends in the separator gets no second one.
pub open spec fn child_of(base: Seq<char>, name: Seq<char>) -> Seq<char> {
    if base.len() == 0 {
        name
    } else if base.last() == '/' {
        base + name
    } else {
        base + seq!['/'] + name
    }
}

/// The path of `name` inside the directory `base`.
pub fn child(base: &str, name: &str) -> (r: String)
    ensures
        r@ == child_of(base@, name@),
{
    let n: usize = base.unicode_len();
    if n == 0 {
        owned(name)
    } else if base.get_char(n - 1) == '/' {
        joined(base, name)
    } else {
        proof {
            reveal_strlit("/");
            assert("/"@ =~= seq!['/']);
        }
        let mut out: String = joined(base, "/");
        out.append(name);
        out
    }
}

/// The project root: the directory that holds the build manifest.
pub fn project_root(manifest_dir: &str) -> (r: String)
    ensures
        r@ == manifest_dir@,
{
    owned(manifest_dir)
}

/// The configuration file kept for an architecture.
pub open spec fn config_source_of(root: Seq<char>, id: ArchId) -> Seq<char> {
    child_of(child_of(root, "configs"@), id_name(id) + ".toml"@)
}

/// The place from which the build reads its configuration.
pub open spec fn config_destination_of(root: Seq<char>) -> Seq<char> {
    child_of(root, ".axconfig.toml"@)
}

/// The build manifest.
pub open spec fn manifest_of(root: Seq<char>) -> Seq<char> {
    child_of(root, "Cargo.toml"@)
}

/// The executable that the compiler leaves for a compile target.
pub open spec fn elf_of(root: Seq<char>, compile_target: Seq<char>) -> Seq<char> {
    child_of(
        child_of(child_of(child_of(root, "target"@), compile_target), "release"@),
        "arceos-loadapp"@,
    )
}

/// The raw binary converted from an executable: its sibling with the
/// extension `bin`.
pub open spec fn bin_of(elf: Seq<char>) -> Seq<char> {
    elf + ".bin"@
}

/// The disk image.
pub open spec fn disk_of(root: Seq<char>) -> Seq<char> {
    child_of(child_of(root, "target"@), "disk.img"@)
}

/// The configuration file kept for the architecture `id`.
pub fn config_source(root: &str, id: ArchId) -> (r: String)
    ensures
        r@ == config_source_of(root@, id),
{
    let dir: String = child(root, "configs");
    let file: String = joined(id.name(), ".toml");
    child(dir.as_str(), file.as_str())
}

/// The place from which the build reads its configuration.
pub fn config_destination(root: &str) -> (r: String)
    ensures
        r@ == config_destination_of(root@),
{
    child(root, ".axconfig.toml")
}

/// The build manifest.
pub fn manifest_path(root: &str) -> (r: String)
    ensures
        r@ == manifest_of(root@),
{
    child(root, "Cargo.toml")
}

/// The disk image.
pub fn disk_path(root: &str) -> (r: String)
    ensures
        r@ == disk_of(root@),
{
    let dir: String = child(root, "target");
    child(dir.as_str(), "disk.img")
}

/// What a set of build outputs holds, as plain sequences.
pub struct ArtifactsView {
    pub elf: Seq<char>,
    pub bin: Seq<char>,
}

/// The outputs of a build: the executable, and the place of the raw binary
/// converted from it.
#[derive(Clone, Debug)]
pub struct BuildArtifacts {
    pub elf: String,
    pub bin: String,
}

impl View for BuildArtifacts {
    type V = ArtifactsView;

    open spec fn view(&self) -> ArtifactsView {
        ArtifactsView { elf: self.elf@, bin: self.bin@ }
    }
}

/// The build outputs for a compile target below `root`.
pub open spec fn artifacts_of(root: Seq<char>, compile_target: Seq<char>) -> ArtifactsView {
    ArtifactsView { elf: elf_of(root, compile_target), bin: bin_of(elf_of(root, compile_target)) }
}

/// The file that the emulator boots: the raw binary, or the executable
/// itself for an architecture that boots from that.
pub open spec fn boot_image_of(kind: BootArtifactKind, artifacts: ArtifactsView) -> Seq<char> {
    match kind {
        BootArtifactKind::RawBinary => artifacts.bin,
        BootArtifactKind::ElfExecutable => artifacts.elf,
    }
}

impl BuildArtifacts {
    /// The build outputs of `profile` below `root`.
    pub fn locate(root: &str, profile: &ArchitectureProfile) -> (r: BuildArtifacts)
        ensures
            r@ == artifacts_of(root@, profile@.compile_target),
    {
        let target_dir: String = child(root, "target");
        let triple_dir: String = child(target_dir.as_str(), profile.compile_target.as_str());
        let release_dir: String = child(triple_dir.as_str(), "release");
        let elf: String = child(release_dir.as_str(), "arceos-loadapp");
        let bin: String = joined(elf.as_str(), ".bin");
        BuildArtifacts { elf, bin }
    }

    /// The file that the emulator boots for an architecture that boots from
    /// `kind`.
    pub fn boot_image(&self, kind: BootArtifactKind) -> (r: &str)
        ensures
            r@ == boot_image_of(kind, self@),
    {
        match kind {
            BootArtifactKind::RawBinary => self.bin.as_str(),
            BootArtifactKind::ElfExecutable => self.elf.as_str(),
        }
    }
}

} // verus!
