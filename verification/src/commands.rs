//! The command lines of the outside tools: the compiler, the converter from
//! executable to raw binary, and the emulator.

use vstd::prelude::*;
use crate::layout::{boot_image_of, ArtifactsView, BuildArtifacts};
use crate::registry::{id_name, profile_of, ArchId, ArchitectureProfile, BootArtifactKind, ProfileView};
use crate::text::{join_spaced, joined, owned, push_text, push_texts, spaced, texts};

verus! {

/// What an invocation holds, as plain sequences.
pub struct InvocationView {
    pub program: Seq<char>,
    pub args: Seq<Seq<char>>,
}

/// A program to start, with its arguments in order.
#[derive(Clone, Debug)]
pub struct Invocation {
    pub program: String,
    pub args: Vec<String>,
}

impl View for Invocation {
    type V = InvocationView;

    open spec fn view(&self) -> InvocationView {
        InvocationView { program: self.program@, args: texts(self.args@) }
    }
}

/// The compiler run: an optimised build for the profile's target, with the
/// runtime that can reach a filesystem, of the manifest given.
pub open spec fn compile_of(manifest: Seq<char>, profile: ProfileView) -> InvocationView {
    InvocationView {
        program: "cargo"@,
        args: seq![
            "build"@,
            "--release"@,
            "--target"@,
            profile.compile_target,
            "--features"@,
            "axstd"@,
            "--manifest-path"@,
            manifest,
        ],
    }
}

/// The converter run: strips the executable down to a raw binary beside it.
pub open spec fn convert_of(profile: ProfileView, artifacts: ArtifactsView) -> InvocationView {
    InvocationView {
        program: "rust-objcopy"@,
        args: seq![
            "--binary-architecture="@ + profile.binary_converter_arch,
            artifacts.elf,
            "--strip-all"@,
            "-O"@,
            "binary"@,
            artifacts.bin,
        ],
    }
}

/// The emulator tokens that every architecture shares: memory size, one
/// processor, no graphical output.
pub open spec fn common_machine_args() -> Seq<Seq<char>> {
    seq!["-m"@, "128M"@, "-smp"@, "1"@, "-nographic"@]
}

/// The emulator tokens that attach the disk image: a raw drive with a fixed
/// id, and the virtio block device on the PCI bus that serves it.
pub open spec fn drive_args(disk: Seq<char>) -> Seq<Seq<char>> {
    seq![
        "-drive"@,
        "file="@ + disk + ",format=raw,if=none,id=disk0"@,
        "-device"@,
        "virtio-blk-pci,drive=disk0"@,
    ]
}

/// The emulator run: the shared tokens, the profile's own, the boot image
/// that the profile boots from, then the disk image.
pub open spec fn launch_of(profile: ProfileView, artifacts: ArtifactsView, disk: Seq<char>) -> InvocationView {
    InvocationView {
        program: "qemu-system-"@ + id_name(profile.id),
        args: common_machine_args() + profile.machine_args + seq![
            "-kernel"@,
            boot_image_of(profile.boot_artifact_kind, artifacts),
        ] + drive_args(disk),
    }
}

/// The line that shows an invocation: the program, then each argument after
/// one space.
pub open spec fn shown(invocation: InvocationView) -> Seq<char> {
    spaced(seq![invocation.program] + invocation.args)
}

impl Invocation {
    /// The compiler run for `profile`, on the manifest at `manifest`.
    pub fn compile(manifest: &str, profile: &ArchitectureProfile) -> (r: Invocation)
        ensures
            r@ == compile_of(manifest@, profile@),
    {
        let mut args: Vec<String> = Vec::new();
        push_text(&mut args, "build");
        push_text(&mut args, "--release");
        push_text(&mut args, "--target");
        push_text(&mut args, profile.compile_target.as_str());
        push_text(&mut args, "--features");
        push_text(&mut args, "axstd");
        push_text(&mut args, "--manifest-path");
        push_text(&mut args, manifest);
        assert(texts(args@) =~= compile_of(manifest@, profile@).args);
        Invocation { program: owned("cargo"), args }
    }

    /// The converter run that turns the executable of `artifacts` into its
    /// raw binary.
    pub fn convert(profile: &ArchitectureProfile, artifacts: &BuildArtifacts) -> (r: Invocation)
        ensures
            r@ == convert_of(profile@, artifacts@),
    {
        let arch: String = joined("--binary-architecture=", profile.binary_converter_arch.as_str());
        let mut args: Vec<String> = Vec::new();
        push_text(&mut args, arch.as_str());
        push_text(&mut args, artifacts.elf.as_str());
        push_text(&mut args, "--strip-all");
        push_text(&mut args, "-O");
        push_text(&mut args, "binary");
        push_text(&mut args, artifacts.bin.as_str());
        assert(texts(args@) =~= convert_of(profile@, artifacts@).args);
        Invocation { program: owned("rust-objcopy"), args }
    }

    /// The emulator run for `profile`: it boots the one of `artifacts` that
    /// the profile boots from, and has the disk image at `disk` attached.
    pub fn launch(profile: &ArchitectureProfile, artifacts: &BuildArtifacts, disk: &str) -> (r: Invocation)
        ensures
            r@ == launch_of(profile@, artifacts@, disk@),
    {
        let program: String = joined("qemu-system-", profile.id.name());

        let mut args: Vec<String> = Vec::new();
        push_text(&mut args, "-m");
        push_text(&mut args, "128M");
        push_text(&mut args, "-smp");
        push_text(&mut args, "1");
        push_text(&mut args, "-nographic");
        assert(texts(args@) =~= common_machine_args());

        push_texts(&mut args, &profile.machine_args);

        push_text(&mut args, "-kernel");
        push_text(&mut args, artifacts.boot_image(profile.boot_artifact_kind));
        assert(texts(args@) =~= common_machine_args() + profile@.machine_args + seq![
            "-kernel"@,
            boot_image_of(profile@.boot_artifact_kind, artifacts@),
        ]);

        let mut drive: String = joined("file=", disk);
        drive.append(",format=raw,if=none,id=disk0");
        push_text(&mut args, "-drive");
        push_text(&mut args, drive.as_str());
        push_text(&mut args, "-device");
        push_text(&mut args, "virtio-blk-pci,drive=disk0");
        assert(texts(args@) =~= launch_of(profile@, artifacts@, disk@).args);

        Invocation { program, args }
    }

    /// The line that shows this invocation to the user.
    pub fn show(&self) -> (r: String)
        ensures
            r@ == shown(self@),
    {
        let mut words: Vec<String> = Vec::new();
        push_text(&mut words, self.program.as_str());
        push_texts(&mut words, &self.args);
        assert(texts(words@) =~= seq![self@.program] + self@.args);
        join_spaced(&words)
    }
}

/// In every emulator run the boot image stands right after `-kernel`, behind
/// the shared tokens and the profile's own; it is the executable exactly
/// where the profile boots from the executable, and the raw binary
/// otherwise.
pub proof fn launch_boots_the_boot_image(profile: ProfileView, artifacts: ArtifactsView, disk: Seq<char>)
    ensures
        ({
            let args = launch_of(profile, artifacts, disk).args;
            let at: int = 5 + profile.machine_args.len() as int;
            &&& args.len() == at + 6
            &&& args[at] == "-kernel"@
            &&& profile.boot_artifact_kind == BootArtifactKind::ElfExecutable ==> args[at + 1] == artifacts.elf
            &&& profile.boot_artifact_kind == BootArtifactKind::RawBinary ==> args[at + 1] == artifacts.bin
        }),
{
}

/// The emulator of x86_64 is handed the executable, and that of every other
/// architecture the raw binary, whatever the paths are.
pub proof fn only_x86_64_boots_the_executable(id: ArchId, artifacts: ArtifactsView, disk: Seq<char>)
    ensures
        ({
            let profile = profile_of(id);
            let args = launch_of(profile, artifacts, disk).args;
            let at: int = 5 + profile.machine_args.len() as int;
            &&& id == ArchId::X86_64 ==> args[at + 1] == artifacts.elf
            &&& id != ArchId::X86_64 ==> args[at + 1] == artifacts.bin
        }),
{
    launch_boots_the_boot_image(profile_of(id), artifacts, disk);
}

/// In every emulator run the disk image is attached by the last four
/// tokens.
pub proof fn launch_attaches_the_disk(profile: ProfileView, artifacts: ArtifactsView, disk: Seq<char>)
    ensures
        ({
            let args = launch_of(profile, artifacts, disk).args;
            args.subrange(args.len() - 4, args.len() as int) == drive_args(disk)
        }),
{
    let args = launch_of(profile, artifacts, disk).args;
    assert(args.subrange(args.len() - 4, args.len() as int) =~= drive_args(disk));
}

} // verus!
