//! The architecture registry: one profile of build and run parameters for
//! each supported CPU architecture, found by its name.

use vstd::prelude::*;
use crate::text::{joined, owned, same_text, texts};

verus! {

/// A supported target architecture.
#[derive(Clone, Copy, Debug, PartialEq, Eq, Structural)]
pub enum ArchId {
    Riscv64,
    Aarch64,
    X86_64,
    Loongarch64,
}

/// Which build output the emulator boots from.
#[derive(Clone, Copy, Debug, PartialEq, Eq, Structural)]
pub enum BootArtifactKind {
    /// The executable stripped down to a loadable memory image.
    RawBinary,
    /// The linked executable as the compiler left it.
    ElfExecutable,
}

/// What a profile holds, as plain sequences.
pub struct ProfileView {
    pub id: ArchId,
    pub compile_target: Seq<char>,
    pub machine_platform: Seq<char>,
    pub binary_converter_arch: Seq<char>,
    pub boot_artifact_kind: BootArtifactKind,
    pub machine_args: Seq<Seq<char>>,
}

/// The build and run parameters of one architecture.
#[derive(Clone, Debug)]
pub struct ArchitectureProfile {
    pub id: ArchId,
    /// Target triple handed to the compiler.
    pub compile_target: String,
    /// Board name; picks the configuration file.
    pub machine_platform: String,
    /// Architecture name handed to the binary converter.
    pub binary_converter_arch: String,
    pub boot_artifact_kind: BootArtifactKind,
    /// Emulator tokens for CPU, machine and firmware, in order.
    pub machine_args: Vec<String>,
}

impl View for ArchitectureProfile {
    type V = ProfileView;

    open spec fn view(&self) -> ProfileView {
        ProfileView {
            id: self.id,
            compile_target: self.compile_target@,
            machine_platform: self.machine_platform@,
            binary_converter_arch: self.binary_converter_arch@,
            boot_artifact_kind: self.boot_artifact_kind,
            machine_args: texts(self.machine_args@),
        }
    }
}

/// The name by which an architecture is asked for.
pub open spec fn id_name(id: ArchId) -> Seq<char> {
    match id {
        ArchId::Riscv64 => "riscv64"@,
        ArchId::Aarch64 => "aarch64"@,
        ArchId::X86_64 => "x86_64"@,
        ArchId::Loongarch64 => "loongarch64"@,
    }
}

/// The architecture that a name stands for, if any.
pub open spec fn parse_id(name: Seq<char>) -> Option<ArchId> {
    if name == "riscv64"@ {
        Some(ArchId::Riscv64)
    } else if name == "aarch64"@ {
        Some(ArchId::Aarch64)
    } else if name == "x86_64"@ {
        Some(ArchId::X86_64)
    } else if name == "loongarch64"@ {
        Some(ArchId::Loongarch64)
    } else {
        None
    }
}

/// The emulator tokens of an architecture.
pub open spec fn machine_args_of(id: ArchId) -> Seq<Seq<char>> {
    match id {
        ArchId::Riscv64 => seq!["-machine"@, "virt"@, "-bios"@, "default"@],
        ArchId::Aarch64 => seq!["-cpu"@, "cortex-a72"@, "-machine"@, "virt"@],
        ArchId::X86_64 => seq!["-machine"@, "q35"@],
        ArchId::Loongarch64 => seq!["-machine"@, "virt"@],
    }
}

/// The registry's table: the one profile of each architecture.
pub open spec fn profile_of(id: ArchId) -> ProfileView {
    match id {
        ArchId::Riscv64 => ProfileView {
            id,
            compile_target: "riscv64gc-unknown-none-elf"@,
            machine_platform: "riscv64-qemu-virt"@,
            binary_converter_arch: "riscv64"@,
            boot_artifact_kind: BootArtifactKind::RawBinary,
            machine_args: machine_args_of(id),
        },
        ArchId::Aarch64 => ProfileView {
            id,
            compile_target: "aarch64-unknown-none-softfloat"@,
            machine_platform: "aarch64-qemu-virt"@,
            binary_converter_arch: "aarch64"@,
            boot_artifact_kind: BootArtifactKind::RawBinary,
            machine_args: machine_args_of(id),
        },
        ArchId::X86_64 => ProfileView {
            id,
            compile_target: "x86_64-unknown-none"@,
            machine_platform: "x86-pc"@,
            binary_converter_arch: "x86_64"@,
            boot_artifact_kind: BootArtifactKind::ElfExecutable,
            machine_args: machine_args_of(id),
        },
        ArchId::Loongarch64 => ProfileView {
            id,
            compile_target: "loongarch64-unknown-none"@,
            machine_platform: "loongarch64-qemu-virt"@,
            binary_converter_arch: "loongarch64"@,
            boot_artifact_kind: BootArtifactKind::RawBinary,
            machine_args: machine_args_of(id),
        },
    }
}

impl ArchId {
    /// The name by which this architecture is asked for.
    pub fn name(self) -> (r: &'static str)
        ensures
            r@ == id_name(self),
    {
        match self {
            ArchId::Riscv64 => "riscv64",
            ArchId::Aarch64 => "aarch64",
            ArchId::X86_64 => "x86_64",
            ArchId::Loongarch64 => "loongarch64",
        }
    }

    /// The architecture that `name` stands for; `None` for any other text.
    pub fn parse(name: &str) -> (r: Option<ArchId>)
        ensures
            r == parse_id(name@),
    {
        if same_text(name, "riscv64") {
            Some(ArchId::Riscv64)
        } else if same_text(name, "aarch64") {
            Some(ArchId::Aarch64)
        } else if same_text(name, "x86_64") {
            Some(ArchId::X86_64)
        } else if same_text(name, "loongarch64") {
            Some(ArchId::Loongarch64)
        } else {
            None
        }
    }
}

/// A lookup that found no architecture.
#[derive(Clone, Debug)]
pub enum RegistryError {
    /// The name asked for is not one of the supported architectures.
    UnsupportedArchitecture { requested: String },
}

/// The supported architectures, in the order in which they are listed.
pub open spec fn supported_ids() -> Seq<ArchId> {
    seq![ArchId::Riscv64, ArchId::Aarch64, ArchId::X86_64, ArchId::Loongarch64]
}

/// What is said of a name that no architecture has.
pub open spec fn unsupported_message(requested: Seq<char>) -> Seq<char> {
    "Error: unsupported architecture '"@ + requested
        + "'. Supported: riscv64, aarch64, x86_64, loongarch64"@
}

impl RegistryError {
    /// The name that was asked for.
    pub open spec fn requested(self) -> Seq<char> {
        match self {
            RegistryError::UnsupportedArchitecture { requested } => requested@,
        }
    }

    /// The message for the user; it lists every supported architecture.
    pub fn message(&self) -> (r: String)
        ensures
            r@ == unsupported_message(self.requested()),
    {
        match self {
            RegistryError::UnsupportedArchitecture { requested } => {
                let mut out: String = joined("Error: unsupported architecture '", requested.as_str());
                out.append("'. Supported: riscv64, aarch64, x86_64, loongarch64");
                out
            },
        }
    }
}

/// The supported architectures, in the order in which they are listed.
pub fn supported() -> (r: Vec<ArchId>)
    ensures
        r@ == supported_ids(),
{
    let r: Vec<ArchId> = vec![ArchId::Riscv64, ArchId::Aarch64, ArchId::X86_64, ArchId::Loongarch64];
    assert(r@ =~= supported_ids());
    r
}

/// The emulator tokens of `id`, in order.
fn machine_args(id: ArchId) -> (r: Vec<String>)
    ensures
        texts(r@) == machine_args_of(id),
{
    let mut r: Vec<String> = Vec::new();
    match id {
        ArchId::Riscv64 => {
            r.push(owned("-machine"));
            r.push(owned("virt"));
            r.push(owned("-bios"));
            r.push(owned("default"));
        },
        ArchId::Aarch64 => {
            r.push(owned("-cpu"));
            r.push(owned("cortex-a72"));
            r.push(owned("-machine"));
            r.push(owned("virt"));
        },
        ArchId::X86_64 => {
            r.push(owned("-machine"));
            r.push(owned("q35"));
        },
        ArchId::Loongarch64 => {
            r.push(owned("-machine"));
            r.push(owned("virt"));
        },
    }
    assert(texts(r@) =~= machine_args_of(id));
    r
}

/// The profile of `id`, as the registry's table gives it.
pub fn profile(id: ArchId) -> (r: ArchitectureProfile)
    ensures
        r@ == profile_of(id),
{
    let machine_args = machine_args(id);
    match id {
        ArchId::Riscv64 => ArchitectureProfile {
            id,
            compile_target: owned("riscv64gc-unknown-none-elf"),
            machine_platform: owned("riscv64-qemu-virt"),
            binary_converter_arch: owned("riscv64"),
            boot_artifact_kind: BootArtifactKind::RawBinary,
            machine_args,
        },
        ArchId::Aarch64 => ArchitectureProfile {
            id,
            compile_target: owned("aarch64-unknown-none-softfloat"),
            machine_platform: owned("aarch64-qemu-virt"),
            binary_converter_arch: owned("aarch64"),
            boot_artifact_kind: BootArtifactKind::RawBinary,
            machine_args,
        },
        ArchId::X86_64 => ArchitectureProfile {
            id,
            compile_target: owned("x86_64-unknown-none"),
            machine_platform: owned("x86-pc"),
            binary_converter_arch: owned("x86_64"),
            boot_artifact_kind: BootArtifactKind::ElfExecutable,
            machine_args,
        },
        ArchId::Loongarch64 => ArchitectureProfile {
            id,
            compile_target: owned("loongarch64-unknown-none"),
            machine_platform: owned("loongarch64-qemu-virt"),
            binary_converter_arch: owned("loongarch64"),
            boot_artifact_kind: BootArtifactKind::RawBinary,
            machine_args,
        },
    }
}

/// The profile of the architecture called `id`.
///
/// Every supported name gives its one profile; any other text is an error
/// that carries the text, never a default profile.
pub fn resolve(id: &str) -> (r: Result<ArchitectureProfile, RegistryError>)
    ensures
        match r {
            Ok(p) => parse_id(id@) == Some(p.id) && p@ == profile_of(p.id),
            Err(e) => parse_id(id@) is None && e.requested() == id@,
        },
{
    match ArchId::parse(id) {
        Some(arch) => Ok(profile(arch)),
        None => Err(RegistryError::UnsupportedArchitecture { requested: owned(id) }),
    }
}

/// No two architectures share a name.
pub proof fn names_are_distinct(a: ArchId, b: ArchId)
    requires
        a != b,
    ensures
        id_name(a) != id_name(b),
{
    reveal_strlit("riscv64");
    reveal_strlit("aarch64");
    reveal_strlit("x86_64");
    reveal_strlit("loongarch64");
    assert("riscv64"@[0] == 'r');
    assert("aarch64"@[0] == 'a');
    assert("x86_64"@[0] == 'x');
    assert("loongarch64"@[0] == 'l');
}

/// A name stands for an architecture exactly when it is that
/// architecture's own name.
pub proof fn parse_inverts_name(name: Seq<char>, id: ArchId)
    ensures
        parse_id(name) == Some(id) <==> name == id_name(id),
{
    names_are_distinct(ArchId::Riscv64, ArchId::Aarch64);
    names_are_distinct(ArchId::Riscv64, ArchId::X86_64);
    names_are_distinct(ArchId::Riscv64, ArchId::Loongarch64);
    names_are_distinct(ArchId::Aarch64, ArchId::X86_64);
    names_are_distinct(ArchId::Aarch64, ArchId::Loongarch64);
    names_are_distinct(ArchId::X86_64, ArchId::Loongarch64);
}

/// Every architecture's profile is complete: it carries the architecture it
/// was asked for, a compile target, a platform, a converter architecture and
/// at least one emulator token, none of them empty; and only x86_64 boots
/// its executable unconverted.
pub proof fn profiles_are_complete(id: ArchId)
    ensures
        profile_of(id).id == id,
        profile_of(id).compile_target.len() > 0,
        profile_of(id).machine_platform.len() > 0,
        profile_of(id).binary_converter_arch == id_name(id),
        profile_of(id).binary_converter_arch.len() > 0,
        profile_of(id).machine_args.len() > 0,
        forall|i: int| 0 <= i < profile_of(id).machine_args.len() ==> profile_of(id).machine_args[i].len() > 0,
        profile_of(id).boot_artifact_kind == BootArtifactKind::ElfExecutable <==> id == ArchId::X86_64,
{
    reveal_strlit("riscv64");
    reveal_strlit("aarch64");
    reveal_strlit("x86_64");
    reveal_strlit("loongarch64");
    reveal_strlit("riscv64gc-unknown-none-elf");
    reveal_strlit("aarch64-unknown-none-softfloat");
    reveal_strlit("x86_64-unknown-none");
    reveal_strlit("loongarch64-unknown-none");
    reveal_strlit("riscv64-qemu-virt");
    reveal_strlit("aarch64-qemu-virt");
    reveal_strlit("x86-pc");
    reveal_strlit("loongarch64-qemu-virt");
    reveal_strlit("-machine");
    reveal_strlit("virt");
    reveal_strlit("-bios");
    reveal_strlit("default");
    reveal_strlit("-cpu");
    reveal_strlit("cortex-a72");
    reveal_strlit("q35");
}

/// Every architecture is among the supported ones.
pub proof fn every_architecture_is_listed(id: ArchId)
    ensures
        supported_ids().contains(id),
{
    let i: int = match id {
        ArchId::Riscv64 => 0,
        ArchId::Aarch64 => 1,
        ArchId::X86_64 => 2,
        ArchId::Loongarch64 => 3,
    };
    assert(supported_ids()[i] == id);
}

/// A lookup succeeds exactly on the names of the supported architectures:
/// any text that is not one of those names is refused.
pub proof fn lookup_succeeds_on_listed_names(name: Seq<char>)
    ensures
        parse_id(name) is Some <==> exists|id: ArchId|
            supported_ids().contains(id) && name == #[trigger] id_name(id),
{
    if parse_id(name) is Some {
        let id = parse_id(name).unwrap();
        every_architecture_is_listed(id);
        assert(name == id_name(id));
    }
    if exists|id: ArchId| supported_ids().contains(id) && name == #[trigger] id_name(id) {
        let id = choose|id: ArchId| supported_ids().contains(id) && name == #[trigger] id_name(id);
        parse_inverts_name(name, id);
    }
}

} // verus!
