use xtask::layout::{
    child, config_destination, config_source, disk_path, manifest_path, project_root,
    BuildArtifacts,
};
use xtask::registry::{profile, ArchId, BootArtifactKind};

#[test]
fn a_child_lies_one_separator_below_its_directory() {
    assert_eq!(child("/work", "configs"), "/work/configs");
    assert_eq!(child("work/tree", "a.toml"), "work/tree/a.toml");
}

#[test]
fn a_directory_that_ends_in_the_separator_gets_no_second_one() {
    assert_eq!(child("/", "configs"), "/configs");
    assert_eq!(child("/work/", "configs"), "/work/configs");
}

#[test]
fn an_empty_directory_adds_nothing() {
    assert_eq!(child("", "configs"), "configs");
    assert_eq!(child("", ""), "");
    assert_eq!(child("/work", ""), "/work/");
}

#[test]
fn a_child_agrees_with_the_standard_path_join() {
    for base in ["", "/", "/work", "/work/", "rel", "rel/deep", "/w\u{e9}/\u{4e2d}"] {
        for name in ["configs", "a.toml", ".axconfig.toml", "target"] {
            let expected = std::path::Path::new(base).join(name);
            assert_eq!(child(base, name), expected.to_str().unwrap());
        }
    }
}

#[test]
fn the_project_root_is_the_manifest_directory() {
    assert_eq!(project_root("/home/dev/loadapp"), "/home/dev/loadapp");
    assert_eq!(project_root(""), "");
}

#[test]
fn the_fixed_places_below_the_root() {
    assert_eq!(config_destination("/p"), "/p/.axconfig.toml");
    assert_eq!(manifest_path("/p"), "/p/Cargo.toml");
    assert_eq!(disk_path("/p"), "/p/target/disk.img");
}

#[test]
fn each_architecture_has_its_configuration_file() {
    assert_eq!(config_source("/p", ArchId::Riscv64), "/p/configs/riscv64.toml");
    assert_eq!(config_source("/p", ArchId::Aarch64), "/p/configs/aarch64.toml");
    assert_eq!(config_source("/p", ArchId::X86_64), "/p/configs/x86_64.toml");
    assert_eq!(config_source("/p", ArchId::Loongarch64), "/p/configs/loongarch64.toml");
}

#[test]
fn artifacts_lie_under_the_compile_target() {
    let riscv = BuildArtifacts::locate("/p", &profile(ArchId::Riscv64));
    assert_eq!(riscv.elf, "/p/target/riscv64gc-unknown-none-elf/release/arceos-loadapp");
    assert_eq!(riscv.bin, "/p/target/riscv64gc-unknown-none-elf/release/arceos-loadapp.bin");

    let x86 = BuildArtifacts::locate("/p", &profile(ArchId::X86_64));
    assert_eq!(x86.elf, "/p/target/x86_64-unknown-none/release/arceos-loadapp");
    assert_eq!(x86.bin, "/p/target/x86_64-unknown-none/release/arceos-loadapp.bin");
}

#[test]
fn the_boot_image_goes_by_the_kind() {
    let built = BuildArtifacts { elf: "k.elf".to_string(), bin: "k.bin".to_string() };
    assert_eq!(built.boot_image(BootArtifactKind::RawBinary), "k.bin");
    assert_eq!(built.boot_image(BootArtifactKind::ElfExecutable), "k.elf");
    for id in [ArchId::Riscv64, ArchId::Aarch64, ArchId::Loongarch64] {
        assert_eq!(built.boot_image(profile(id).boot_artifact_kind), "k.bin");
    }
    assert_eq!(built.boot_image(profile(ArchId::X86_64).boot_artifact_kind), "k.elf");
}

#[test]
fn the_raw_binary_is_the_sibling_with_the_extension() {
    for id in [ArchId::Riscv64, ArchId::Aarch64, ArchId::X86_64, ArchId::Loongarch64] {
        let artifacts = BuildArtifacts::locate("/some.dir/root", &profile(id));
        let expected = std::path::Path::new(&artifacts.elf).with_extension("bin");
        assert_eq!(artifacts.bin, expected.to_str().unwrap());
    }
}
