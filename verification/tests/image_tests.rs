use std::io::Read;
use xtask::image::{
    format_verdict, payload, same_bytes, synthesize, verdict, DiskImageSpec, SynthesisError,
    SynthesisFailure, SynthesisStep, DISK_SIZE, MIN_FAT32_BYTES, MIN_FAT32_CLUSTERS, PAYLOAD_LEN,
    SECTOR_SIZE,
};
use xtask::volume::FatKind;

const MIB: usize = 1024 * 1024;

fn spec_of(capacity_bytes: usize, directory: &str, file: &str, bytes: Vec<u8>) -> DiskImageSpec {
    DiskImageSpec {
        capacity_bytes,
        directory_name: directory.to_string(),
        file_name: file.to_string(),
        payload_bytes: bytes,
    }
}

fn built(spec: &DiskImageSpec) -> Vec<u8> {
    match synthesize(spec) {
        Ok(image) => image,
        Err(failure) => panic!("{:?}: {}", failure.kind, failure.detail),
    }
}

fn failed(spec: &DiskImageSpec) -> SynthesisFailure {
    match synthesize(spec) {
        Ok(_) => panic!("an image came back"),
        Err(failure) => failure,
    }
}

fn mounted(image: Vec<u8>) -> fatfs::FileSystem<std::io::Cursor<Vec<u8>>> {
    fatfs::FileSystem::new(std::io::Cursor::new(image), fatfs::FsOptions::new()).unwrap()
}

fn names_in(fs: &fatfs::FileSystem<std::io::Cursor<Vec<u8>>>, dir: &str) -> Vec<String> {
    let dir = if dir.is_empty() { fs.root_dir() } else { fs.root_dir().open_dir(dir).unwrap() };
    dir.iter().map(|entry| entry.unwrap().file_name()).collect()
}

fn contents(fs: &fatfs::FileSystem<std::io::Cursor<Vec<u8>>>, path: &str) -> Vec<u8> {
    let mut data = Vec::new();
    fs.root_dir().open_file(path).unwrap().read_to_end(&mut data).unwrap();
    data
}

fn names(items: &[&str]) -> Option<Vec<String>> {
    Some(items.iter().map(|item| item.to_string()).collect())
}

#[test]
fn the_payload_follows_its_rule() {
    let bytes = payload();
    assert_eq!(PAYLOAD_LEN, 64);
    assert_eq!(bytes.len(), 64);
    assert_eq!(bytes[..8], [0x10, 0x21, 0x32, 0x43, 0x54, 0x65, 0x76, 0x87]);
    assert_eq!(bytes[14], 0xfe);
    assert_eq!(bytes[15], 0x0f);
    assert_eq!(bytes[16], 0x20);
    assert_eq!(bytes[63], 0x3f);
    for (i, byte) in bytes.iter().enumerate() {
        assert_eq!(*byte as usize, (i * 0x11 + 0x10) % 256);
        assert_eq!(*byte, (i as u8).wrapping_mul(0x11).wrapping_add(0x10));
    }
}

#[test]
fn the_standard_specification_is_the_one_the_guest_expects() {
    let spec = DiskImageSpec::standard();
    assert_eq!(DISK_SIZE, 64 * MIB);
    assert_eq!(spec.capacity_bytes, 67_108_864);
    assert_eq!(spec.directory_name, "sbin");
    assert_eq!(spec.file_name, "origin.bin");
    assert_eq!(spec.directory_path(), "/sbin");
    assert_eq!(spec.payload_path(), "/sbin/origin.bin");
    assert_eq!(spec.payload_bytes, payload());
}

#[test]
fn paths_are_made_of_the_names() {
    let spec = spec_of(0, "apps", "a.out", Vec::new());
    assert_eq!(spec.directory_path(), "/apps");
    assert_eq!(spec.payload_path(), "/apps/a.out");
    let bare = spec_of(0, "", "", Vec::new());
    assert_eq!(bare.directory_path(), "/");
    assert_eq!(bare.payload_path(), "//");
}

#[test]
fn the_size_bound_is_the_least_cluster_count_in_sectors() {
    assert_eq!(SECTOR_SIZE, 512);
    assert_eq!(MIN_FAT32_CLUSTERS, 65525);
    assert_eq!(MIN_FAT32_BYTES, 33_548_800);
}

#[test]
fn the_standard_image_reads_back_in_an_independent_reader() {
    let image = built(&DiskImageSpec::standard());
    assert_eq!(image.len(), 64 * MIB);
    assert_eq!(image[510..512], [0x55, 0xaa]);

    let fs = mounted(image);
    assert_eq!(fs.fat_type(), fatfs::FatType::Fat32);

    let data = contents(&fs, "/sbin/origin.bin");
    assert_eq!(data.len(), 64);
    for (i, byte) in data.iter().enumerate() {
        assert_eq!(*byte as usize, (i * 0x11 + 0x10) % 256);
    }
    assert_eq!(data[..8], [0x10, 0x21, 0x32, 0x43, 0x54, 0x65, 0x76, 0x87]);
    assert_eq!(contents(&fs, "sbin/origin.bin"), data);
}

#[test]
fn the_standard_image_holds_the_directory_and_the_file_and_nothing_else() {
    let fs = mounted(built(&DiskImageSpec::standard()));
    assert_eq!(names_in(&fs, ""), vec!["sbin"]);
    assert_eq!(names_in(&fs, "/sbin"), vec![".", "..", "origin.bin"]);

    let root: Vec<_> = fs.root_dir().iter().map(|entry| entry.unwrap()).collect();
    assert_eq!(root.len(), 1);
    assert!(root[0].is_dir());

    let sbin: Vec<_> = fs.root_dir().open_dir("sbin").unwrap().iter().map(|entry| entry.unwrap()).collect();
    assert_eq!(sbin.len(), 3);
    assert!(sbin[0].is_dir() && sbin[1].is_dir());
    assert!(sbin[2].is_file());
    assert_eq!(sbin[2].len(), 64);
}

#[test]
fn the_guest_reads_its_first_sixty_four_bytes() {
    let fs = mounted(built(&DiskImageSpec::standard()));
    let mut buf = [0u8; 64];
    let n = fs.root_dir().open_file("/sbin/origin.bin").unwrap().read(&mut buf).unwrap();
    assert_eq!(n, 64);
    assert_eq!(buf.to_vec(), payload());
}

#[test]
fn two_syntheses_show_a_reader_the_same() {
    let spec = DiskImageSpec::standard();
    let first = built(&spec);
    let second = built(&spec);
    assert_eq!(first.len(), second.len());

    let a = mounted(first);
    let b = mounted(second);
    assert_eq!(a.fat_type(), b.fat_type());
    assert_eq!(names_in(&a, ""), names_in(&b, ""));
    assert_eq!(names_in(&a, "sbin"), names_in(&b, "sbin"));
    assert_eq!(contents(&a, "/sbin/origin.bin"), contents(&b, "/sbin/origin.bin"));
    assert_eq!(contents(&a, "/sbin/origin.bin"), payload());
}

#[test]
fn two_syntheses_agree_in_every_byte() {
    let spec = spec_of(40 * MIB, "sbin", "origin.bin", payload());
    let first = built(&spec);
    let second = built(&spec);
    assert!(first == second);
}

#[test]
fn entries_are_stamped_with_a_fixed_date() {
    let fs = mounted(built(&spec_of(40 * MIB, "sbin", "origin.bin", payload())));
    for entry in fs.root_dir().iter() {
        let entry = entry.unwrap();
        assert_eq!(entry.created().date.year, 1980);
        assert_eq!(entry.modified().date.year, 1980);
    }
}

#[test]
fn an_image_too_small_for_fat32_is_a_format_failure() {
    for capacity in [0, 1, 511, 512, 4096, MIB, 16 * MIB, 32 * MIB - 8192, MIN_FAT32_BYTES - 1] {
        assert!(capacity < MIN_FAT32_BYTES);
        let spec = spec_of(capacity, "sbin", "origin.bin", payload());
        let failure = failed(&spec);
        assert_eq!(failure.kind, SynthesisError::FormatFailed, "capacity {}", capacity);
        assert_eq!(failure.step, SynthesisStep::Format, "capacity {}", capacity);
    }
}

#[test]
fn an_image_in_which_only_a_narrower_table_fits_is_a_format_failure() {
    for capacity in [MIN_FAT32_BYTES, MIN_FAT32_BYTES + 512, 32 * MIB, 66_000 * 512] {
        let mut raw = vec![0u8; capacity];
        let options = fatfs::FormatVolumeOptions::new().fat_type(fatfs::FatType::Fat32);
        fatfs::format_volume(std::io::Cursor::new(raw.as_mut_slice()), options).unwrap();
        assert_eq!(mounted(raw).fat_type(), fatfs::FatType::Fat16);

        let spec = spec_of(capacity, "sbin", "origin.bin", payload());
        let failure = failed(&spec);
        assert_eq!(failure.kind, SynthesisError::FormatFailed, "capacity {}", capacity);
        assert_eq!(failure.step, SynthesisStep::Format, "capacity {}", capacity);
    }
}

#[test]
fn whatever_comes_back_is_a_fat32_volume_of_the_size_asked_for() {
    let sectors = [65_525usize, 66_000, 66_500, 66_556, 66_557, 66_558, 67_000, 70_000, 81_920];
    let mut accepted = 0;
    for count in sectors {
        let capacity = count * 512;
        let spec = spec_of(capacity, "sbin", "origin.bin", payload());
        match synthesize(&spec) {
            Ok(image) => {
                accepted += 1;
                assert_eq!(image.len(), capacity);
                let fs = mounted(image);
                assert_eq!(fs.fat_type(), fatfs::FatType::Fat32);
                assert_eq!(contents(&fs, "/sbin/origin.bin"), payload());
            },
            Err(failure) => assert_eq!(failure.kind, SynthesisError::FormatFailed, "{} sectors", count),
        }
    }
    assert!(accepted >= 1);
    assert_eq!(built(&spec_of(40 * MIB, "sbin", "origin.bin", payload())).len(), 40 * MIB);
}

#[test]
fn a_capacity_that_is_no_whole_number_of_sectors_keeps_its_length() {
    let spec = spec_of(40 * MIB + 100, "sbin", "origin.bin", payload());
    let image = built(&spec);
    assert_eq!(image.len(), 40 * MIB + 100);
    assert_eq!(contents(&mounted(image), "/sbin/origin.bin"), payload());
}

#[test]
fn a_name_that_the_volume_cannot_hold_is_a_write_failure() {
    for directory in ["s*bin", "s?bin", "s|bin", "s\"bin", "s<bin", "", "a\\b", "\u{1f600}"] {
        let failure = failed(&spec_of(40 * MIB, directory, "origin.bin", payload()));
        assert_eq!(failure.kind, SynthesisError::FileSystemWriteFailed, "{:?}", directory);
        assert_eq!(failure.step, SynthesisStep::CreateDirectory, "{:?}", directory);
    }
    for file in ["o*rigin.bin", "", "x:y"] {
        let failure = failed(&spec_of(40 * MIB, "sbin", file, payload()));
        assert_eq!(failure.kind, SynthesisError::FileSystemWriteFailed, "{:?}", file);
        assert_eq!(failure.step, SynthesisStep::CreateFile, "{:?}", file);
    }
    let long = "n".repeat(256);
    assert_eq!(failed(&spec_of(40 * MIB, &long, "f", payload())).step, SynthesisStep::CreateDirectory);
    assert_eq!(failed(&spec_of(40 * MIB, "d", &long, payload())).step, SynthesisStep::CreateFile);
}

#[test]
fn a_name_that_holds_the_separator_is_refused_before_anything_is_written() {
    for directory in ["/", "a/b", "/sbin", "sbin/", "./sbin", "a//b"] {
        let failure = failed(&spec_of(40 * MIB, directory, "origin.bin", payload()));
        assert_eq!(failure.kind, SynthesisError::FileSystemWriteFailed, "{:?}", directory);
        assert_eq!(failure.step, SynthesisStep::CreateDirectory, "{:?}", directory);
        assert_eq!(failure.detail, "the name of the directory holds a separator");
    }
    for file in ["/", "a/b", "/origin.bin", "origin.bin/", "./origin.bin", "../origin.bin"] {
        let failure = failed(&spec_of(40 * MIB, "sbin", file, payload()));
        assert_eq!(failure.kind, SynthesisError::FileSystemWriteFailed, "{:?}", file);
        assert_eq!(failure.step, SynthesisStep::CreateFile, "{:?}", file);
        assert_eq!(failure.detail, "the name of the file holds a separator");
    }
    let both = failed(&spec_of(40 * MIB, "a/b", "c/d", payload()));
    assert_eq!(both.step, SynthesisStep::CreateDirectory);

    let deep = "./".repeat(100_000) + "origin.bin";
    let failure = failed(&spec_of(40 * MIB, "sbin", &deep, payload()));
    assert_eq!(failure.kind, SynthesisError::FileSystemWriteFailed);
    assert_eq!(failure.step, SynthesisStep::CreateFile);
}

#[test]
fn a_small_image_is_refused_as_such_whatever_the_names() {
    let failure = failed(&spec_of(MIB, "a/b", "c/d", payload()));
    assert_eq!(failure.kind, SynthesisError::FormatFailed);
    assert_eq!(failure.step, SynthesisStep::Format);
    let narrow = failed(&spec_of(32 * MIB, "a/b", "c/d", payload()));
    assert_eq!(narrow.kind, SynthesisError::FormatFailed);
    assert_eq!(narrow.step, SynthesisStep::Format);
}

#[test]
fn any_name_gives_an_exact_tree_or_a_write_failure() {
    let candidates = [
        "sbin", "SBIN", "Sbin", "s bin", " sbin", "sbin ", "sbin.", ".sbin", ".", "..", "...",
        "a.b.c", "UPPER.TXT", "lower.txt", "Mixed.Case", "12345678.123", "123456789.1234",
        "with,comma", "caf\u{e9}", "\u{4e2d}\u{6587}", "~1", "A~1", "$%'-_@~`!(){}^#&", "+,;=[]",
    ];
    let longest = "x".repeat(255);
    let mut made = 0;
    for name in candidates.iter().copied().chain([longest.as_str()]) {
        for spec in [
            spec_of(40 * MIB, name, "origin.bin", payload()),
            spec_of(40 * MIB, "sbin", name, payload()),
            spec_of(40 * MIB, name, name, payload()),
        ] {
            match synthesize(&spec) {
                Ok(image) => {
                    made += 1;
                    let fs = mounted(image);
                    assert_eq!(names_in(&fs, ""), vec![spec.directory_name.clone()]);
                    assert_eq!(
                        names_in(&fs, &spec.directory_path()),
                        vec![".".to_string(), "..".to_string(), spec.file_name.clone()]
                    );
                    assert_eq!(contents(&fs, &spec.payload_path()), payload());
                },
                Err(failure) => {
                    assert_eq!(failure.kind, SynthesisError::FileSystemWriteFailed, "{:?}", name)
                },
            }
        }
    }
    assert!(made >= 10);
}

#[test]
fn other_names_and_payloads_read_back_too() {
    let long: Vec<u8> = (0..5000usize).map(|i| (i % 251) as u8).collect();
    let spec = spec_of(40 * MIB, "apps", "A Long File Name.payload", long.clone());
    let fs = mounted(built(&spec));
    assert_eq!(names_in(&fs, ""), vec!["apps"]);
    assert_eq!(names_in(&fs, "apps"), vec![".", "..", "A Long File Name.payload"]);
    assert_eq!(contents(&fs, "apps/A Long File Name.payload"), long);

    let empty = spec_of(40 * MIB, "sbin", "origin.bin", Vec::new());
    let fs = mounted(built(&empty));
    assert_eq!(contents(&fs, "/sbin/origin.bin"), Vec::<u8>::new());
}

#[test]
fn a_payload_that_does_not_fit_is_a_write_failure() {
    let spec = spec_of(34 * MIB, "sbin", "origin.bin", vec![0xa5u8; 35 * MIB]);
    let failure = failed(&spec);
    assert_eq!(failure.kind, SynthesisError::FileSystemWriteFailed);
    assert_eq!(failure.step, SynthesisStep::CreateFile);
}

#[test]
fn only_a_fat32_volume_passes_as_formatted() {
    assert_eq!(format_verdict(Some(FatKind::Fat32)), Ok(()));
    assert_eq!(format_verdict(Some(FatKind::Fat16)), Err(SynthesisError::FormatFailed));
    assert_eq!(format_verdict(Some(FatKind::Fat12)), Err(SynthesisError::FormatFailed));
    assert_eq!(format_verdict(None), Err(SynthesisError::FormatFailed));
}

#[test]
fn the_verdict_on_a_readers_findings() {
    let spec = DiskImageSpec::standard();
    let root = names(&["sbin"]);
    let dir = names(&[".", "..", "origin.bin"]);
    let file = Some(payload());
    let fat32 = Some(FatKind::Fat32);
    assert_eq!(verdict(fat32, &root, &dir, &file, &spec), Ok(()));

    let format_failed = Err(SynthesisError::FormatFailed);
    assert_eq!(verdict(None, &root, &dir, &file, &spec), format_failed);
    assert_eq!(verdict(Some(FatKind::Fat12), &root, &dir, &file, &spec), format_failed);
    assert_eq!(verdict(Some(FatKind::Fat16), &root, &dir, &file, &spec), format_failed);
    assert_eq!(verdict(Some(FatKind::Fat16), &None, &None, &None, &spec), format_failed);

    let write_failed = Err(SynthesisError::FileSystemWriteFailed);
    assert_eq!(verdict(fat32, &None, &dir, &file, &spec), write_failed);
    assert_eq!(verdict(fat32, &root, &None, &file, &spec), write_failed);
    assert_eq!(verdict(fat32, &root, &dir, &None, &spec), write_failed);
    assert_eq!(verdict(fat32, &root, &dir, &Some(Vec::new()), &spec), write_failed);
    let mut longer = payload();
    longer.push(0);
    assert_eq!(verdict(fat32, &root, &dir, &Some(longer), &spec), write_failed);
    let mut flipped = payload();
    flipped[63] ^= 1;
    assert_eq!(verdict(fat32, &root, &dir, &Some(flipped), &spec), write_failed);
}

#[test]
fn the_verdict_refuses_a_tree_that_holds_more_or_less() {
    let spec = DiskImageSpec::standard();
    let root = names(&["sbin"]);
    let dir = names(&[".", "..", "origin.bin"]);
    let file = Some(payload());
    let fat32 = Some(FatKind::Fat32);
    let write_failed = Err(SynthesisError::FileSystemWriteFailed);

    for other in [
        names(&[]),
        names(&["sbin", "bin"]),
        names(&["bin", "sbin"]),
        names(&["sbin", "sbin"]),
        names(&["SBIN"]),
        names(&["sbin "]),
        names(&["origin.bin"]),
    ] {
        assert_eq!(verdict(fat32, &other, &dir, &file, &spec), write_failed, "{:?}", other);
    }
    for other in [
        names(&[]),
        names(&[".", ".."]),
        names(&["origin.bin"]),
        names(&[".", "..", "origin.bin", "other.bin"]),
        names(&[".", "..", "other.bin", "origin.bin"]),
        names(&["..", ".", "origin.bin"]),
        names(&[".", "..", "ORIGIN.BIN"]),
        names(&[".", "..", "origin"]),
    ] {
        assert_eq!(verdict(fat32, &root, &other, &file, &spec), write_failed, "{:?}", other);
    }

    let empty_names = spec_of(0, "", "", Vec::new());
    assert_eq!(verdict(fat32, &names(&[""]), &names(&[".", "..", ""]), &Some(Vec::new()), &empty_names), Ok(()));
}

#[test]
fn bytes_compare_by_length_and_content() {
    assert!(same_bytes(&Vec::new(), &Vec::new()));
    assert!(same_bytes(&vec![1, 2, 3], &vec![1, 2, 3]));
    assert!(!same_bytes(&vec![1, 2, 3], &vec![1, 2]));
    assert!(!same_bytes(&vec![1, 2, 3], &vec![1, 2, 4]));
    assert!(!same_bytes(&vec![0, 2, 3], &vec![1, 2, 3]));
    assert!(!same_bytes(&Vec::new(), &vec![0]));
}

#[test]
fn a_failure_says_what_went_wrong() {
    let small = match synthesize(&spec_of(MIB, "sbin", "origin.bin", payload())) {
        Ok(_) => panic!("an image came back"),
        Err(failure) => failure,
    };
    assert_eq!(small.kind, SynthesisError::FormatFailed);
    assert_eq!(small.detail, "the image is too small for a FAT32 volume");

    let narrow = match synthesize(&spec_of(32 * MIB, "sbin", "origin.bin", payload())) {
        Ok(_) => panic!("an image came back"),
        Err(failure) => failure,
    };
    assert_eq!(narrow.kind, SynthesisError::FormatFailed);
    assert_eq!(narrow.detail, "the image is too small for a FAT32 volume");

    let stray = match synthesize(&spec_of(40 * MIB, "s*bin", "origin.bin", payload())) {
        Ok(_) => panic!("an image came back"),
        Err(failure) => failure,
    };
    assert_eq!(stray.kind, SynthesisError::FileSystemWriteFailed);
    assert!(!stray.detail.is_empty());
}
