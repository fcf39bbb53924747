//! The disk image synthesizer: a FAT32 volume of a fixed size that holds one
//! directory and, inside it, one file with a known payload.
//!
//! The volume is written by an outside crate, step by step: format, create
//! the directory, write the file. What each step leaves depends on what it
//! was given alone, so the result of a synthesis is stated exactly, over the
//! names of those outcomes. Nothing is taken on trust of what they hold:
//! once the image is populated it is mounted again and read back, and it is
//! handed out only if the reader finds a FAT32 volume that holds the
//! directory and nothing else, and in the directory the file and nothing
//! else, byte for byte.

use vstd::prelude::*;
use crate::text::{holds_char, joined, owned, push_text, same_texts, texts};
use crate::volume::{
    create_dir, dir_names, dir_outcome, error_text, file_outcome, format_outcome, format_volume,
    intact, list_dir, list_root, read_file, read_kind, root_names, stored_file, volume_kind,
    write_file, FatKind,
};

verus! {

/// The size of the disk image: 64 MiB.
pub const DISK_SIZE: usize = 0x400_0000;

/// The length of the payload.
pub const PAYLOAD_LEN: usize = 64;

/// The smallest sector that a FAT volume can have, in bytes.
pub const SECTOR_SIZE: usize = 512;

/// The least number of clusters that makes a volume a FAT32 one.
pub const MIN_FAT32_CLUSTERS: usize = 65525;

/// No image below this size can hold a FAT32 volume: a cluster is at least
/// one sector, and the volume needs room beside its clusters.
pub const MIN_FAT32_BYTES: usize = MIN_FAT32_CLUSTERS * SECTOR_SIZE;

/// The payload byte at offset `i`.
pub open spec fn payload_byte(i: int) -> u8 {
    ((i * 0x11 + 0x10) % 256) as u8
}

/// The first `len` bytes of the payload rule.
pub open spec fn payload_of(len: nat) -> Seq<u8> {
    Seq::new(len, |i: int| payload_byte(i))
}

/// Multiplying and adding with wrap-around on a byte gives the payload
/// rule.
proof fn wrapping_matches_rule(i: u8)
    ensures
        i.wrapping_mul(0x11).wrapping_add(0x10) == payload_byte(i as int),
{
    let product: int = i as int * 0x11;
    let low: int = product % 256;
    assert(i.wrapping_mul(0x11) as int == low);
    assert((product + 0x10) % 256 == (if low + 0x10 > 255 {
        low + 0x10 - 256
    } else {
        low + 0x10
    }));
}

/// The payload: 64 bytes, the one at offset `i` being `i * 0x11 + 0x10`
/// modulo 256.
pub fn payload() -> (r: Vec<u8>)
    ensures
        r@ == payload_of(PAYLOAD_LEN as nat),
{
    let mut content: Vec<u8> = Vec::new();
    let mut i: u8 = 0;
    while i < 64
        invariant
            i <= 64,
            content@ == payload_of(i as nat),
        decreases 64 - i,
    {
        let byte: u8 = i.wrapping_mul(0x11).wrapping_add(0x10);
        proof {
            wrapping_matches_rule(i);
        }
        content.push(byte);
        assert(content@ =~= payload_of((i + 1) as nat));
        i = i + 1;
    }
    content
}

/// What a disk image is asked to hold, as plain sequences.
pub struct DiskImageSpecView {
    pub capacity_bytes: nat,
    pub directory_name: Seq<char>,
    pub file_name: Seq<char>,
    pub payload_bytes: Seq<u8>,
}

/// What a disk image is asked to hold: one directory below the root, and
/// one file inside that directory.
#[derive(Clone, Debug)]
pub struct DiskImageSpec {
    /// The size of the image.
    pub capacity_bytes: usize,
    /// The name of the directory below the root.
    pub directory_name: String,
    /// The name of the file inside the directory.
    pub file_name: String,
    /// What the file holds.
    pub payload_bytes: Vec<u8>,
}

impl View for DiskImageSpec {
    type V = DiskImageSpecView;

    open spec fn view(&self) -> DiskImageSpecView {
        DiskImageSpecView {
            capacity_bytes: self.capacity_bytes as nat,
            directory_name: self.directory_name@,
            file_name: self.file_name@,
            payload_bytes: self.payload_bytes@,
        }
    }
}

/// The path of the directory, from the root of the volume.
pub open spec fn directory_path_of(spec: DiskImageSpecView) -> Seq<char> {
    "/"@ + spec.directory_name
}

/// The path of the file, from the root of the volume.
pub open spec fn payload_path_of(spec: DiskImageSpecView) -> Seq<char> {
    "/"@ + spec.directory_name + "/"@ + spec.file_name
}

/// What the root directory is to list: the directory and nothing else.
pub open spec fn root_listing_of(spec: DiskImageSpecView) -> Seq<Seq<char>> {
    seq![spec.directory_name]
}

/// What the directory is to list: its own two entries, which every
/// directory below the root has, then the file and nothing else.
pub open spec fn directory_listing_of(spec: DiskImageSpecView) -> Seq<Seq<char>> {
    seq!["."@, ".."@, spec.file_name]
}

/// The image that the emulated guest expects: 64 MiB, with the payload at
/// `/sbin/origin.bin`.
pub open spec fn standard_spec() -> DiskImageSpecView {
    DiskImageSpecView {
        capacity_bytes: DISK_SIZE as nat,
        directory_name: "sbin"@,
        file_name: "origin.bin"@,
        payload_bytes: payload_of(PAYLOAD_LEN as nat),
    }
}

impl DiskImageSpec {
    /// The image that the emulated guest expects.
    pub fn standard() -> (r: DiskImageSpec)
        ensures
            r@ == standard_spec(),
    {
        DiskImageSpec {
            capacity_bytes: DISK_SIZE,
            directory_name: owned("sbin"),
            file_name: owned("origin.bin"),
            payload_bytes: payload(),
        }
    }

    /// The path of the directory, from the root of the volume.
    pub fn directory_path(&self) -> (r: String)
        ensures
            r@ == directory_path_of(self@),
    {
        joined("/", self.directory_name.as_str())
    }

    /// The path of the file, from the root of the volume.
    pub fn payload_path(&self) -> (r: String)
        ensures
            r@ == payload_path_of(self@),
    {
        let mut path: String = self.directory_path();
        path.append("/");
        path.append(self.file_name.as_str());
        path
    }
}

/// Why no usable image came about.
#[derive(Clone, Copy, Debug, PartialEq, Eq, Structural)]
pub enum SynthesisError {
    /// The image file could not be created or filled.
    ImageCreateFailed,
    /// No FAT32 volume could be made in the image.
    FormatFailed,
    /// The directory or the file could not be put into the volume.
    FileSystemWriteFailed,
}

/// The step at which a synthesis ended.
#[derive(Clone, Copy, Debug, PartialEq, Eq, Structural)]
pub enum SynthesisStep {
    /// Making the volume: the image is too small, formatting refused, or
    /// what it made is no FAT32 volume.
    Format,
    /// Mounting the volume that was made.
    Open,
    /// Creating the directory.
    CreateDirectory,
    /// Creating the file and writing the payload to it.
    CreateFile,
    /// Reading the finished image back.
    ReadBack,
}

/// Where and why a synthesis ended without an image.
#[derive(Clone, Copy, Debug, PartialEq, Eq, Structural)]
pub struct Refusal {
    pub step: SynthesisStep,
    pub kind: SynthesisError,
}

/// A failed synthesis: which step failed and why, and what there is to say
/// of it.
#[derive(Clone, Debug)]
pub struct SynthesisFailure {
    pub step: SynthesisStep,
    pub kind: SynthesisError,
    pub detail: String,
}

impl View for SynthesisFailure {
    type V = Refusal;

    open spec fn view(&self) -> Refusal {
        Refusal { step: self.step, kind: self.kind }
    }
}

/// An image of `capacity` bytes before anything is written to it.
pub open spec fn blank_image(capacity: nat) -> Seq<u8> {
    Seq::new(capacity, |i: int| 0u8)
}

/// The kind of volume that a reader finds once a blank image of `capacity`
/// bytes has been formatted with FAT32 asked for; `None` where formatting
/// refuses or what it leaves does not mount.
pub open spec fn formatted_kind(capacity: nat) -> Option<FatKind> {
    match format_outcome(blank_image(capacity), FatKind::Fat32) {
        Some(formatted) => volume_kind(formatted),
        None => None,
    }
}

/// Whether a reader finds in `image` what `spec` asks for, and no more: a
/// FAT32 volume of the size asked for, whose root lists the directory and
/// nothing else, whose directory lists the file and nothing else, and whose
/// file holds exactly the payload.
pub open spec fn conforms(image: Seq<u8>, spec: DiskImageSpecView) -> bool {
    &&& image.len() == spec.capacity_bytes
    &&& volume_kind(image) == Some(FatKind::Fat32)
    &&& root_names(image) == Some(root_listing_of(spec))
    &&& dir_names(image, directory_path_of(spec)) == Some(directory_listing_of(spec))
    &&& stored_file(image, payload_path_of(spec)) == Some(spec.payload_bytes)
}

/// What is made of the kind of volume that a reader finds: anything but a
/// FAT32 volume was not formatted as asked.
pub open spec fn format_verdict_of(kind: Option<FatKind>) -> Result<(), SynthesisError> {
    if kind == Some(FatKind::Fat32) {
        Ok(())
    } else {
        Err(SynthesisError::FormatFailed)
    }
}

/// What is made of a reader's findings: a volume that is no FAT32 one was
/// not formatted as asked; one whose root or directory lists anything but
/// what was asked for, or whose file holds anything but the payload, was
/// not written as asked.
pub open spec fn verdict_of(
    kind: Option<FatKind>,
    root: Option<Seq<Seq<char>>>,
    directory: Option<Seq<Seq<char>>>,
    file: Option<Seq<u8>>,
    spec: DiskImageSpecView,
) -> Result<(), SynthesisError> {
    if format_verdict_of(kind) is Err {
        Err(SynthesisError::FormatFailed)
    } else if root != Some(root_listing_of(spec)) || directory != Some(directory_listing_of(spec))
        || file != Some(spec.payload_bytes) {
        Err(SynthesisError::FileSystemWriteFailed)
    } else {
        Ok(())
    }
}

/// A refusal at `step`, for the reason `kind`.
pub open spec fn refused(step: SynthesisStep, kind: SynthesisError) -> Result<Seq<u8>, Refusal> {
    Err(Refusal { step, kind })
}

/// What is made of the finished image: it is handed out where the verdict
/// on what a reader finds in it is favourable.
pub open spec fn read_back_of(written: Seq<u8>, spec: DiskImageSpecView) -> Result<Seq<u8>, Refusal> {
    match verdict_of(
        volume_kind(written),
        root_names(written),
        dir_names(written, directory_path_of(spec)),
        stored_file(written, payload_path_of(spec)),
        spec,
    ) {
        Ok(()) => Ok(written),
        Err(kind) => refused(SynthesisStep::ReadBack, kind),
    }
}

/// What becomes of a formatted FAT32 volume: a name that holds the
/// separator is refused, since the image has one directory below the root
/// and one file inside it; then the directory is created, then the file is
/// written, then the image is read back.
pub open spec fn population_of(formatted: Seq<u8>, spec: DiskImageSpecView) -> Result<Seq<u8>, Refusal> {
    if spec.directory_name.contains('/') {
        refused(SynthesisStep::CreateDirectory, SynthesisError::FileSystemWriteFailed)
    } else if spec.file_name.contains('/') {
        refused(SynthesisStep::CreateFile, SynthesisError::FileSystemWriteFailed)
    } else {
        match dir_outcome(formatted, directory_path_of(spec)) {
            None => refused(SynthesisStep::CreateDirectory, SynthesisError::FileSystemWriteFailed),
            Some(with_directory) => match file_outcome(
                with_directory,
                payload_path_of(spec),
                spec.payload_bytes,
            ) {
                None => refused(SynthesisStep::CreateFile, SynthesisError::FileSystemWriteFailed),
                Some(written) => read_back_of(written, spec),
            },
        }
    }
}

/// The result of a synthesis, step by step: an image too small for FAT32 is
/// not formatted at all; a blank image of the size asked for is formatted,
/// and what that leaves must mount and be a FAT32 volume; then the volume
/// is populated and read back.
pub open spec fn synthesis_of(spec: DiskImageSpecView) -> Result<Seq<u8>, Refusal> {
    if spec.capacity_bytes < MIN_FAT32_BYTES {
        refused(SynthesisStep::Format, SynthesisError::FormatFailed)
    } else {
        match format_outcome(blank_image(spec.capacity_bytes), FatKind::Fat32) {
            None => refused(SynthesisStep::Format, SynthesisError::FormatFailed),
            Some(formatted) => match volume_kind(formatted) {
                None => refused(SynthesisStep::Open, SynthesisError::FormatFailed),
                Some(FatKind::Fat32) => population_of(formatted, spec),
                Some(_) => refused(SynthesisStep::Format, SynthesisError::FormatFailed),
            },
        }
    }
}

/// The names that a listing holds, if there is one.
pub open spec fn listing_of(found: Option<Vec<String>>) -> Option<Seq<Seq<char>>> {
    match found {
        Some(names) => Some(texts(names@)),
        None => None,
    }
}

/// The bytes that a file holds, if there is one.
pub open spec fn contents_of(found: Option<Vec<u8>>) -> Option<Seq<u8>> {
    match found {
        Some(data) => Some(data@),
        None => None,
    }
}

/// Whether two byte vectors hold the same bytes.
pub fn same_bytes(a: &Vec<u8>, b: &Vec<u8>) -> (r: bool)
    ensures
        r == (a@ == b@),
{
    if a.len() != b.len() {
        return false;
    }
    let mut i: usize = 0;
    while i < a.len()
        invariant
            i <= a.len(),
            a.len() == b.len(),
            a@.subrange(0, i as int) == b@.subrange(0, i as int),
        decreases a.len() - i,
    {
        if a[i] != b[i] {
            return false;
        }
        assert(a@.subrange(0, i + 1) =~= a@.subrange(0, i as int).push(a@[i as int]));
        assert(b@.subrange(0, i + 1) =~= b@.subrange(0, i as int).push(b@[i as int]));
        i = i + 1;
    }
    assert(a@ =~= a@.subrange(0, i as int));
    assert(b@ =~= b@.subrange(0, i as int));
    true
}

/// Judges the kind of volume that a reader found: only a FAT32 volume
/// passes.
pub fn format_verdict(kind: Option<FatKind>) -> (r: Result<(), SynthesisError>)
    ensures
        r == format_verdict_of(kind),
{
    match kind {
        Some(FatKind::Fat32) => Ok(()),
        _ => Err(SynthesisError::FormatFailed),
    }
}

/// Whether a listing is there and holds exactly the names of `expected`, in
/// their order.
fn lists_exactly(found: &Option<Vec<String>>, expected: &Vec<String>) -> (r: bool)
    ensures
        r == (listing_of(*found) == Some(texts(expected@))),
{
    match found {
        Some(names) => same_texts(names, expected),
        None => false,
    }
}

/// Judges what a reader found in an image against what `spec` asks for:
/// the kind of the volume, the listing of its root, the listing of the
/// directory, and the contents of the file.
pub fn verdict(
    kind: Option<FatKind>,
    root: &Option<Vec<String>>,
    directory: &Option<Vec<String>>,
    file: &Option<Vec<u8>>,
    spec: &DiskImageSpec,
) -> (r: Result<(), SynthesisError>)
    ensures
        r == verdict_of(kind, listing_of(*root), listing_of(*directory), contents_of(*file), spec@),
{
    if format_verdict(kind).is_err() {
        return Err(SynthesisError::FormatFailed);
    }
    let mut root_wanted: Vec<String> = Vec::new();
    push_text(&mut root_wanted, spec.directory_name.as_str());
    assert(texts(root_wanted@) =~= root_listing_of(spec@));

    let mut directory_wanted: Vec<String> = Vec::new();
    push_text(&mut directory_wanted, ".");
    push_text(&mut directory_wanted, "..");
    push_text(&mut directory_wanted, spec.file_name.as_str());
    assert(texts(directory_wanted@) =~= directory_listing_of(spec@));

    if !lists_exactly(root, &root_wanted) || !lists_exactly(directory, &directory_wanted) {
        return Err(SynthesisError::FileSystemWriteFailed);
    }
    match file {
        Some(data) => {
            if same_bytes(data, &spec.payload_bytes) {
                Ok(())
            } else {
                Err(SynthesisError::FileSystemWriteFailed)
            }
        },
        None => Err(SynthesisError::FileSystemWriteFailed),
    }
}

/// Mounts `image` as a reader would and judges what is found in it against
/// `spec`.
fn inspect(image: &Vec<u8>, spec: &DiskImageSpec) -> (r: Result<(), SynthesisError>)
    requires
        intact(image@),
    ensures
        r == verdict_of(
            volume_kind(image@),
            root_names(image@),
            dir_names(image@, directory_path_of(spec@)),
            stored_file(image@, payload_path_of(spec@)),
            spec@,
        ),
        r is Ok && image@.len() == spec@.capacity_bytes <==> conforms(image@, spec@),
{
    let kind: Option<FatKind> = match read_kind(image) {
        Ok(kind) => Some(kind),
        Err(_) => None,
    };
    let root: Option<Vec<String>> = match list_root(image) {
        Ok(names) => Some(names),
        Err(_) => None,
    };
    let directory_path: String = spec.directory_path();
    let directory: Option<Vec<String>> = match list_dir(image, directory_path.as_str()) {
        Ok(names) => Some(names),
        Err(_) => None,
    };
    let payload_path: String = spec.payload_path();
    let file: Option<Vec<u8>> = match read_file(image, payload_path.as_str()) {
        Ok(data) => Some(data),
        Err(_) => None,
    };
    verdict(kind, &root, &directory, &file, spec)
}

/// A failure at `step` for the reason `kind`, described by `detail`.
fn failure(step: SynthesisStep, kind: SynthesisError, detail: String) -> (r: SynthesisFailure)
    ensures
        r@ == (Refusal { step, kind }),
{
    SynthesisFailure { step, kind, detail }
}

/// Builds the disk image that `spec` asks for.
///
/// The result is the one that the steps give, `synthesis_of`: the image
/// that they leave, where it reads back as asked for, and otherwise the
/// step that refused and the kind of the error. An image that comes back
/// conforms to `spec`.
pub fn synthesize(spec: &DiskImageSpec) -> (r: Result<Vec<u8>, SynthesisFailure>)
    ensures
        match r {
            Ok(image) => synthesis_of(spec@) == Ok::<Seq<u8>, Refusal>(image@),
            Err(f) => synthesis_of(spec@) == Err::<Seq<u8>, Refusal>(f@),
        },
        r matches Ok(image) ==> conforms(image@, spec@),
{
    if spec.capacity_bytes < MIN_FAT32_BYTES {
        return Err(
            failure(
                SynthesisStep::Format,
                SynthesisError::FormatFailed,
                owned("the image is too small for a FAT32 volume"),
            ),
        );
    }
    let mut image: Vec<u8> = vec![0u8; spec.capacity_bytes];
    assert(image@ =~= blank_image(spec@.capacity_bytes));

    match format_volume(&mut image, FatKind::Fat32) {
        Ok(()) => {},
        Err(e) => {
            return Err(failure(SynthesisStep::Format, SynthesisError::FormatFailed, error_text(&e)));
        },
    }
    match read_kind(&image) {
        Ok(kind) => match format_verdict(Some(kind)) {
            Ok(()) => {},
            Err(refusal) => {
                return Err(
                    failure(
                        SynthesisStep::Format,
                        refusal,
                        owned("the image is too small for a FAT32 volume"),
                    ),
                );
            },
        },
        Err(e) => {
            return Err(failure(SynthesisStep::Open, SynthesisError::FormatFailed, error_text(&e)));
        },
    }
    if holds_char(spec.directory_name.as_str(), '/') {
        return Err(
            failure(
                SynthesisStep::CreateDirectory,
                SynthesisError::FileSystemWriteFailed,
                owned("the name of the directory holds a separator"),
            ),
        );
    }
    if holds_char(spec.file_name.as_str(), '/') {
        return Err(
            failure(
                SynthesisStep::CreateFile,
                SynthesisError::FileSystemWriteFailed,
                owned("the name of the file holds a separator"),
            ),
        );
    }
    let directory_path: String = spec.directory_path();
    match create_dir(&mut image, directory_path.as_str()) {
        Ok(()) => {},
        Err(e) => {
            return Err(
                failure(SynthesisStep::CreateDirectory, SynthesisError::FileSystemWriteFailed, error_text(&e)),
            );
        },
    }
    let payload_path: String = spec.payload_path();
    match write_file(&mut image, payload_path.as_str(), &spec.payload_bytes) {
        Ok(()) => {},
        Err(e) => {
            return Err(
                failure(SynthesisStep::CreateFile, SynthesisError::FileSystemWriteFailed, error_text(&e)),
            );
        },
    }
    match inspect(&image, spec) {
        Ok(()) => Ok(image),
        Err(kind) => Err(
            failure(SynthesisStep::ReadBack, kind, owned("the image does not read back as it was written")),
        ),
    }
}

/// A synthesis never ends for want of the image file, which is the
/// caller's to create: every refusal is a format failure or a write
/// failure.
pub proof fn synthesis_refuses_in_two_ways(spec: DiskImageSpecView)
    ensures
        synthesis_of(spec) matches Err(refusal) ==> refusal.kind == SynthesisError::FormatFailed
            || refusal.kind == SynthesisError::FileSystemWriteFailed,
{
}

/// A capacity too small for a FAT32 volume is a format failure: one below
/// the least size of such a volume, and one in which formatting a blank
/// image leaves anything but a FAT32 volume.
pub proof fn small_capacity_is_a_format_failure(spec: DiskImageSpecView)
    requires
        spec.capacity_bytes < MIN_FAT32_BYTES || format_verdict_of(formatted_kind(spec.capacity_bytes))
            is Err,
    ensures
        synthesis_of(spec) matches Err(refusal) && refusal.kind == SynthesisError::FormatFailed,
{
}

/// A name that holds the separator is a write failure on every capacity
/// that can be formatted: the image has one directory below the root and
/// one file inside it.
pub proof fn nested_names_are_refused(spec: DiskImageSpecView)
    requires
        spec.directory_name.contains('/') || spec.file_name.contains('/'),
    ensures
        synthesis_of(spec) is Err,
        format_verdict_of(formatted_kind(spec.capacity_bytes)) is Ok && spec.capacity_bytes
            >= MIN_FAT32_BYTES ==> (synthesis_of(spec) matches Err(refusal) && refusal.kind
            == SynthesisError::FileSystemWriteFailed),
{
}

/// Where a synthesis gives an image, a reader finds in it a FAT32 volume
/// with the listings and the payload asked for.
pub proof fn synthesis_reads_back(spec: DiskImageSpecView)
    requires
        synthesis_of(spec) is Ok,
    ensures
        ({
            let image = synthesis_of(spec).unwrap();
            &&& volume_kind(image) == Some(FatKind::Fat32)
            &&& root_names(image) == Some(root_listing_of(spec))
            &&& dir_names(image, directory_path_of(spec)) == Some(directory_listing_of(spec))
            &&& stored_file(image, payload_path_of(spec)) == Some(spec.payload_bytes)
        }),
{
}

/// Two syntheses of one specification that both give an image give the
/// same image, byte for byte.
pub proof fn synthesis_is_repeatable(spec: DiskImageSpecView, first: Seq<u8>, second: Seq<u8>)
    requires
        synthesis_of(spec) == Ok::<Seq<u8>, Refusal>(first),
        synthesis_of(spec) == Ok::<Seq<u8>, Refusal>(second),
    ensures
        first == second,
{
}

/// Two images that conform to one specification show a reader the same
/// tree: the same kind of volume, the same listing of the root and of the
/// directory, and in the file the same bytes.
pub proof fn conforming_images_read_alike(first: Seq<u8>, second: Seq<u8>, spec: DiskImageSpecView)
    requires
        conforms(first, spec),
        conforms(second, spec),
    ensures
        first.len() == second.len(),
        volume_kind(first) == volume_kind(second),
        root_names(first) == root_names(second),
        dir_names(first, directory_path_of(spec)) == dir_names(second, directory_path_of(spec)),
        stored_file(first, payload_path_of(spec)) == stored_file(second, payload_path_of(spec)),
{
}

/// The standard specification names the paths that the guest opens.
pub proof fn standard_paths()
    ensures
        directory_path_of(standard_spec()) == "/sbin"@,
        payload_path_of(standard_spec()) == "/sbin/origin.bin"@,
{
    reveal_strlit("/");
    reveal_strlit("sbin");
    reveal_strlit("origin.bin");
    reveal_strlit("/sbin");
    reveal_strlit("/sbin/origin.bin");
    assert(directory_path_of(standard_spec()) =~= "/sbin"@);
    assert(payload_path_of(standard_spec()) =~= "/sbin/origin.bin"@);
}

/// A reader of an image that conforms to the standard specification finds
/// a FAT32 volume whose root holds `sbin` and nothing else, whose `/sbin`
/// holds `origin.bin` and nothing else beside its own two entries, and at
/// `/sbin/origin.bin` a file of 64 bytes, the one at offset `i` being
/// `i * 0x11 + 0x10` modulo 256.
pub proof fn standard_image_reads_back(image: Seq<u8>)
    requires
        conforms(image, standard_spec()),
    ensures
        volume_kind(image) == Some(FatKind::Fat32),
        root_names(image) == Some(seq!["sbin"@]),
        dir_names(image, "/sbin"@) == Some(seq!["."@, ".."@, "origin.bin"@]),
        stored_file(image, "/sbin/origin.bin"@) is Some,
        stored_file(image, "/sbin/origin.bin"@).unwrap().len() == 64,
        forall|i: int|
            0 <= i < 64 ==> #[trigger] stored_file(image, "/sbin/origin.bin"@).unwrap()[i] == (i * 0x11
                + 0x10) % 256,
{
    standard_paths();
}

/// The verdict is favourable exactly when the reader found a FAT32 volume
/// with the listings and the payload asked for; anything but a FAT32 volume
/// is a format failure, whatever else was found.
pub proof fn verdict_accepts_only_fat32(
    kind: Option<FatKind>,
    root: Option<Seq<Seq<char>>>,
    directory: Option<Seq<Seq<char>>>,
    file: Option<Seq<u8>>,
    spec: DiskImageSpecView,
)
    ensures
        verdict_of(kind, root, directory, file, spec) is Ok <==> (kind == Some(FatKind::Fat32) && root
            == Some(root_listing_of(spec)) && directory == Some(directory_listing_of(spec)) && file
            == Some(spec.payload_bytes)),
        kind != Some(FatKind::Fat32) ==> verdict_of(kind, root, directory, file, spec) == Err::<
            (),
            SynthesisError,
        >(SynthesisError::FormatFailed),
{
}

} // verus!
