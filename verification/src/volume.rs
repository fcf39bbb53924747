//! The FAT volume inside a disk image, as the `fatfs` crate writes and reads
//! it. A disk image is a plain byte vector; every operation mounts the
//! volume on those bytes, does one thing, and unmounts again.
//!
//! `fatfs` is built without its clock: it stamps what it writes with a fixed
//! date, so that no call here depends on the time of day.
//!
//! Nothing in this file is proved: each function states what is taken on
//! trust of the call it makes. `fatfs` is written for volumes, not for
//! arbitrary bytes, on which it may fail in arithmetic or follow a chain
//! that never ends. So only `format_volume` takes any bytes; every other
//! call asks for bytes that are `intact`, which only `format_volume` and the
//! calls that write make.

use std::io::{Read, Write};
use vstd::prelude::*;
use crate::text::texts;

verus! {

/// The error of an I/O operation of the standard library, carried through
/// unopened.
#[verifier::external_type_specification]
#[verifier::external_body]
pub struct ExIoError(std::io::Error);

/// The width of a volume's file allocation table.
#[derive(Clone, Copy, Debug, PartialEq, Eq, Structural)]
pub enum FatKind {
    Fat12,
    Fat16,
    Fat32,
}

/// The bytes that formatting leaves of `image` when it is asked for `kind`;
/// `None` where it refuses.
pub uninterp spec fn format_outcome(image: Seq<u8>, kind: FatKind) -> Option<Seq<u8>>;

/// The bytes that creating a directory at `path` leaves of `image`; `None`
/// where it refuses.
pub uninterp spec fn dir_outcome(image: Seq<u8>, path: Seq<char>) -> Option<Seq<u8>>;

/// The bytes that creating a file at `path` and writing `data` to it leaves
/// of `image`; `None` where either refuses.
pub uninterp spec fn file_outcome(image: Seq<u8>, path: Seq<char>, data: Seq<u8>) -> Option<Seq<u8>>;

/// Whether these bytes are a volume as `fatfs` itself leaves one: formatted
/// by it, and changed since only by its own writes that succeeded.
pub uninterp spec fn intact(image: Seq<u8>) -> bool;

/// The kind of FAT volume that a reader finds when it mounts these bytes;
/// `None` where they do not mount.
pub uninterp spec fn volume_kind(image: Seq<u8>) -> Option<FatKind>;

/// The names of the entries of the root directory that a reader finds when
/// it mounts these bytes, in the order in which they are stored; `None`
/// where it cannot list them.
pub uninterp spec fn root_names(image: Seq<u8>) -> Option<Seq<Seq<char>>>;

/// The names of the entries of the directory at `path` that a reader finds
/// when it mounts these bytes, in the order in which they are stored; `None`
/// where it can open no directory there, or cannot list it.
pub uninterp spec fn dir_names(image: Seq<u8>, path: Seq<char>) -> Option<Seq<Seq<char>>>;

/// The contents of the file that a reader finds at `path` when it mounts
/// these bytes; `None` where it can open no file there.
pub uninterp spec fn stored_file(image: Seq<u8>, path: Seq<char>) -> Option<Seq<u8>>;

/// Calls `fatfs::format_volume` on the image, with `kind` as the table
/// width to choose cluster sizes for.
///
/// Taken on trust: the image keeps its length, since the call writes into a
/// slice; what the call leaves depends on the bytes and on `kind` alone, so
/// it has a name, `format_outcome`; and what it leaves on success is
/// `intact`. It is not claimed that the volume made has a table of the width
/// asked for: `fatfs` settles for a narrower one on a small image.
#[verifier::external_body]
pub(crate) fn format_volume(image: &mut Vec<u8>, kind: FatKind) -> (r: Result<(), std::io::Error>)
    ensures
        final(image)@.len() == old(image)@.len(),
        match r {
            Ok(()) => format_outcome(old(image)@, kind) == Some(final(image)@) && intact(final(image)@),
            Err(_) => format_outcome(old(image)@, kind) is None,
        },
{
    let fat_type = match kind {
        FatKind::Fat12 => fatfs::FatType::Fat12,
        FatKind::Fat16 => fatfs::FatType::Fat16,
        FatKind::Fat32 => fatfs::FatType::Fat32,
    };
    let options = fatfs::FormatVolumeOptions::new().fat_type(fat_type);
    fatfs::format_volume(std::io::Cursor::new(image.as_mut_slice()), options)
}

/// Calls `fatfs::Dir::create_dir` on the root directory of the volume in the
/// image.
///
/// Taken on trust: the image keeps its length; what the call leaves depends
/// on the bytes and the path alone, so it has a name, `dir_outcome`; and
/// what it leaves on success is `intact` as before. Nothing is claimed of
/// the directory: the caller reads the image back.
#[verifier::external_body]
pub(crate) fn create_dir(image: &mut Vec<u8>, path: &str) -> (r: Result<(), std::io::Error>)
    requires
        intact(old(image)@),
    ensures
        final(image)@.len() == old(image)@.len(),
        match r {
            Ok(()) => dir_outcome(old(image)@, path@) == Some(final(image)@) && intact(final(image)@),
            Err(_) => dir_outcome(old(image)@, path@) is None,
        },
{
    let disk = std::io::Cursor::new(image.as_mut_slice());
    let fs = fatfs::FileSystem::new(disk, fatfs::FsOptions::new())?;
    fs.root_dir().create_dir(path)?;
    fs.unmount()
}

/// Calls `fatfs::Dir::create_file` on the root directory of the volume in
/// the image, then `write_all` and `flush` on the file it gives.
///
/// Taken on trust: the image keeps its length; what the calls leave depends
/// on the bytes, the path and the data alone, so it has a name,
/// `file_outcome`; and what they leave on success is `intact` as before.
/// Nothing is claimed of the file: the caller reads the image back.
#[verifier::external_body]
pub(crate) fn write_file(image: &mut Vec<u8>, path: &str, data: &Vec<u8>) -> (r: Result<(), std::io::Error>)
    requires
        intact(old(image)@),
    ensures
        final(image)@.len() == old(image)@.len(),
        match r {
            Ok(()) => file_outcome(old(image)@, path@, data@) == Some(final(image)@) && intact(
                final(image)@,
            ),
            Err(_) => file_outcome(old(image)@, path@, data@) is None,
        },
{
    let disk = std::io::Cursor::new(image.as_mut_slice());
    let fs = fatfs::FileSystem::new(disk, fatfs::FsOptions::new())?;
    let mut file = fs.root_dir().create_file(path)?;
    file.write_all(data)?;
    file.flush()?;
    drop(file);
    fs.unmount()
}

/// Calls `fatfs::FileSystem::fat_type` on the volume mounted on a copy of
/// the image.
///
/// Taken on trust: what the call finds depends on the bytes alone, so it has
/// a name, `volume_kind`.
#[verifier::external_body]
pub(crate) fn read_kind(image: &Vec<u8>) -> (r: Result<FatKind, std::io::Error>)
    requires
        intact(image@),
    ensures
        match r {
            Ok(kind) => volume_kind(image@) == Some(kind),
            Err(_) => volume_kind(image@) is None,
        },
{
    let disk = std::io::Cursor::new(image.clone());
    let fs = fatfs::FileSystem::new(disk, fatfs::FsOptions::new())?;
    Ok(match fs.fat_type() {
        fatfs::FatType::Fat12 => FatKind::Fat12,
        fatfs::FatType::Fat16 => FatKind::Fat16,
        fatfs::FatType::Fat32 => FatKind::Fat32,
    })
}

/// Calls `fatfs::Dir::iter` on the root directory of the volume mounted on a
/// copy of the image, and `fatfs::DirEntry::file_name` on each entry.
///
/// Taken on trust: what is listed depends on the bytes alone, so it has a
/// name, `root_names`.
#[verifier::external_body]
pub(crate) fn list_root(image: &Vec<u8>) -> (r: Result<Vec<String>, std::io::Error>)
    requires
        intact(image@),
    ensures
        match r {
            Ok(names) => root_names(image@) == Some(texts(names@)),
            Err(_) => root_names(image@) is None,
        },
{
    let disk = std::io::Cursor::new(image.clone());
    let fs = fatfs::FileSystem::new(disk, fatfs::FsOptions::new())?;
    let dir = fs.root_dir();
    let names = dir.iter().map(|entry| entry.map(|e| e.file_name())).collect();
    names
}

/// Calls `fatfs::Dir::open_dir` on the root directory of the volume mounted
/// on a copy of the image, then `fatfs::Dir::iter` on the directory it
/// gives and `fatfs::DirEntry::file_name` on each entry.
///
/// Taken on trust: what is listed depends on the bytes and the path alone,
/// so it has a name, `dir_names`.
#[verifier::external_body]
pub(crate) fn list_dir(image: &Vec<u8>, path: &str) -> (r: Result<Vec<String>, std::io::Error>)
    requires
        intact(image@),
    ensures
        match r {
            Ok(names) => dir_names(image@, path@) == Some(texts(names@)),
            Err(_) => dir_names(image@, path@) is None,
        },
{
    let disk = std::io::Cursor::new(image.clone());
    let fs = fatfs::FileSystem::new(disk, fatfs::FsOptions::new())?;
    let dir = fs.root_dir().open_dir(path)?;
    let names = dir.iter().map(|entry| entry.map(|e| e.file_name())).collect();
    names
}

/// Calls `fatfs::Dir::open_file` on the root directory of the volume mounted
/// on a copy of the image, and reads the file it gives to its end.
///
/// Taken on trust: what is read depends on the bytes and the path alone, so
/// it has a name, `stored_file`.
#[verifier::external_body]
pub(crate) fn read_file(image: &Vec<u8>, path: &str) -> (r: Result<Vec<u8>, std::io::Error>)
    requires
        intact(image@),
    ensures
        match r {
            Ok(data) => stored_file(image@, path@) == Some(data@),
            Err(_) => stored_file(image@, path@) is None,
        },
{
    let disk = std::io::Cursor::new(image.clone());
    let fs = fatfs::FileSystem::new(disk, fatfs::FsOptions::new())?;
    let mut data = Vec::new();
    fs.root_dir().open_file(path)?.read_to_end(&mut data)?;
    Ok(data)
}

/// Calls `to_string` on an I/O error: the text that describes it.
#[verifier::external_body]
pub(crate) fn error_text(error: &std::io::Error) -> (r: String) {
    error.to_string()
}

} // verus!
