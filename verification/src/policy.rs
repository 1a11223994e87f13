//! Where an extracted file goes under the output root.

use vstd::prelude::*;
use crate::paths::{extension, extension_of, file_name, file_name_of, join, joined};
use crate::text::{owned, to_uppercase, uppercase};

verus! {

/// How the extracted files are laid out under the output root.
#[derive(Debug, Clone, Copy, PartialEq, Eq, Structural)]
pub enum Organizer {
    /// One directory per file extension, in upper case.
    Type,
    /// One directory per size class of the stored file.
    Size,
    /// Every file directly under the output root. Two entries with the same
    /// file name then share one destination, and the later copy replaces the
    /// earlier one.
    Root,
    /// The device's own directory structure.
    Auto,
}

/// The size class of a file of `byte_size` bytes. Every class but the first
/// includes its upper limit.
pub open spec fn size_class(byte_size: u64) -> Seq<char> {
    if byte_size < 1_000_000 {
        "Less than 1 MB"@
    } else if byte_size <= 10_000_000 {
        "1 MB \u{2013} 10 MB"@
    } else if byte_size <= 100_000_000 {
        "10 MB \u{2013} 100 MB"@
    } else if byte_size <= 1_000_000_000 {
        "100 MB \u{2013} 1 GB"@
    } else if byte_size <= 10_000_000_000 {
        "1 GB \u{2013} 10 GB"@
    } else {
        "More than 10 GB"@
    }
}

/// The name of the size class of a file of `byte_size` bytes.
pub fn classify_size(byte_size: u64) -> (r: String)
    ensures
        r@ == size_class(byte_size),
{
    if byte_size < 1_000_000 {
        owned("Less than 1 MB")
    } else if byte_size <= 10_000_000 {
        owned("1 MB \u{2013} 10 MB")
    } else if byte_size <= 100_000_000 {
        owned("10 MB \u{2013} 100 MB")
    } else if byte_size <= 1_000_000_000 {
        owned("100 MB \u{2013} 1 GB")
    } else if byte_size <= 10_000_000_000 {
        owned("1 GB \u{2013} 10 GB")
    } else {
        owned("More than 10 GB")
    }
}

/// `filename` in the directory of the size class of `byte_size`.
pub open spec fn sized_path(byte_size: u64, filename: Seq<char>) -> Seq<char> {
    joined(size_class(byte_size), filename)
}

/// The path, relative to the output root, of a file of `byte_size` bytes
/// when files are laid out by size.
pub fn file_size(byte_size: u64, filename: &str) -> (r: String)
    ensures
        r@ == sized_path(byte_size, filename@),
{
    let class = classify_size(byte_size);
    join(class.as_str(), filename)
}

/// The upper-case form of the extension of `relative_path`; empty where it
/// has no extension.
pub open spec fn upper_extension_of(relative_path: Seq<char>) -> Seq<char> {
    if extension_of(relative_path).len() == 0 {
        Seq::empty()
    } else {
        uppercase(extension_of(relative_path))
    }
}

/// `filename` in the directory named `upper_extension`; a file without
/// extension keeps its relative path.
pub open spec fn typed_path(
    relative_path: Seq<char>,
    filename: Seq<char>,
    upper_extension: Seq<char>,
) -> Seq<char> {
    if upper_extension.len() == 0 {
        relative_path
    } else {
        joined(upper_extension, filename)
    }
}

/// The path, relative to the output root, of `filename` when files are laid
/// out by type and the upper-case form of the extension is `upper_extension`.
pub fn file_type_in(relative_path: &str, filename: &str, upper_extension: &str) -> (r: String)
    ensures
        r@ == typed_path(relative_path@, filename@, upper_extension@),
{
    if upper_extension.unicode_len() == 0 {
        owned(relative_path)
    } else {
        join(upper_extension, filename)
    }
}

/// The path, relative to the output root, of `filename` when files are laid
/// out by type: under the upper-case form of the extension of
/// `relative_path`.
pub fn file_type(relative_path: &str, filename: &str) -> (r: String)
    ensures
        r@ == typed_path(relative_path@, filename@, upper_extension_of(relative_path@)),
{
    let upper = upper_extension(relative_path);
    file_type_in(relative_path, filename, upper.as_str())
}

/// The destination of the entry `relative_path` under `output_root`, given
/// the size of its stored file and the upper-case form of its extension.
pub open spec fn destination_of(
    mode: Organizer,
    output_root: Seq<char>,
    relative_path: Seq<char>,
    source_size: u64,
    upper_extension: Seq<char>,
) -> Seq<char> {
    match mode {
        Organizer::Auto => joined(output_root, relative_path),
        Organizer::Type => joined(
            output_root,
            typed_path(relative_path, file_name_of(relative_path), upper_extension),
        ),
        Organizer::Size => joined(output_root, sized_path(source_size, file_name_of(relative_path))),
        Organizer::Root => joined(output_root, file_name_of(relative_path)),
    }
}

/// The layout that keeps the device's structure sends an entry to the same
/// place whatever the stored file holds: to its relative path below the
/// output root. A second run replaces what the first one wrote and adds
/// nothing beside it.
pub proof fn law_auto_layout_keeps_relative_path(
    output_root: Seq<char>,
    relative_path: Seq<char>,
    source_size: u64,
    upper_extension: Seq<char>,
)
    ensures
        destination_of(Organizer::Auto, output_root, relative_path, source_size, upper_extension)
            == joined(output_root, relative_path),
{
}

/// A file without extension is laid out by type as the device had it: it
/// keeps its relative path below the output root.
pub proof fn law_no_extension_keeps_relative_path(
    output_root: Seq<char>,
    relative_path: Seq<char>,
    filename: Seq<char>,
    source_size: u64,
)
    requires
        extension_of(relative_path).len() == 0,
    ensures
        typed_path(relative_path, filename, upper_extension_of(relative_path)) == relative_path,
        destination_of(
            Organizer::Type,
            output_root,
            relative_path,
            source_size,
            upper_extension_of(relative_path),
        ) == joined(output_root, relative_path),
        destination_of(
            Organizer::Type,
            output_root,
            relative_path,
            source_size,
            upper_extension_of(relative_path),
        ) == destination_of(
            Organizer::Auto,
            output_root,
            relative_path,
            source_size,
            upper_extension_of(relative_path),
        ),
{
}

/// Only the layout by size reads the size of the stored file, and only the
/// layout by type reads the extension's upper-case form.
pub proof fn law_layouts_read_what_they_need(
    mode: Organizer,
    output_root: Seq<char>,
    relative_path: Seq<char>,
    size: u64,
    other_size: u64,
    upper_extension: Seq<char>,
    other_extension: Seq<char>,
)
    ensures
        mode != Organizer::Size ==> destination_of(
            mode,
            output_root,
            relative_path,
            size,
            upper_extension,
        ) == destination_of(mode, output_root, relative_path, other_size, upper_extension),
        mode != Organizer::Type ==> destination_of(
            mode,
            output_root,
            relative_path,
            size,
            upper_extension,
        ) == destination_of(mode, output_root, relative_path, size, other_extension),
{
}

/// Whether `mode` lays files out by the size of the stored file.
pub fn needs_source_size(mode: Organizer) -> (r: bool)
    ensures
        r == (mode == Organizer::Size),
{
    match mode {
        Organizer::Size => true,
        _ => false,
    }
}

/// The destination of the entry `relative_path` under `output_root`, where
/// the upper-case form of its extension is `upper_extension`. `source_size`
/// is the size of the stored file in bytes; only `Organizer::Size` reads it,
/// and only `Organizer::Type` reads `upper_extension`.
pub fn destination_in(
    mode: Organizer,
    output_root: &str,
    relative_path: &str,
    source_size: u64,
    upper_extension: &str,
) -> (r: String)
    ensures
        r@ == destination_of(mode, output_root@, relative_path@, source_size, upper_extension@),
{
    match mode {
        Organizer::Auto => join(output_root, relative_path),
        Organizer::Type => {
            let name = file_name(relative_path);
            let below = file_type_in(relative_path, name.as_str(), upper_extension);
            join(output_root, below.as_str())
        },
        Organizer::Size => {
            let name = file_name(relative_path);
            let below = file_size(source_size, name.as_str());
            join(output_root, below.as_str())
        },
        Organizer::Root => {
            let name = file_name(relative_path);
            join(output_root, name.as_str())
        },
    }
}

/// The upper-case form of the extension of `relative_path`; empty where it
/// has no extension.
pub fn upper_extension(relative_path: &str) -> (r: String)
    ensures
        r@ == upper_extension_of(relative_path@),
{
    let ext = extension(relative_path);
    if ext.as_str().unicode_len() == 0 {
        ext
    } else {
        to_uppercase(ext.as_str())
    }
}

/// The destination of the entry `relative_path` under `output_root`.
/// `source_size` is the size of the stored file in bytes; only
/// `Organizer::Size` reads it.
pub fn destination(mode: Organizer, output_root: &str, relative_path: &str, source_size: u64) -> (r:
    String)
    ensures
        r@ == destination_of(
            mode,
            output_root@,
            relative_path@,
            source_size,
            upper_extension_of(relative_path@),
        ),
{
    let upper = upper_extension(relative_path);
    destination_in(mode, output_root, relative_path, source_size, upper.as_str())
}

} // verus!
