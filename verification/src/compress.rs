//! The archive formats a root file system may arrive in.

use vstd::prelude::*;
use vstd::string::*;
use crate::host::{extension, path_extension};

verus! {

/// The compression around a tar archive.
#[derive(Clone, Copy, Debug, PartialEq, Eq)]
pub enum Type {
    Xz,
    Gz,
}

/// The format of a root file system archive, as its file extension tells it.
#[derive(Clone, Copy, Debug, PartialEq, Eq)]
pub enum Format {
    Zip,
    Tar(Type),
}

/// The format that an extension stands for: `zip`, `xz` and `gz` are
/// recognised, nothing else is.
pub open spec fn format_of(extension: Seq<char>) -> Option<Format> {
    if extension == "zip"@ {
        Some(Format::Zip)
    } else if extension == "xz"@ {
        Some(Format::Tar(Type::Xz))
    } else if extension == "gz"@ {
        Some(Format::Tar(Type::Gz))
    } else {
        None
    }
}

/// The extension of `path`, or the empty text where it has none.
pub open spec fn extension_or_empty(path: Seq<char>) -> Seq<char> {
    match path_extension(path) {
        Some(ext) => ext,
        None => Seq::empty(),
    }
}

impl Format {
    /// The format that the extension `ext` stands for.
    pub fn from_extension(ext: &str) -> (format: Option<Format>)
        ensures
            format == format_of(ext@),
    {
        let ext = String::from_str(ext);
        if ext == String::from_str("zip") {
            Some(Format::Zip)
        } else if ext == String::from_str("xz") {
            Some(Format::Tar(Type::Xz))
        } else if ext == String::from_str("gz") {
            Some(Format::Tar(Type::Gz))
        } else {
            None
        }
    }

    /// The format of the archive at `path`, judged by its extension alone.
    pub fn of_path(path: &str) -> (format: Option<Format>)
        ensures
            format == format_of(extension_or_empty(path@)),
    {
        match extension(path) {
            Some(ext) => Format::from_extension(ext.as_str()),
            None => {
                proof {
                    reveal_strlit("");
                    assert(""@ =~= Seq::<char>::empty());
                }
                Format::from_extension("")
            },
        }
    }
}

} // verus!
