use alt::compress::{Format, Type};

#[test]
fn the_three_known_extensions_are_recognised() {
    assert_eq!(Format::from_extension("zip"), Some(Format::Zip));
    assert_eq!(Format::from_extension("xz"), Some(Format::Tar(Type::Xz)));
    assert_eq!(Format::from_extension("gz"), Some(Format::Tar(Type::Gz)));
}

#[test]
fn other_extensions_are_not_recognised() {
    for ext in ["", "tar", "bz2", "ZIP", "Gz", "zip ", ".zip", "gzip", "7z", "x"] {
        assert_eq!(Format::from_extension(ext), None, "{ext:?}");
    }
}

#[test]
fn the_format_of_a_path_is_that_of_its_last_extension() {
    assert_eq!(Format::of_path("base.tar.gz"), Some(Format::Tar(Type::Gz)));
    assert_eq!(Format::of_path("/images/rootfs.tar.xz"), Some(Format::Tar(Type::Xz)));
    assert_eq!(Format::of_path("./alpine.zip"), Some(Format::Zip));
    assert_eq!(Format::of_path("dir.gz/rootfs.zip"), Some(Format::Zip));
}

#[test]
fn a_path_without_a_known_extension_has_no_format() {
    for path in ["", "rootfs", "rootfs.tar", "rootfs.", ".gz", "dir.gz/rootfs", "a.zip/..", "rootfs.tgz"] {
        assert_eq!(Format::of_path(path), None, "{path:?}");
    }
}

#[test]
fn the_format_of_a_path_follows_the_standard_library() {
    for path in ["a.gz", "a.gz/", "a.gz/.", "a.b.xz", "..zip", "x/.zip", "x/y.zip.gz", "gz", "a.gz/b"] {
        let ext = std::path::Path::new(path).extension().and_then(|e| e.to_str()).unwrap_or("");
        assert_eq!(Format::of_path(path), Format::from_extension(ext), "{path:?}");
    }
}
