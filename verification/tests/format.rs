use untar::error::ExtractError;
use untar::format::{select_format, ArchiveFormat};

fn by_lowercasing(name: &str) -> Option<ArchiveFormat> {
    let lower = name.to_lowercase();
    if lower.ends_with(".tar.gz") || lower.ends_with(".tgz") {
        Some(ArchiveFormat::GzipTar)
    } else if lower.ends_with(".tar.xz") {
        Some(ArchiveFormat::XzTar)
    } else if lower.ends_with(".tar.bz2") {
        Some(ArchiveFormat::Bzip2Tar)
    } else if lower.ends_with(".zip") {
        Some(ArchiveFormat::Zip)
    } else if lower.ends_with(".tar") {
        Some(ArchiveFormat::PlainTar)
    } else {
        None
    }
}

#[test]
fn every_supported_extension_selects_its_format() {
    assert_eq!(select_format("a.tar").unwrap(), ArchiveFormat::PlainTar);
    assert_eq!(select_format("a.tar.gz").unwrap(), ArchiveFormat::GzipTar);
    assert_eq!(select_format("a.tgz").unwrap(), ArchiveFormat::GzipTar);
    assert_eq!(select_format("a.tar.xz").unwrap(), ArchiveFormat::XzTar);
    assert_eq!(select_format("a.tar.bz2").unwrap(), ArchiveFormat::Bzip2Tar);
    assert_eq!(select_format("a.zip").unwrap(), ArchiveFormat::Zip);
}

#[test]
fn extension_alone_and_with_directories() {
    assert_eq!(select_format(".tar").unwrap(), ArchiveFormat::PlainTar);
    assert_eq!(select_format(".zip").unwrap(), ArchiveFormat::Zip);
    assert_eq!(select_format("/tmp/x.y/backup.tar.bz2").unwrap(), ArchiveFormat::Bzip2Tar);
    assert_eq!(select_format("a.zip.tar").unwrap(), ArchiveFormat::PlainTar);
    assert_eq!(select_format("a.tar.zip").unwrap(), ArchiveFormat::Zip);
}

#[test]
fn extension_case_does_not_matter() {
    assert_eq!(select_format("A.TAR").unwrap(), ArchiveFormat::PlainTar);
    assert_eq!(select_format("A.Tar.Gz").unwrap(), ArchiveFormat::GzipTar);
    assert_eq!(select_format("A.TGZ").unwrap(), ArchiveFormat::GzipTar);
    assert_eq!(select_format("A.tar.XZ").unwrap(), ArchiveFormat::XzTar);
    assert_eq!(select_format("A.TAR.BZ2").unwrap(), ArchiveFormat::Bzip2Tar);
    assert_eq!(select_format("A.ZiP").unwrap(), ArchiveFormat::Zip);
}

#[test]
fn unrecognized_names_are_unsupported() {
    for name in ["test.rar", "", "tar", "a.tar.", "a.gz", "a.xz", "a.bz2", "a.tar.gzz", "zip", "a.7z", "a.tar.gz "] {
        match select_format(name) {
            Err(ExtractError::UnsupportedFormat) => {}
            other => panic!("{:?}: {:?}", name, other),
        }
    }
}

#[test]
fn selection_agrees_with_full_lowercasing() {
    let names = [
        "a.tar",
        "a.TAR.GZ",
        "\u{130}.zip",
        "a.z\u{130}p",
        "a.zi\u{307}p",
        "a.\u{212a}tar",
        "a.tar\u{212a}",
        "\u{3a3}.TAR.XZ",
        "a.t\u{e4}r",
        "a.\u{ff54}ar",
        "\u{1f600}.tgz",
        "a.tar.bz\u{b2}",
        "a.ZIP\u{0}",
        "a.rar",
    ];
    for name in names {
        assert_eq!(select_format(name).ok(), by_lowercasing(name), "{:?}", name);
    }
}

#[test]
fn unsupported_format_message_names_the_extensions() {
    let message = select_format("test.rar").unwrap_err().message();
    assert_eq!(
        message,
        "Unsupported archive format. Please use a known extension (.tar, .tar.gz, .tgz, .tar.xz, .tar.bz2, .zip)"
    );
    assert!(message.contains("Unsupported archive format"));
}
