use std::io::{Read, Write};
use untar::entry::{Action, Step};
use untar::error::ExtractError;
use untar::extract::{extract_tar, extract_tar_gz, extract_tar_xz, extract_zip};
use untar::format::ArchiveFormat;
use untar::walk::{
    begin_tar_walk, begin_zip_walk, byte_source, next_tar_step, next_zip_step, tar_reader,
};

fn tar_of(files: &[(&str, &[u8])]) -> Vec<u8> {
    let mut tar = tar::Builder::new(Vec::new());
    for (path, content) in files {
        let mut header = tar::Header::new_gnu();
        header.set_path(path).unwrap();
        header.set_size(content.len() as u64);
        header.set_mode(0o644);
        header.set_cksum();
        tar.append(&header, *content).unwrap();
    }
    tar.into_inner().unwrap()
}

fn noise(len: usize) -> Vec<u8> {
    (0..len as u32).map(|i| (i.wrapping_mul(2654435761) >> 13) as u8).collect()
}

fn tar_steps(format: ArchiveFormat, bytes: &[u8]) -> (Vec<Step>, Option<ExtractError>, u64) {
    let mut archive = tar_reader(byte_source(format, bytes));
    let mut walk = begin_tar_walk(&mut archive).unwrap();
    let mut steps = Vec::new();
    let mut failure = None;
    while let Some(next) = next_tar_step(&mut walk, "out", false) {
        match next {
            Ok(step) => steps.push(step),
            Err(error) => failure = Some(error),
        }
    }
    assert!(walk.ended);
    assert!(next_tar_step(&mut walk, "out", false).is_none());
    (steps, failure, walk.count)
}

#[test]
fn tar_walk_hands_out_one_step_per_entry() {
    let bytes = tar_of(&[("a.txt", b"aaa"), ("d/b.txt", b"bb")]);
    let mut archive = tar_reader(byte_source(ArchiveFormat::PlainTar, &bytes));
    let mut walk = begin_tar_walk(&mut archive).unwrap();
    assert_eq!(walk.count, 0);
    let first = next_tar_step(&mut walk, "out", false).unwrap().unwrap();
    assert_eq!(walk.count, 1);
    assert_eq!(first.index, 1);
    assert_eq!(first.destination, b"out/a.txt".to_vec());
    assert_eq!(first.action, Action::WriteFile { data: b"aaa".to_vec(), mode: Some(0o644) });
    assert_eq!(first.progress.as_deref(), Some("[1] a.txt (3 B)"));
    let second = next_tar_step(&mut walk, "out", false).unwrap().unwrap();
    assert_eq!(second.index, 2);
    assert_eq!(second.destination, b"out/d/b.txt".to_vec());
    assert!(!walk.ended);
    assert!(next_tar_step(&mut walk, "out", false).is_none());
    assert!(walk.ended);
    assert_eq!(walk.count, 2);
    assert!(next_tar_step(&mut walk, "out", false).is_none());
}

#[test]
fn tar_walk_step_by_step_agrees_with_the_whole_extraction() {
    let bytes = tar_of(&[("a.txt", b"aaa"), ("d/b.txt", b"bb"), ("c", b"")]);
    let (steps, failure, count) = tar_steps(ArchiveFormat::PlainTar, &bytes);
    let whole = extract_tar(&bytes, "out", false);
    assert!(failure.is_none() && whole.failure.is_none());
    assert_eq!(steps, whole.steps);
    assert_eq!(count, whole.summary.count);
}

#[test]
fn tar_walk_owes_the_failure_after_the_step_whose_data_failed() {
    let filler = noise(300_000);
    let tar_bytes = tar_of(&[("first.txt", b"first"), ("second.bin", &filler)]);
    let mut gz = flate2::write::GzEncoder::new(Vec::new(), flate2::Compression::default());
    gz.write_all(&tar_bytes).unwrap();
    let mut gz_bytes = gz.finish().unwrap();
    gz_bytes.truncate(gz_bytes.len() / 2);

    let mut archive = tar_reader(byte_source(ArchiveFormat::GzipTar, &gz_bytes));
    let mut walk = begin_tar_walk(&mut archive).unwrap();
    assert!(next_tar_step(&mut walk, "out", true).unwrap().is_ok());
    let second = next_tar_step(&mut walk, "out", true).unwrap().unwrap();
    assert!(walk.pending.is_some());
    match &second.action {
        Action::WriteFile { data, .. } => assert_eq!(data[..], filler[..data.len()]),
        other => panic!("{:?}", other),
    }
    let owed = walk.pending.clone().unwrap();
    match next_tar_step(&mut walk, "out", true) {
        Some(Err(ExtractError::Malformed { detail })) => assert_eq!(detail, owed),
        other => panic!("{:?}", other),
    }
    assert!(walk.ended);
    assert!(next_tar_step(&mut walk, "out", true).is_none());

    let whole = extract_tar_gz(&gz_bytes, "out", true);
    assert_eq!(whole.steps.len(), 2);
    match whole.failure {
        Some(ExtractError::Malformed { detail }) => assert_eq!(detail, owed),
        other => panic!("{:?}", other),
    }
}

#[test]
fn broken_xz_data_fails_with_the_message_of_the_first_failing_read() {
    let filler = noise(400_000);
    let tar_bytes = tar_of(&[("only.bin", &filler)]);
    let mut xz = xz2::write::XzEncoder::new(Vec::new(), 6);
    xz.write_all(&tar_bytes).unwrap();
    let mut xz_bytes = xz.finish().unwrap();
    let middle = xz_bytes.len() / 2;
    for byte in xz_bytes[middle..middle + 64].iter_mut() {
        *byte ^= 0x5a;
    }

    let mut direct = tar::Archive::new(xz2::read::XzDecoder::new(&xz_bytes[..]));
    let mut entry = direct.entries().unwrap().next().unwrap().unwrap();
    let mut seen = Vec::new();
    let expected = entry.read_to_end(&mut seen).err().unwrap().to_string();

    let whole = extract_tar_xz(&xz_bytes, "out", false);
    assert_eq!(whole.steps.len(), 1);
    assert!(seen.len() < filler.len());
    assert!(whole.steps[0].action == Action::WriteFile { data: seen, mode: Some(0o644) });
    match whole.failure {
        Some(ExtractError::Malformed { detail }) => assert_eq!(detail, expected),
        other => panic!("{:?}", other),
    }
    let (steps, failure, count) = tar_steps(ArchiveFormat::XzTar, &xz_bytes);
    assert_eq!(steps, whole.steps);
    assert_eq!(count, 1);
    assert!(matches!(failure, Some(ExtractError::Malformed { detail }) if detail == expected));
}

#[test]
fn every_decoder_is_put_over_the_bytes_by_its_format() {
    let tar_bytes = tar_of(&[("f", b"content")]);
    let mut gz = flate2::write::GzEncoder::new(Vec::new(), flate2::Compression::default());
    gz.write_all(&tar_bytes).unwrap();
    let mut xz = xz2::write::XzEncoder::new(Vec::new(), 6);
    xz.write_all(&tar_bytes).unwrap();
    let mut bz = bzip2::write::BzEncoder::new(Vec::new(), bzip2::Compression::default());
    bz.write_all(&tar_bytes).unwrap();
    let cases = [
        (ArchiveFormat::PlainTar, tar_bytes.clone()),
        (ArchiveFormat::GzipTar, gz.finish().unwrap()),
        (ArchiveFormat::XzTar, xz.finish().unwrap()),
        (ArchiveFormat::Bzip2Tar, bz.finish().unwrap()),
    ];
    for (format, bytes) in cases.iter() {
        let (steps, failure, count) = tar_steps(*format, bytes);
        assert!(failure.is_none(), "{:?}", format);
        assert_eq!(count, 1);
        assert_eq!(
            steps[0].action,
            Action::WriteFile { data: b"content".to_vec(), mode: Some(0o644) }
        );
        for (other, _) in cases.iter() {
            if other != format && *other != ArchiveFormat::PlainTar {
                let (wrong_steps, wrong_failure, _) = tar_steps(*other, bytes);
                assert!(wrong_steps.is_empty() && wrong_failure.is_some());
            }
        }
    }
}

#[test]
fn zip_walk_step_by_step_agrees_with_the_whole_extraction() {
    let mut zip = zip::ZipWriter::new(std::io::Cursor::new(Vec::new()));
    let options = zip::write::SimpleFileOptions::default()
        .compression_method(zip::CompressionMethod::Deflated);
    zip.add_directory("d", options).unwrap();
    zip.start_file("d/a.txt", options).unwrap();
    zip.write_all(b"aaaa").unwrap();
    zip.start_file("b.txt", options).unwrap();
    zip.write_all(b"b").unwrap();
    let bytes = zip.finish().unwrap().into_inner();

    let mut walk = begin_zip_walk(&bytes).unwrap();
    let mut steps = Vec::new();
    while let Some(next) = next_zip_step(&mut walk, "out", false) {
        steps.push(next.unwrap());
        assert_eq!(walk.index, steps.len());
    }
    assert!(walk.ended);
    assert!(next_zip_step(&mut walk, "out", false).is_none());
    let whole = extract_zip(&bytes, "out", false);
    assert_eq!(steps, whole.steps);
    assert_eq!(steps.len(), 3);
    assert_eq!(steps[0].action, Action::CreateDirectory);
    assert_eq!(steps[1].action, Action::WriteFile { data: b"aaaa".to_vec(), mode: None });
}

#[test]
fn zip_walk_owes_the_failure_after_the_step_whose_data_failed() {
    let mut zip = zip::ZipWriter::new(std::io::Cursor::new(Vec::new()));
    let options = zip::write::SimpleFileOptions::default()
        .compression_method(zip::CompressionMethod::Stored);
    zip.start_file("bad.txt", options).unwrap();
    zip.write_all(b"DAMAGE-HERE").unwrap();
    zip.start_file("never.txt", options).unwrap();
    zip.write_all(b"never").unwrap();
    let mut bytes = zip.finish().unwrap().into_inner();
    let at = bytes.windows(11).position(|w| w == b"DAMAGE-HERE").unwrap();
    bytes[at] = b'X';
    let mut walk = begin_zip_walk(&bytes).unwrap();
    let step = next_zip_step(&mut walk, "out", true).unwrap().unwrap();
    assert_eq!(step.destination, b"out/bad.txt".to_vec());
    assert_eq!(walk.pending.as_deref(), Some("Invalid checksum"));
    match next_zip_step(&mut walk, "out", true) {
        Some(Err(ExtractError::Malformed { detail })) => assert_eq!(detail, "Invalid checksum"),
        other => panic!("{:?}", other),
    }
    assert!(next_zip_step(&mut walk, "out", true).is_none());
    assert_eq!(walk.index, 1);
}

#[test]
fn a_walk_cannot_begin_on_bytes_that_the_zip_reader_rejects() {
    let expected = zip::ZipArchive::new(std::io::Cursor::new(&b"nothing"[..]))
        .err()
        .unwrap()
        .to_string();
    match begin_zip_walk(b"nothing") {
        Err(ExtractError::Malformed { detail }) => assert_eq!(detail, expected),
        Ok(_) => panic!("a walk began"),
        Err(other) => panic!("{:?}", other),
    }
}
