use sourcepin::classify::classify;
use sourcepin::SourceType;

#[test]
fn zip_is_archive() {
    assert_eq!(classify(None, Some("archive.zip")), SourceType::Tarball);
}

#[test]
fn tgz_is_archive() {
    assert_eq!(classify(None, Some("archive.tgz")), SourceType::Tarball);
}

#[test]
fn tar_gz_is_archive() {
    assert_eq!(classify(None, Some("archive.tar.gz")), SourceType::Tarball);
}

#[test]
fn tar_bz2_is_archive() {
    assert_eq!(classify(None, Some("archive.tar.bz2")), SourceType::Tarball);
}

#[test]
fn bare_tar_is_file() {
    // `tar` marks an archive only one level below the outermost extension;
    // at the top level it is not checked, so a bare `.tar` is a file.
    assert_eq!(classify(None, Some("archive.tar")), SourceType::File);
}

#[test]
fn pdf_is_file() {
    assert_eq!(classify(None, Some("document.pdf")), SourceType::File);
}

#[test]
fn no_hint_is_file() {
    assert_eq!(classify(None, None), SourceType::File);
}

#[test]
fn no_extension_is_file() {
    assert_eq!(classify(None, Some("README")), SourceType::File);
}

#[test]
fn hidden_file_has_no_extension() {
    assert_eq!(classify(None, Some(".zip")), SourceType::File);
}

#[test]
fn override_wins_over_archive_hint() {
    assert_eq!(
        classify(Some(SourceType::File), Some("archive.zip")),
        SourceType::File
    );
}

#[test]
fn override_wins_over_file_hint() {
    assert_eq!(
        classify(Some(SourceType::Tarball), Some("document.pdf")),
        SourceType::Tarball
    );
}
