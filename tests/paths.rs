use encryptor::{decrypted_path, encrypted_path};

#[test]
fn encrypted_path_appends_suffix() {
    assert_eq!(encrypted_path("report.txt"), "report.txt.enc");
    assert_eq!(encrypted_path(""), ".enc");
}

#[test]
fn decrypted_path_strips_last_extension() {
    assert_eq!(decrypted_path("report.txt.enc"), "report.txt");
    assert_eq!(decrypted_path("archive.tar.gz"), "archive.tar");
    assert_eq!(decrypted_path("dir.d/file"), "dir");
    assert_eq!(decrypted_path(".hidden"), "");
}

#[test]
fn decrypted_path_without_dot_is_unchanged() {
    assert_eq!(decrypted_path("README"), "README");
    assert_eq!(decrypted_path(""), "");
}

#[test]
fn decrypted_path_handles_non_ascii() {
    assert_eq!(decrypted_path("résumé.pdf.enc"), "résumé.pdf");
}

#[test]
fn paths_round_trip() {
    for p in ["report.txt", "README", "a.b.c", "x.", "ü"] {
        assert_eq!(decrypted_path(&encrypted_path(p)), p);
    }
}
