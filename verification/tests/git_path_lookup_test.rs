use nucleus::git_status::match_git_path;

#[test]
fn test_git_path_matching_variations() {
    // 1. Windows 絶対パス vs 相対パス (スラッシュ)
    assert!(match_git_path(
        "A:\\Project\\nucleus\\src\\main.rs",
        "src/main.rs",
        false
    ));

    // 2. Windows 絶対パス vs Windows 相対パス (バックスラッシュ)
    assert!(match_git_path(
        "A:\\Project\\nucleus\\src\\workspace\\mod.rs",
        "src\\workspace\\mod.rs",
        false
    ));

    // 3. 同一の絶対パス
    assert!(match_git_path(
        "A:/Project/nucleus/Cargo.toml",
        "A:/Project/nucleus/Cargo.toml",
        false
    ));

    // 4. ディレクトリマッチ (フォルダ内に変更ファイルが存在する場合)
    assert!(match_git_path(
        "A:\\Project\\nucleus\\src\\workspace",
        "src/workspace/mod.rs",
        true
    ));

    // 5. 不一致ケース
    assert!(!match_git_path(
        "A:\\Project\\nucleus\\src\\lib.rs",
        "src/main.rs",
        false
    ));
}

#[test]
fn git_path_leading_dot_slash_is_ignored() {
    assert!(match_git_path("./src/main.rs", "src/main.rs", false));
    assert!(match_git_path("src/main.rs", "././src/main.rs", false));
}

#[test]
fn git_path_folder_prefix() {
    assert!(match_git_path("src/", "/src/lib.rs", true));
    assert!(!match_git_path("C:\\other", "src/lib.rs", true));
}

#[test]
fn git_path_match_is_symmetric_for_files() {
    let a = "A:\\Project\\nucleus\\src\\main.rs";
    let b = "src/main.rs";
    assert_eq!(match_git_path(a, b, false), match_git_path(b, a, false));
}
