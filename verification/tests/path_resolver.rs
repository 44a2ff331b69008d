use tabify_explorer::path_resolver::{
    dir_query_path,
    are_paths_equivalent, folder_is_navigable, hex_byte, is_home_lowered_text, is_home_path,
    is_navigable_folder, location_from_decoded_text, normalize_path_for_equiv, parse_location_url,
    percent_decode_bytes, url_decode,
};

#[test]
fn test_are_paths_equivalent() {
    assert!(are_paths_equivalent("C:/Users/test", "C:\\Users\\test\\"));
    assert!(are_paths_equivalent("C:\\Users\\test", "c:\\users\\test"));
    assert!(are_paths_equivalent("shell:Personal", "SHELL:PERSONAL"));
    assert!(are_paths_equivalent("C:\\", "c:"));
    assert!(!are_paths_equivalent(
        "C:\\Users\\test1",
        "C:\\Users\\test2"
    ));
}

#[test]
fn test_parse_location_url() {
    assert_eq!(
        parse_location_url("file:///C:/Users/test"),
        Some("C:\\Users\\test".to_string())
    );
    assert_eq!(
        parse_location_url("file://server/share/folder"),
        Some("\\\\server\\share\\folder".to_string())
    );
    assert_eq!(
        parse_location_url("shell:Personal"),
        Some("shell:Personal".to_string())
    );
    assert_eq!(
        parse_location_url("::{20D04FE0-3AEA-1069-A2D8-08002B30309D}"),
        Some("::{20D04FE0-3AEA-1069-A2D8-08002B30309D}".to_string())
    );
    assert_eq!(parse_location_url(""), None);
}

#[test]
fn test_is_navigable_folder() {
    assert!(is_navigable_folder(
        "::{20D04FE0-3AEA-1069-A2D8-08002B30309D}"
    ));
    assert!(is_navigable_folder(
        "::{6dcd978d-6903-4905-885e-812c59d810b8}"
    ));
    assert!(is_navigable_folder("PC"));
    assert!(is_navigable_folder("This PC"));
    assert!(is_navigable_folder("home"));
    assert!(is_navigable_folder("ホーム"));
    assert!(is_navigable_folder("gallery"));
    assert!(is_navigable_folder("ギャラリー"));
    assert!(is_navigable_folder("shell:Personal"));
    assert!(is_navigable_folder("\\\\server\\share"));
    assert!(is_navigable_folder("//server/share"));
    assert!(is_navigable_folder("C:\\"));
    assert!(!is_navigable_folder(""));
    assert!(!is_navigable_folder("   "));
    assert!(!is_navigable_folder("non_existent_folder_xyz_12345"));
}

#[test]
fn url_decode_spaces_from_doc_example() {
    assert_eq!(
        url_decode("file:///C:/Path%20With%20Spaces"),
        "file:///C:/Path With Spaces"
    );
    assert_eq!(
        parse_location_url("file:///C:/Path%20With%20Spaces"),
        Some("C:\\Path With Spaces".to_string())
    );
}

#[test]
fn url_decode_plus_and_bad_escapes() {
    assert_eq!(url_decode("a+b"), "a b");
    assert_eq!(url_decode("100%"), "100%");
    assert_eq!(url_decode("%4"), "%4");
    assert_eq!(url_decode("%zz1"), "%zz1");
    assert_eq!(url_decode("%%41"), "%%41");
    assert_eq!(url_decode("%41%42"), "AB");
    // A sign is no hexadecimal digit: the escape is kept as it is.
    assert_eq!(url_decode("%+7"), "%+7");
    assert_eq!(url_decode("%+1"), "%+1");
    assert_eq!(url_decode("%-1"), "%-1");
}

#[test]
fn url_decode_multibyte_escapes() {
    assert_eq!(url_decode("%E3%81%82"), "あ");
    assert_eq!(url_decode("é"), "é");
    assert_eq!(url_decode("%FF"), "\u{FFFD}");
}

#[test]
fn url_decode_plain_text_unchanged() {
    let s = "C:\\Users\\日本語 folder";
    assert_eq!(url_decode(s), s);
}

#[test]
fn percent_bytes_exact() {
    assert_eq!(percent_decode_bytes("%41+é"), vec![0x41, 0x20, 0xC3, 0xA9]);
    assert_eq!(percent_decode_bytes("%4"), vec![0x25, 0x34]);
}

#[test]
fn hex_byte_values() {
    assert_eq!(hex_byte('4', '1'), Some(0x41));
    assert_eq!(hex_byte('f', 'F'), Some(0xFF));
    assert_eq!(hex_byte('+', 'a'), None);
    assert_eq!(hex_byte('-', '1'), None);
    assert_eq!(hex_byte('g', '1'), None);
}

#[test]
fn parse_location_url_edge_cases() {
    assert_eq!(parse_location_url("   "), None);
    assert_eq!(parse_location_url("file:///"), None);
    assert_eq!(parse_location_url("file://"), Some("\\\\".to_string()));
    assert_eq!(parse_location_url("  SHELL:Downloads "), Some("SHELL:Downloads".to_string()));
    assert_eq!(parse_location_url("http://example.com"), None);
    assert_eq!(
        location_from_decoded_text("::{ABC}", "::{abc}"),
        Some("::{ABC}".to_string())
    );
    assert_eq!(location_from_decoded_text("Shell:x", "other"), None);
}

#[test]
fn navigable_decisions() {
    assert!(folder_is_navigable("X", "x", true));
    assert!(!folder_is_navigable("X", "x", false));
    assert!(!folder_is_navigable("", "", true));
    assert!(folder_is_navigable("This PC", "this pc", false));
    assert!(is_navigable_folder("/tmp"));
    assert!(!is_navigable_folder("Z:\\"));
    assert!(is_navigable_folder("c:/"));
    assert!(is_navigable_folder("  C:\\ "));
    assert!(!is_navigable_folder("C:\\\\"));
    assert!(!is_navigable_folder("q:/"));
    assert!(!is_navigable_folder("1:\\"));
    assert!(folder_is_navigable("Z:\\", "z:\\", true));
    assert!(!folder_is_navigable("Z:\\", "z:\\", false));
    assert!(!is_navigable_folder("C:\\Windows\\no_such_dir_xyz"));
    assert!(is_navigable_folder("  shell:Desktop  "));
}

#[test]
fn zip_archives_are_folders() {
    assert!(is_navigable_folder("C:\\Users\\u\\a.zip"));
    assert!(is_navigable_folder("C:\\Users\\u\\Archive.ZIP\\inner"));
    assert!(!is_navigable_folder("C:\\Users\\u\\a.zipx"));
    assert!(folder_is_navigable("a.zip", "a.zip", false));
    assert!(!folder_is_navigable(".zi", ".zi", false));
}

#[test]
fn url_decode_plus_without_escapes() {
    assert_eq!(url_decode("a+b+c"), "a b c");
    assert_eq!(url_decode("C:\\x+y z"), "C:\\x y z");
}

#[test]
fn percent_encoding_round_trip_on_values() {
    for t in ["C:\\Path With Spaces", "日本語", "a+b%c", ""] {
        let enc: String = t.bytes().map(|b| format!("%{:02X}", b)).collect();
        assert_eq!(url_decode(&enc), t);
    }
}

#[test]
fn home_paths() {
    assert!(is_home_path("Home"));
    assert!(is_home_path("  クイック アクセス "));
    assert!(is_home_path("::{F874320E-B68E-4156-A30F-211113D6615B}"));
    assert!(is_home_path("shell:::{679F85CB-0220-4080-929B-55A21749C2C1}"));
    assert!(!is_home_path("C:\\Users"));
    assert!(!is_home_path("gallery"));
    assert!(is_home_lowered_text("quick access"));
    assert!(!is_home_lowered_text("Quick access"));
}

#[test]
fn normalization() {
    assert_eq!(normalize_path_for_equiv("  C:/Users/Test//  "), "c:\\users\\test");
    assert_eq!(normalize_path_for_equiv("\\\\"), "");
}

#[test]
fn equivalence_laws_on_values() {
    let p = "D:/Data\\Sub";
    assert!(are_paths_equivalent(p, p));
    assert_eq!(are_paths_equivalent(p, "d:\\data\\sub"), are_paths_equivalent("d:\\data\\sub", p));
    assert!(are_paths_equivalent(p, "D:\\Data\\Sub"));
    assert!(are_paths_equivalent(p, "D:/Data/Sub\\"));
    assert!(are_paths_equivalent("   ", "\\"));
}

#[test]
fn file_system_is_asked_only_when_needed() {
    assert_eq!(dir_query_path("  C:\\Users\\me "), Some("C:\\Users\\me".to_string()));
    assert_eq!(dir_query_path("\\\\server\\share"), None);
    assert_eq!(dir_query_path("//server/share"), None);
    assert_eq!(dir_query_path("C:\\"), None);
    assert_eq!(dir_query_path("D:\\"), Some("D:\\".to_string()));
    assert_eq!(dir_query_path("   "), None);
}

#[test]
fn ascii_case_is_ignored() {
    assert!(are_paths_equivalent("C:\\PROGRAM FILES\\App", "c:/program files/app/"));
    assert_eq!(normalize_path_for_equiv("SHELL:Downloads"), "shell:downloads");
}
