use tabify_explorer::process_info::{
    command_line_units, integrity_rid_index, is_previous_instance, nul_terminated_len,
    IntegrityReadError,
};
use tabify_explorer::process_info::{
    candidate_of, extract_folder_from_cmdline, folder_from_parts, integrity_concern, integrity_label_from_rid,
    security_context_from_token, split_command_line, IntegrityConcern,
};

#[test]
fn split_quotes_and_spaces() {
    assert_eq!(
        split_command_line("C:\\Windows\\explorer.exe  \"C:\\My Docs\" /e"),
        vec!["C:\\Windows\\explorer.exe", "C:\\My Docs", "/e"]
    );
    assert_eq!(split_command_line(""), Vec::<String>::new());
    assert_eq!(split_command_line("a\"b c\"d"), vec!["a", "b c", "d"]);
    assert_eq!(split_command_line("\"\"  \" \""), vec![" "]);
}

#[test]
fn extract_folder_examples() {
    assert_eq!(
        extract_folder_from_cmdline("explorer.exe \"shell:Personal\""),
        Some("shell:Personal".to_string())
    );
    assert_eq!(
        extract_folder_from_cmdline("explorer.exe \\\\server\\share"),
        Some("\\\\server\\share".to_string())
    );
    assert_eq!(extract_folder_from_cmdline("explorer.exe home"), None);
    assert_eq!(extract_folder_from_cmdline("explorer.exe /e,"), None);
    assert_eq!(
        extract_folder_from_cmdline("explorer.exe \"  ::{20D04FE0-3AEA-1069-A2D8-08002B30309D} \""),
        Some("::{20D04FE0-3AEA-1069-A2D8-08002B30309D}".to_string())
    );
    assert_eq!(extract_folder_from_cmdline("explorer.exe /tmp"), Some("/tmp".to_string()));
    assert_eq!(
        extract_folder_from_cmdline("C:/Windows/explorer.exe \"//server/my share\""),
        Some("//server/my share".to_string())
    );
}

#[test]
fn extract_folder_after_select_switch() {
    assert_eq!(
        extract_folder_from_cmdline("explorer.exe /select,\\\\server\\share\\dir"),
        Some("\\\\server\\share\\dir".to_string())
    );
    assert_eq!(
        extract_folder_from_cmdline("explorer.exe /SELECT,shell:Downloads"),
        Some("shell:Downloads".to_string())
    );
    assert_eq!(
        extract_folder_from_cmdline("explorer.exe /select,\"C:\\Users\\u\\a.zip\""),
        Some("C:\\Users\\u\\a.zip".to_string())
    );
    assert_eq!(extract_folder_from_cmdline("explorer.exe /select,"), None);
    assert_eq!(candidate_of("  /Select,//srv/x "), "//srv/x");
    assert_eq!(candidate_of("/selected"), "/selected");
}

#[test]
fn folder_from_parts_uses_answers() {
    let parts = vec!["explorer.exe".to_string(), "C:\\Users\\me\\Documents".to_string()];
    assert_eq!(
        folder_from_parts(&parts, &vec![false, true]),
        Some("C:\\Users\\me\\Documents".to_string())
    );
    assert_eq!(folder_from_parts(&parts, &vec![false, false]), None);
    assert_eq!(folder_from_parts(&parts, &vec![true, true]), Some("explorer.exe".to_string()));
    let home = vec!["home".to_string()];
    assert_eq!(folder_from_parts(&home, &vec![true]), None);
}

#[test]
fn integrity_labels() {
    assert_eq!(integrity_label_from_rid(0), "untrusted");
    assert_eq!(integrity_label_from_rid(0x1000), "low");
    assert_eq!(integrity_label_from_rid(0x1FFF), "low");
    assert_eq!(integrity_label_from_rid(0x2000), "medium");
    assert_eq!(integrity_label_from_rid(0x2100), "medium+");
    assert_eq!(integrity_label_from_rid(0x2101), "medium");
    assert_eq!(integrity_label_from_rid(0x3000), "high");
    assert_eq!(integrity_label_from_rid(0x4000), "system");
    assert_eq!(integrity_label_from_rid(0x5000), "protected-or-higher");
}

#[test]
fn security_contexts() {
    let c = security_context_from_token(1, 0x3000);
    assert!(c.elevated);
    assert_eq!(c.integrity_rid, 0x3000);
    assert_eq!(c.integrity_label, "high");
    assert!(matches!(integrity_concern(&c), IntegrityConcern::HighPrivilege));
    let c = security_context_from_token(0, 0x1000);
    assert!(!c.elevated);
    assert!(matches!(integrity_concern(&c), IntegrityConcern::LowTrust));
    let c = security_context_from_token(0, 0x2000);
    assert!(matches!(integrity_concern(&c), IntegrityConcern::Usual));
}

#[test]
fn token_and_process_helpers() {
    assert_eq!(command_line_units(10, false), Some(5));
    assert_eq!(command_line_units(0, false), None);
    assert_eq!(command_line_units(10, true), None);
    assert_eq!(integrity_rid_index(0, false, 1), Err(IntegrityReadError::EmptyBuffer));
    assert_eq!(integrity_rid_index(20, true, 1), Err(IntegrityReadError::NullSid));
    assert_eq!(integrity_rid_index(20, false, 0), Err(IntegrityReadError::NoSubAuthority));
    assert_eq!(integrity_rid_index(20, false, 1), Ok(0));
    assert!(is_previous_instance("TabifyExplorer.exe", 10, 11));
    assert!(is_previous_instance("tabify_explorer.exe", 10, 11));
    assert!(!is_previous_instance("TabifyExplorer.exe", 11, 11));
    assert!(!is_previous_instance("explorer.exe", 10, 11));
    assert_eq!(nul_terminated_len(&vec![65, 66, 0, 67]), 2);
    assert_eq!(nul_terminated_len(&vec![65, 66]), 2);
    assert_eq!(nul_terminated_len(&vec![]), 0);
}
