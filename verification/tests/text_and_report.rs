use difftastic_api::api::{
    override_language, request_display_path, response_from_result, DiffRequest, GrpcDiffService,
    HunkData,
};
use difftastic_api::order::bytes_le_exec;
use difftastic_api::model::{
    DiffOptions, DiffResult, DisplayMode, DisplayOptions, FileContent, FileFormat, Language,
    LanguageOverride,
};
use difftastic_api::report::{
    add_permissions_note, any_reportable_change, binary_note, binary_note_with_sizes,
    binary_result, conflict_note, conflict_side_name, exit_code, no_conflicts_message,
    prepare_source, report, same_bytes, same_path_warning, sort_by_display_path, Report, EXIT_BAD_ARGUMENTS,
    EXIT_FOUND_CHANGES, EXIT_SUCCESS,
};
use difftastic_api::text::{decimal_text, strip_cr};

fn text_result(lhs: &str, rhs: &str, format: FileFormat, syntactic: bool, hunks: Vec<u32>) -> DiffResult<u32, u32> {
    DiffResult {
        extra_info: None,
        display_path: "f".to_owned(),
        file_format: format,
        lhs_src: FileContent::Text(lhs.to_owned()),
        rhs_src: FileContent::Text(rhs.to_owned()),
        lhs_positions: vec![],
        rhs_positions: vec![],
        hunks,
        has_byte_changes: if lhs == rhs { None } else { Some((lhs.len(), rhs.len())) },
        has_syntactic_changes: syntactic,
    }
}

#[test]
fn exit_codes() {
    assert_eq!(exit_code(true, true), EXIT_FOUND_CHANGES);
    assert_eq!(exit_code(true, false), EXIT_SUCCESS);
    assert_eq!(exit_code(false, true), EXIT_SUCCESS);
    assert_eq!(exit_code(false, false), 0);
    assert_eq!(EXIT_FOUND_CHANGES, 1);
    assert_eq!(EXIT_BAD_ARGUMENTS, 2);
}

#[test]
fn same_path_warnings() {
    assert_eq!(same_path_warning(true), "You've specified the same directory twice.");
    assert_eq!(same_path_warning(false), "You've specified the same file twice.");
}

#[test]
fn decimal_numbers() {
    assert_eq!(decimal_text(0), "0");
    assert_eq!(decimal_text(7), "7");
    assert_eq!(decimal_text(10), "10");
    assert_eq!(decimal_text(4096), "4096");
    assert_eq!(decimal_text(usize::MAX), usize::MAX.to_string());
}

#[test]
fn carriage_returns_are_removed() {
    assert_eq!(strip_cr("a\r\nb\r\n"), "a\nb\n");
    assert_eq!(strip_cr("\r"), "");
    assert_eq!(strip_cr("é\rx"), "éx");
    assert_eq!(strip_cr(&strip_cr("a\r\r\n")), strip_cr("a\r\r\n"));
}

#[test]
fn sources_are_prepared() {
    assert_eq!(prepare_source("a\r\nb".to_owned(), true), "a\nb\n");
    assert_eq!(prepare_source("a\r\nb".to_owned(), false), "a\r\nb\n");
    assert_eq!(prepare_source(String::new(), true), "");
    assert_eq!(prepare_source("x\n".to_owned(), false), "x\n");
    assert_eq!(prepare_source("\r".to_owned(), true), "");
    let once = prepare_source("a\r".to_owned(), true);
    assert_eq!(prepare_source(once.clone(), true), once);
}

#[test]
fn permissions_notes() {
    assert_eq!(add_permissions_note(None, "100644", "100644"), None);
    assert_eq!(
        add_permissions_note(None, "100644", "100755").as_deref(),
        Some("File permissions changed from 100644 to 100755.")
    );
    assert_eq!(
        add_permissions_note(Some("Renamed from a".to_owned()), "100644", "100755").as_deref(),
        Some("Renamed from a\nFile permissions changed from 100644 to 100755.")
    );
    assert_eq!(
        add_permissions_note(Some("kept".to_owned()), "x", "x").as_deref(),
        Some("kept")
    );
}

#[test]
fn conflict_notes() {
    assert_eq!(conflict_side_name(&Some("HEAD".to_owned()), "the left file"), "'HEAD'");
    assert_eq!(conflict_side_name(&None, "the left file"), "the left file");
    assert_eq!(
        conflict_note(&Some("HEAD".to_owned()), &None),
        "Showing the result of replacing every conflict in 'HEAD' with the right file."
    );
    assert_eq!(
        conflict_note(&None, &Some("feature".to_owned())),
        "Showing the result of replacing every conflict in the left file with 'feature'."
    );
    assert_eq!(
        no_conflicts_message("<<<<<<<"),
        "Difftastic requires two paths, or a single file with conflict markers <<<<<<<.\n"
    );
}

#[test]
fn byte_comparison() {
    assert!(same_bytes(b"abc", b"abc"));
    assert!(!same_bytes(b"abc", b"abd"));
    assert!(!same_bytes(b"ab", b"abc"));
    assert!(same_bytes(b"", b""));
}

#[test]
fn binary_results() {
    let changed: DiffResult<u32, u32> = binary_result("img.png", None, &[1, 2, 3], &[1, 2]);
    assert!(matches!(changed.file_format, FileFormat::Binary));
    assert!(matches!(changed.lhs_src, FileContent::Binary));
    assert_eq!(changed.has_byte_changes, Some((3, 2)));
    assert!(!changed.has_syntactic_changes);
    assert!(changed.has_reportable_change());

    let same: DiffResult<u32, u32> = binary_result("img.png", Some("x".to_owned()), &[1], &[1]);
    assert_eq!(same.has_byte_changes, None);
    assert_eq!(same.extra_info.as_deref(), Some("x"));
    assert!(!same.has_reportable_change());
}

#[test]
fn binary_notes() {
    assert_eq!(binary_note(Some((0, 1024))), "Binary file added (1 KiB).\n");
    assert_eq!(binary_note(Some((1536, 0))), "Binary file removed (1.5 KiB).\n");
    assert_eq!(
        binary_note(Some((10, 2048))),
        "Binary file modified (old: 10 B, new: 2 KiB).\n"
    );
    assert_eq!(binary_note(None), "No changes.\n");
    assert_eq!(
        binary_note_with_sizes(Some((1, 2)), "one", "two"),
        "Binary file modified (old: one, new: two).\n"
    );
}

fn note_of(r: Report) -> String {
    match r {
        Report::Note(s) => s,
        other => panic!("expected a note, got {:?}", other),
    }
}

#[test]
fn reports_for_text() {
    let rust = FileFormat::SupportedLanguage(Language(1));
    let unchanged = text_result("a", "a", rust.clone(), false, vec![]);
    assert_eq!(note_of(report(&unchanged, true)), "No changes.\n");
    assert!(matches!(report(&unchanged, false), Report::Silent));

    let reformatted = text_result("a", "a ", rust.clone(), false, vec![]);
    assert_eq!(note_of(report(&reformatted, true)), "No syntactic changes.\n");

    let text_same = text_result("a", "a ", FileFormat::PlainText, false, vec![]);
    assert_eq!(note_of(report(&text_same, true)), "No changes.\n");

    let changed_no_hunks = text_result("a", "b", rust.clone(), true, vec![]);
    assert_eq!(note_of(report(&changed_no_hunks, false)), "Has syntactic changes.\n");
    let text_changed = text_result("a", "b", FileFormat::PlainText, true, vec![]);
    assert_eq!(note_of(report(&text_changed, false)), "Has changes.\n");

    let with_hunks = text_result("a", "b", rust, true, vec![1]);
    assert!(matches!(report(&with_hunks, false), Report::Hunks));
}

#[test]
fn reports_for_binary() {
    let changed: DiffResult<u32, u32> = binary_result("b", None, &[], &[0; 1024]);
    assert_eq!(note_of(report(&changed, false)), "Binary file added (1 KiB).\n");
    let same: DiffResult<u32, u32> = binary_result("b", None, &[1], &[1]);
    assert!(matches!(report(&same, false), Report::Silent));
    assert_eq!(note_of(report(&same, true)), "No changes.\n");
}

#[test]
fn reportable_changes() {
    let results = vec![
        text_result("a", "a", FileFormat::PlainText, false, vec![]),
        text_result("a", "b", FileFormat::PlainText, false, vec![]),
    ];
    assert!(!any_reportable_change(&results));
    let results = vec![
        text_result("a", "a", FileFormat::PlainText, false, vec![]),
        text_result("a", "b", FileFormat::PlainText, true, vec![1]),
    ];
    assert!(any_reportable_change(&results));
    let empty: Vec<DiffResult<u32, u32>> = vec![];
    assert!(!any_reportable_change(&empty));
}

#[test]
fn file_format_names() {
    assert_eq!(FileFormat::PlainText.display_text("Rust"), "Text");
    assert_eq!(FileFormat::Binary.display_text("Rust"), "Binary");
    assert_eq!(FileFormat::SupportedLanguage(Language(3)).display_text("Rust"), "Rust");
    assert_eq!(
        FileFormat::TextFallback { reason: "exceeded DFT_GRAPH_LIMIT".to_owned() }.display_text("Rust"),
        "Text (exceeded DFT_GRAPH_LIMIT)"
    );
}

#[test]
fn language_overrides() {
    assert_eq!(LanguageOverride::Language(Language(4)).language(), Some(Language(4)));
    assert_eq!(LanguageOverride::PlainText.language(), None);
}

#[test]
fn option_defaults() {
    let diff = DiffOptions::default();
    assert!(!diff.check_only && !diff.ignore_comments && !diff.strip_cr);
    assert_eq!(diff.graph_limit, 3_000_000);
    assert_eq!(diff.byte_limit, 1_000_000);
    assert_eq!(diff.parse_error_limit, 0);
    let display = DisplayOptions::default();
    assert_eq!(display.num_context_lines, 3);
    assert!(display.print_unchanged);
    assert_eq!(display.display_mode, DisplayMode::SideBySide);
}

#[test]
fn request_paths_and_responses() {
    let request = DiffRequest {
        lhs_content: "a".to_owned(),
        rhs_content: "b".to_owned(),
        display_path: None,
        language_override: None,
    };
    assert_eq!(request_display_path(&request), "unknown");
    let named = DiffRequest { display_path: Some("src/x.rs".to_owned()), ..request.clone() };
    assert_eq!(request_display_path(&named), "src/x.rs");

    let result = text_result("ab", "abc", FileFormat::SupportedLanguage(Language(2)), true, vec![5]);
    let hunk = HunkData {
        lhs_start_line: 4,
        rhs_start_line: 5,
        lhs_line_count: 2,
        rhs_line_count: 3,
        lines: vec![],
    };
    let response = response_from_result(&result, "Rust", vec![hunk]);
    assert_eq!(response.display_path, "f");
    assert_eq!(response.file_format, "Rust");
    assert!(response.has_syntactic_changes);
    assert!(response.has_byte_changes);
    assert_eq!(response.lhs_byte_len, Some(2));
    assert_eq!(response.rhs_byte_len, Some(3));
    assert_eq!(response.hunks.len(), 1);
    assert_eq!(response.hunks[0].lhs_start_line, 4);
    assert_eq!(response.hunks[0].rhs_line_count, 3);
}

#[test]
fn health_check() {
    let grpc: GrpcDiffService<String> = GrpcDiffService::new();
    let health = grpc.health();
    assert_eq!(health.status, "OK");
    assert_eq!(health.version, 1);
}

fn named(path: &str) -> DiffResult<u32, u32> {
    let mut r = text_result("a", "a", FileFormat::PlainText, false, vec![]);
    r.display_path = path.to_owned();
    r
}

#[test]
fn results_sort_by_path() {
    let results = vec![named("src/b.rs"), named("README"), named("src/a.rs"), named("src"), named("src/b.rs")];
    let sorted = sort_by_display_path(results);
    let paths: Vec<&str> = sorted.iter().map(|r| r.display_path.as_str()).collect();
    assert_eq!(paths, vec!["README", "src", "src/a.rs", "src/b.rs", "src/b.rs"]);
    let empty: Vec<DiffResult<u32, u32>> = sort_by_display_path(vec![]);
    assert!(empty.is_empty());
}

#[test]
fn sorting_matches_string_order() {
    let names = ["é", "z", "Z", "", "ab", "a", "abc", "ä"];
    let sorted = sort_by_display_path(names.iter().map(|n| named(n)).collect());
    let mut expected: Vec<String> = names.iter().map(|n| n.to_string()).collect();
    expected.sort();
    let got: Vec<String> = sorted.into_iter().map(|r| r.display_path).collect();
    assert_eq!(got, expected);
}

#[test]
fn byte_order() {
    assert!(bytes_le_exec(b"", b""));
    assert!(bytes_le_exec(b"ab", b"abc"));
    assert!(!bytes_le_exec(b"abc", b"ab"));
    assert!(bytes_le_exec(b"abd", b"abe"));
    assert!(!bytes_le_exec(b"b", b"abe"));
}

#[test]
fn override_languages() {
    assert_eq!(override_language(Some(LanguageOverride::Language(Language(5)))), Some(Language(5)));
    assert_eq!(override_language(Some(LanguageOverride::PlainText)), None);
    assert_eq!(override_language(None), None);
}
