use std::cell::Cell;

use difftastic_api::api::{ChangeType, DiffRequest, GrpcDiffService, HunkData, LineData};

use difftastic_api::model::{
    DiffOptions, DisplayOptions, FileContent, FileFormat, Language, LanguageOverride,
};
use difftastic_api::report::{ConflictFiles, ProbableFileKind};
use difftastic_api::service::{
    byte_change_lengths, byte_limit_reason, byte_limit_reason_for, check_only_text,
    finished_result, graph_limit_reason, parse_error_reason, syntax_check_result,
    unchanged_result, DiffEngine, DiffService, ParseOutcome,
};

const RUST: Language = Language(7);

/// An engine whose answers are fixed in advance.
struct FakeEngine {
    parse: Cell<Option<ParseOutcome<u32>>>,
    syntax_differs: bool,
    syntax_positions: Option<(Vec<u32>, Vec<u32>)>,
    guess: Option<Language>,
    configs_built: Cell<usize>,
}

impl FakeEngine {
    fn new() -> Self {
        FakeEngine {
            parse: Cell::new(None),
            syntax_differs: true,
            syntax_positions: Some((vec![1, 2], vec![3])),
            guess: None,
            configs_built: Cell::new(0),
        }
    }

    fn parsing_to(outcome: ParseOutcome<u32>) -> Self {
        let engine = FakeEngine::new();
        engine.parse.set(Some(outcome));
        engine
    }
}

impl DiffEngine for FakeEngine {
    type Config = String;
    type Position = u32;
    type Hunk = (usize, usize);
    type Trees = u32;

    fn guess_language(&self, _path: &str, _src: &str) -> Option<Language> {
        self.guess
    }

    fn language_override_from_name(&self, name: &str) -> Option<LanguageOverride> {
        match name {
            "rust" => Some(LanguageOverride::Language(RUST)),
            "text" => Some(LanguageOverride::PlainText),
            _ => None,
        }
    }

    fn language_name(&self, _language: Language) -> String {
        "Rust".to_owned()
    }

    fn language_config(&self, language: Language) -> String {
        self.configs_built.set(self.configs_built.get() + 1);
        format!("config {}", language.0)
    }

    fn parse(&self, _config: &String, _lhs: &str, _rhs: &str, _options: &DiffOptions) -> ParseOutcome<u32> {
        self.parse.take().unwrap_or(ParseOutcome::Parsed(0))
    }

    fn syntax_differs(&self, _trees: &u32) -> bool {
        self.syntax_differs
    }

    fn syntax_positions(
        &self,
        _trees: u32,
        _config: &String,
        _lhs: &str,
        _rhs: &str,
        _options: &DiffOptions,
    ) -> Option<(Vec<u32>, Vec<u32>)> {
        self.syntax_positions.clone()
    }

    fn line_positions(&self, src: &str, _other: &str) -> Vec<u32> {
        vec![src.len() as u32]
    }

    fn hunk_data(&self, hunk: &(usize, usize)) -> HunkData {
        HunkData {
            lhs_start_line: hunk.0 as u32,
            rhs_start_line: hunk.1 as u32,
            lhs_line_count: 1,
            rhs_line_count: 1,
            lines: vec![LineData {
                lhs_line: Some(format!("left {}", hunk.0)),
                rhs_line: Some(format!("right {}", hunk.1)),
                lhs_line_num: Some(hunk.0 as u32),
                rhs_line_num: Some(hunk.1 as u32),
                change_type: ChangeType::Modified,
            }],
        }
    }

    fn hunks(
        &self,
        lhs_positions: &Vec<u32>,
        rhs_positions: &Vec<u32>,
        _lhs: &str,
        _rhs: &str,
        _num_context_lines: u32,
    ) -> Vec<(usize, usize)> {
        if lhs_positions.is_empty() && rhs_positions.is_empty() {
            vec![]
        } else {
            vec![(lhs_positions.len(), rhs_positions.len())]
        }
    }
}

fn text_of(content: &FileContent) -> Option<&str> {
    match content {
        FileContent::Text(s) => Some(s.as_str()),
        FileContent::Binary => None,
    }
}

#[test]
fn identical_inputs_give_an_empty_result() {
    let engine = FakeEngine::new();
    let mut service: DiffService<String> = DiffService::new();
    let result = service.diff(
        &engine,
        "fn main() {}\n",
        "fn main() {}\n",
        "main.rs",
        Some(RUST),
        &DiffOptions::default(),
        &DisplayOptions::default(),
    );
    assert_eq!(result.display_path, "main.rs");
    assert!(matches!(result.file_format, FileFormat::SupportedLanguage(RUST)));
    assert_eq!(text_of(&result.lhs_src), Some(""));
    assert_eq!(text_of(&result.rhs_src), Some(""));
    assert!(result.hunks.is_empty());
    assert_eq!(result.has_byte_changes, None);
    assert!(!result.has_syntactic_changes);
    assert!(!result.has_reportable_change());
    assert_eq!(engine.configs_built.get(), 0);
}

#[test]
fn plain_text_goes_line_by_line() {
    let engine = FakeEngine::new();
    let mut service: DiffService<String> = DiffService::new();
    let result = service.diff(
        &engine,
        "a\n",
        "abc\n",
        "notes.txt",
        None,
        &DiffOptions::default(),
        &DisplayOptions::default(),
    );
    assert!(matches!(result.file_format, FileFormat::PlainText));
    assert_eq!(result.lhs_positions, vec![2]);
    assert_eq!(result.rhs_positions, vec![4]);
    assert_eq!(result.hunks, vec![(1, 1)]);
    assert!(result.has_syntactic_changes);
    assert_eq!(result.has_byte_changes, Some((2, 4)));
    assert_eq!(text_of(&result.lhs_src), Some("a\n"));
    assert_eq!(text_of(&result.rhs_src), Some("abc\n"));
}

#[test]
fn guessed_language_is_used_without_override() {
    let mut engine = FakeEngine::new();
    engine.guess = Some(RUST);
    let mut service: DiffService<String> = DiffService::new();
    let result = service.diff(
        &engine,
        "a",
        "b",
        "x.rs",
        None,
        &DiffOptions::default(),
        &DisplayOptions::default(),
    );
    assert!(matches!(result.file_format, FileFormat::SupportedLanguage(RUST)));
    assert_eq!(result.lhs_positions, vec![1, 2]);
    assert_eq!(result.rhs_positions, vec![3]);
    assert_eq!(result.hunks, vec![(2, 1)]);
}

#[test]
fn check_only_plain_text_only_says_whether_it_differs() {
    let engine = FakeEngine::new();
    let mut service: DiffService<String> = DiffService::new();
    let mut options = DiffOptions::default();
    options.check_only = true;
    let result = service.diff(&engine, "a", "b", "f", None, &options, &DisplayOptions::default());
    assert!(matches!(result.file_format, FileFormat::PlainText));
    assert!(result.has_syntactic_changes);
    assert!(result.hunks.is_empty() && result.lhs_positions.is_empty());
    assert_eq!(result.has_byte_changes, Some((1, 1)));
}

#[test]
fn check_only_syntax_reports_the_tree_comparison() {
    let mut engine = FakeEngine::new();
    engine.syntax_differs = false;
    let mut service: DiffService<String> = DiffService::new();
    let mut options = DiffOptions::default();
    options.check_only = true;
    let result = service.diff(&engine, "a ", "a", "f", Some(RUST), &options, &DisplayOptions::default());
    assert!(matches!(result.file_format, FileFormat::SupportedLanguage(RUST)));
    assert!(!result.has_syntactic_changes);
    assert_eq!(result.has_byte_changes, Some((2, 1)));
}

#[test]
fn no_hunks_means_no_syntactic_changes() {
    let mut engine = FakeEngine::new();
    engine.syntax_positions = Some((vec![], vec![]));
    let mut service: DiffService<String> = DiffService::new();
    let result = service.diff(&engine, "a ", "a", "f", Some(RUST), &DiffOptions::default(), &DisplayOptions::default());
    assert!(matches!(result.file_format, FileFormat::SupportedLanguage(RUST)));
    assert!(!result.has_syntactic_changes);
    assert!(result.has_byte_changes.is_some());
}

#[test]
fn graph_limit_falls_back_to_text() {
    let mut engine = FakeEngine::new();
    engine.syntax_positions = None;
    let mut service: DiffService<String> = DiffService::new();
    let result = service.diff(&engine, "a", "bb", "f", Some(RUST), &DiffOptions::default(), &DisplayOptions::default());
    match &result.file_format {
        FileFormat::TextFallback { reason } => assert_eq!(reason, "exceeded DFT_GRAPH_LIMIT"),
        other => panic!("unexpected format {:?}", other),
    }
    assert_eq!(result.lhs_positions, vec![1]);
    assert_eq!(result.rhs_positions, vec![2]);
}

#[test]
fn parse_errors_fall_back_to_text() {
    let engine = FakeEngine::parsing_to(ParseOutcome::ExceededParseErrorLimit(3));
    let mut service: DiffService<String> = DiffService::new();
    let result = service.diff(&engine, "a", "b", "f", Some(RUST), &DiffOptions::default(), &DisplayOptions::default());
    match &result.file_format {
        FileFormat::TextFallback { reason } => {
            assert_eq!(reason, "3 Rust parse errors, exceeded DFT_PARSE_ERROR_LIMIT")
        }
        other => panic!("unexpected format {:?}", other),
    }
    assert!(result.has_syntactic_changes);
}

#[test]
fn parse_errors_with_check_only_stop_early() {
    let engine = FakeEngine::parsing_to(ParseOutcome::ExceededParseErrorLimit(1));
    let mut service: DiffService<String> = DiffService::new();
    let mut options = DiffOptions::default();
    options.check_only = true;
    let result = service.diff(&engine, "a", "b", "f", Some(RUST), &options, &DisplayOptions::default());
    match &result.file_format {
        FileFormat::TextFallback { reason } => {
            assert_eq!(reason, "1 Rust parse error, exceeded DFT_PARSE_ERROR_LIMIT")
        }
        other => panic!("unexpected format {:?}", other),
    }
    assert!(result.hunks.is_empty());
    assert!(result.has_syntactic_changes);
}

#[test]
fn large_inputs_fall_back_to_text() {
    let engine = FakeEngine::parsing_to(ParseOutcome::ExceededByteLimit(1536));
    let mut service: DiffService<String> = DiffService::new();
    let result = service.diff(&engine, "a", "b", "f", Some(RUST), &DiffOptions::default(), &DisplayOptions::default());
    match &result.file_format {
        FileFormat::TextFallback { reason } => assert_eq!(reason, "1.5 KiB exceeded DFT_BYTE_LIMIT"),
        other => panic!("unexpected format {:?}", other),
    }
}

#[test]
fn configurations_are_built_once_per_language() {
    let engine = FakeEngine::new();
    let mut service: DiffService<String> = DiffService::new();
    let first = service.get_config(&engine, RUST);
    let second = service.get_config(&engine, RUST);
    assert_eq!(*first, "config 7");
    assert!(std::sync::Arc::ptr_eq(&first, &second));
    assert_eq!(engine.configs_built.get(), 1);
    let other = service.get_config(&engine, Language(8));
    assert_eq!(*other, "config 8");
    assert_eq!(engine.configs_built.get(), 2);
    let again = service.get_config(&engine, RUST);
    assert!(std::sync::Arc::ptr_eq(&first, &again));
    assert_eq!(engine.configs_built.get(), 2);
}

#[test]
fn diffs_reuse_cached_configurations() {
    let engine = FakeEngine::new();
    let mut service: DiffService<String> = DiffService::new();
    let options = DiffOptions::default();
    let display = DisplayOptions::default();
    service.diff(&engine, "a", "b", "f", Some(RUST), &options, &display);
    service.diff(&engine, "c", "d", "g", Some(RUST), &options, &display);
    assert_eq!(engine.configs_built.get(), 1);
}

#[test]
fn check_only_text_values() {
    let result: difftastic_api::model::DiffResult<u32, u32> =
        check_only_text(&FileFormat::PlainText, "p", Some("info".to_owned()), "ab", "abc");
    assert_eq!(result.display_path, "p");
    assert_eq!(result.extra_info.as_deref(), Some("info"));
    assert!(matches!(result.file_format, FileFormat::PlainText));
    assert_eq!(text_of(&result.lhs_src), Some("ab"));
    assert_eq!(text_of(&result.rhs_src), Some("abc"));
    assert_eq!(result.has_byte_changes, Some((2, 3)));
    assert!(result.has_syntactic_changes);

    let same: difftastic_api::model::DiffResult<u32, u32> =
        check_only_text(&FileFormat::Binary, "p", None, "ab", "ab");
    assert_eq!(same.has_byte_changes, None);
    assert!(!same.has_syntactic_changes);
}

#[test]
fn byte_lengths_count_bytes_not_characters() {
    assert_eq!(byte_change_lengths("é", "e"), Some((2, 1)));
    assert_eq!(byte_change_lengths("é", "é"), None);
}

#[test]
fn unchanged_result_values() {
    let result: difftastic_api::model::DiffResult<u32, u32> = unchanged_result("q", None);
    assert!(matches!(result.file_format, FileFormat::PlainText));
    assert_eq!(result.display_path, "q");
    assert_eq!(result.has_byte_changes, None);
}

#[test]
fn syntax_check_result_values() {
    let result: difftastic_api::model::DiffResult<u32, u32> =
        syntax_check_result(RUST, "r", "x", "y", true);
    assert!(matches!(result.file_format, FileFormat::SupportedLanguage(RUST)));
    assert!(result.has_syntactic_changes);
    assert_eq!(result.has_byte_changes, Some((1, 1)));
}

#[test]
fn finished_result_has_changes_exactly_with_hunks() {
    let with: difftastic_api::model::DiffResult<u32, u32> =
        finished_result("f", FileFormat::PlainText, "a", "b", vec![1], vec![], vec![9]);
    assert!(with.has_syntactic_changes);
    assert_eq!(with.hunks, vec![9]);
    let without: difftastic_api::model::DiffResult<u32, u32> =
        finished_result("f", FileFormat::PlainText, "a", "b", vec![], vec![], vec![]);
    assert!(!without.has_syntactic_changes);
}

#[test]
fn fallback_reasons() {
    assert_eq!(graph_limit_reason(), "exceeded DFT_GRAPH_LIMIT");
    assert_eq!(
        parse_error_reason(0, "Python"),
        "0 Python parse errors, exceeded DFT_PARSE_ERROR_LIMIT"
    );
    assert_eq!(
        parse_error_reason(12, "C"),
        "12 C parse errors, exceeded DFT_PARSE_ERROR_LIMIT"
    );
    assert_eq!(byte_limit_reason("3 MiB"), "3 MiB exceeded DFT_BYTE_LIMIT");
    assert_eq!(byte_limit_reason_for(100), "100 B exceeded DFT_BYTE_LIMIT");
    assert_eq!(byte_limit_reason_for(2048), "2 KiB exceeded DFT_BYTE_LIMIT");
}

#[test]
fn requests_are_answered_with_a_summary() {
    let engine = FakeEngine::new();
    let mut service: DiffService<String> = DiffService::new();
    let request = DiffRequest {
        lhs_content: "a\n".to_owned(),
        rhs_content: "ab\n".to_owned(),
        display_path: None,
        language_override: None,
    };
    let response = service.respond(&engine, &request);
    assert_eq!(response.display_path, "unknown");
    assert_eq!(response.file_format, "Text");
    assert!(response.has_syntactic_changes);
    assert!(response.has_byte_changes);
    assert_eq!(response.lhs_byte_len, Some(2));
    assert_eq!(response.rhs_byte_len, Some(3));
    assert_eq!(response.hunks.len(), 1);
    assert_eq!(response.hunks[0].lhs_start_line, 1);
    assert_eq!(response.hunks[0].rhs_start_line, 1);
    assert_eq!(response.hunks[0].lines[0].lhs_line.as_deref(), Some("left 1"));

    let rust = DiffRequest {
        display_path: Some("lib.rs".to_owned()),
        language_override: Some("rust".to_owned()),
        ..request.clone()
    };
    let response = service.respond(&engine, &rust);
    assert_eq!(response.display_path, "lib.rs");
    assert_eq!(response.file_format, "Rust");
    assert_eq!(engine.configs_built.get(), 1);

    let same = DiffRequest {
        lhs_content: "x".to_owned(),
        rhs_content: "x".to_owned(),
        display_path: None,
        language_override: Some("text".to_owned()),
    };
    let response = service.respond(&engine, &same);
    assert_eq!(response.file_format, "Text");
    assert!(!response.has_syntactic_changes);
    assert!(!response.has_byte_changes);
    assert_eq!(response.lhs_byte_len, None);
    assert!(response.hunks.is_empty());
}

#[test]
fn grpc_service_answers_diff_calls() {
    let engine = FakeEngine::parsing_to(ParseOutcome::ExceededByteLimit(2048));
    let mut grpc: GrpcDiffService<String> = GrpcDiffService::new();
    let request = DiffRequest {
        lhs_content: "a".to_owned(),
        rhs_content: "b".to_owned(),
        display_path: Some("big.rs".to_owned()),
        language_override: Some("rust".to_owned()),
    };
    let response = grpc.diff(&engine, &request);
    assert_eq!(response.file_format, "Text (2 KiB exceeded DFT_BYTE_LIMIT)");
    assert_eq!(response.display_path, "big.rs");
}

#[test]
fn file_content_diffs_carry_extra_info() {
    let engine = FakeEngine::new();
    let mut service: DiffService<String> = DiffService::new();
    let result = service.diff_file_content(
        &engine,
        "f.txt",
        Some("Renamed".to_owned()),
        "a\n",
        "b\n",
        &DisplayOptions::default(),
        &DiffOptions::default(),
    );
    assert_eq!(result.extra_info.as_deref(), Some("Renamed"));
    assert!(result.has_syntactic_changes);
}

#[test]
fn binary_files_are_compared_by_bytes() {
    let engine = FakeEngine::new();
    let mut service: DiffService<String> = DiffService::new();
    let result = service.diff_file(
        &engine,
        "logo.png",
        Some("Renamed from old.png".to_owned()),
        &[1, 2, 3],
        &[1, 2],
        ProbableFileKind::Binary,
        ProbableFileKind::Text("ab".to_owned()),
        false,
        Some("100644"),
        Some("100755"),
        &DisplayOptions::default(),
        &DiffOptions::default(),
    );
    assert!(matches!(result.file_format, FileFormat::Binary));
    assert!(matches!(result.lhs_src, FileContent::Binary));
    assert_eq!(result.has_byte_changes, Some((3, 2)));
    assert!(!result.has_syntactic_changes);
    assert_eq!(result.extra_info.as_deref(), Some("Renamed from old.png"));
    assert_eq!(engine.configs_built.get(), 0);
}

#[test]
fn assumed_binary_text_files_are_compared_by_bytes() {
    let engine = FakeEngine::new();
    let mut service: DiffService<String> = DiffService::new();
    let result = service.diff_file(
        &engine,
        "a.txt",
        None,
        b"same",
        b"same",
        ProbableFileKind::Text("same".to_owned()),
        ProbableFileKind::Text("same".to_owned()),
        true,
        None,
        None,
        &DisplayOptions::default(),
        &DiffOptions::default(),
    );
    assert!(matches!(result.file_format, FileFormat::Binary));
    assert_eq!(result.has_byte_changes, None);
    assert!(!result.has_reportable_change());
}

#[test]
fn text_files_are_prepared_and_noted() {
    let engine = FakeEngine::new();
    let mut service: DiffService<String> = DiffService::new();
    let options = DiffOptions { strip_cr: true, ..DiffOptions::default() };
    let result = service.diff_file(
        &engine,
        "notes.txt",
        None,
        b"a\r\nb",
        b"a\nc",
        ProbableFileKind::Text("a\r\nb".to_owned()),
        ProbableFileKind::Text("a\nc".to_owned()),
        false,
        Some("100644"),
        Some("100755"),
        &DisplayOptions::default(),
        &options,
    );
    assert!(matches!(result.file_format, FileFormat::PlainText));
    assert_eq!(text_of(&result.lhs_src), Some("a\nb\n"));
    assert_eq!(text_of(&result.rhs_src), Some("a\nc\n"));
    assert_eq!(
        result.extra_info.as_deref(),
        Some("File permissions changed from 100644 to 100755.")
    );
    assert!(result.has_syntactic_changes);
    assert_eq!(result.lhs_positions, vec![4]);
}

#[test]
fn text_files_differing_only_in_carriage_returns_are_unchanged() {
    let engine = FakeEngine::new();
    let mut service: DiffService<String> = DiffService::new();
    let options = DiffOptions { strip_cr: true, ..DiffOptions::default() };
    let result = service.diff_file(
        &engine,
        "notes.txt",
        None,
        b"a\r\n",
        b"a",
        ProbableFileKind::Text("a\r\n".to_owned()),
        ProbableFileKind::Text("a".to_owned()),
        false,
        Some("100644"),
        Some("100644"),
        &DisplayOptions::default(),
        &options,
    );
    assert_eq!(result.has_byte_changes, None);
    assert!(!result.has_syntactic_changes);
    assert_eq!(result.extra_info, None);
}

#[test]
fn conflict_files_without_conflicts_are_refused() {
    let engine = FakeEngine::new();
    let mut service: DiffService<String> = DiffService::new();
    let files = ConflictFiles {
        lhs_name: None,
        rhs_name: None,
        lhs_content: "x\n".to_owned(),
        rhs_content: "x\n".to_owned(),
        num_conflicts: 0,
    };
    let outcome = service.diff_conflicts_file(
        &engine,
        "merge.txt",
        &files,
        "<<<<<<<",
        &DisplayOptions::default(),
        &DiffOptions::default(),
    );
    assert_eq!(
        outcome.err().as_deref(),
        Some("Difftastic requires two paths, or a single file with conflict markers <<<<<<<.\n")
    );
}

#[test]
fn conflict_sides_are_compared_with_a_note() {
    let engine = FakeEngine::new();
    let mut service: DiffService<String> = DiffService::new();
    let files = ConflictFiles {
        lhs_name: Some("HEAD".to_owned()),
        rhs_name: Some("feature".to_owned()),
        lhs_content: "x\n".to_owned(),
        rhs_content: "y\n".to_owned(),
        num_conflicts: 1,
    };
    let result = service
        .diff_conflicts_file(
            &engine,
            "merge.txt",
            &files,
            "<<<<<<<",
            &DisplayOptions::default(),
            &DiffOptions::default(),
        )
        .ok()
        .unwrap();
    assert_eq!(
        result.extra_info.as_deref(),
        Some("Showing the result of replacing every conflict in 'HEAD' with 'feature'.")
    );
    assert_eq!(text_of(&result.lhs_src), Some("x\n"));
    assert!(result.has_syntactic_changes);
    assert_eq!(result.hunks, vec![(1, 1)]);
}

#[test]
fn results_do_not_depend_on_the_cache() {
    let engine = FakeEngine::new();
    let mut fresh: DiffService<String> = DiffService::new();
    let mut warm: DiffService<String> = DiffService::new();
    let _ = warm.diff(
        &engine,
        "a",
        "b",
        "other.rs",
        Some(RUST),
        &DiffOptions::default(),
        &DisplayOptions::default(),
    );
    let first = fresh.diff(
        &engine,
        "x\n",
        "y\n",
        "main.rs",
        Some(RUST),
        &DiffOptions::default(),
        &DisplayOptions::default(),
    );
    let second = warm.diff(
        &engine,
        "x\n",
        "y\n",
        "main.rs",
        Some(RUST),
        &DiffOptions::default(),
        &DisplayOptions::default(),
    );
    assert_eq!(first.display_path, second.display_path);
    assert!(matches!(first.file_format, FileFormat::SupportedLanguage(RUST)));
    assert!(matches!(second.file_format, FileFormat::SupportedLanguage(RUST)));
    assert_eq!(first.lhs_positions, second.lhs_positions);
    assert_eq!(first.rhs_positions, second.rhs_positions);
    assert_eq!(first.hunks, second.hunks);
    assert_eq!(first.has_byte_changes, second.has_byte_changes);
    assert_eq!(first.has_syntactic_changes, second.has_syntactic_changes);
    assert_eq!(engine.configs_built.get(), 2);
}
