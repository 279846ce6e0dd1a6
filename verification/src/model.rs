//! The values that a diff produces and the options that steer it.

use vstd::prelude::*;
use vstd::string::*;

verus! {

/// A language that the syntax engine can parse, by its index in the engine's
/// language table.
#[derive(Clone, Copy, Debug, PartialEq, Eq, Structural, Hash)]
pub struct Language(pub u32);

/// A language named by the user in place of the guessed one.
#[derive(Clone, Copy, Debug, PartialEq, Eq, Structural)]
pub enum LanguageOverride {
    Language(Language),
    PlainText,
}

impl LanguageOverride {
    /// The language that the override selects; plain text selects none.
    pub fn language(self) -> (language: Option<Language>)
        ensures
            language == (match self {
                LanguageOverride::Language(l) => Some(l),
                LanguageOverride::PlainText => None,
            }),
    {
        match self {
            LanguageOverride::Language(l) => Some(l),
            LanguageOverride::PlainText => None,
        }
    }
}

/// How the two sides were compared.
#[derive(Debug)]
pub enum FileFormat {
    SupportedLanguage(Language),
    PlainText,
    TextFallback { reason: String },
    Binary,
}

impl Clone for FileFormat {
    fn clone(&self) -> (copy: Self)
        ensures
            copy == *self,
    {
        match self {
            FileFormat::SupportedLanguage(l) => FileFormat::SupportedLanguage(*l),
            FileFormat::PlainText => FileFormat::PlainText,
            FileFormat::TextFallback { reason } => FileFormat::TextFallback { reason: reason.clone() },
            FileFormat::Binary => FileFormat::Binary,
        }
    }
}

/// The name under which a file format is shown, given the name of the
/// language for a supported language.
pub open spec fn format_text(format: FileFormat, language_name: Seq<char>) -> Seq<char> {
    match format {
        FileFormat::SupportedLanguage(_) => language_name,
        FileFormat::PlainText => "Text"@,
        FileFormat::TextFallback { reason } => "Text ("@ + reason@ + ")"@,
        FileFormat::Binary => "Binary"@,
    }
}

impl FileFormat {
    /// The name under which this format is shown; `language_name` names the
    /// language of a supported-language format.
    pub fn display_text(&self, language_name: &str) -> (text: String)
        ensures
            text@ == format_text(*self, language_name@),
    {
        match self {
            FileFormat::SupportedLanguage(_) => language_name.to_owned(),
            FileFormat::PlainText => String::from_str("Text"),
            FileFormat::TextFallback { reason } => {
                let mut text = String::from_str("Text (");
                text.append(reason.as_str());
                text.append(")");
                text
            },
            FileFormat::Binary => String::from_str("Binary"),
        }
    }
}

/// The content of one side of a diff.
#[derive(Debug)]
pub enum FileContent {
    Text(String),
    Binary,
}

impl Clone for FileContent {
    fn clone(&self) -> (copy: Self)
        ensures
            copy == *self,
    {
        match self {
            FileContent::Text(s) => FileContent::Text(s.clone()),
            FileContent::Binary => FileContent::Binary,
        }
    }
}

/// The side holds exactly the text `t`.
pub open spec fn is_text(content: FileContent, t: Seq<char>) -> bool {
    content matches FileContent::Text(s) && s@ == t
}

/// The outcome of comparing two files. `P` is the type of the changed
/// positions on one side, `H` the type of a displayed hunk.
#[derive(Debug)]
pub struct DiffResult<P, H> {
    pub extra_info: Option<String>,
    pub display_path: String,
    pub file_format: FileFormat,
    pub lhs_src: FileContent,
    pub rhs_src: FileContent,
    pub lhs_positions: Vec<P>,
    pub rhs_positions: Vec<P>,
    pub hunks: Vec<H>,
    /// The byte lengths of both sides when their bytes differ.
    pub has_byte_changes: Option<(usize, usize)>,
    pub has_syntactic_changes: bool,
}

/// Options that steer the comparison itself.
#[derive(Clone, Copy, Debug)]
pub struct DiffOptions {
    pub graph_limit: usize,
    pub byte_limit: usize,
    pub parse_error_limit: usize,
    pub check_only: bool,
    pub ignore_comments: bool,
    pub strip_cr: bool,
}

/// The options a comparison runs with when none are given.
pub open spec fn default_diff_options() -> DiffOptions {
    DiffOptions {
        graph_limit: 3_000_000,
        byte_limit: 1_000_000,
        parse_error_limit: 0,
        check_only: false,
        ignore_comments: false,
        strip_cr: false,
    }
}

impl Default for DiffOptions {
    fn default() -> (options: Self)
        ensures
            options == default_diff_options(),
    {
        DiffOptions {
            graph_limit: 3_000_000,
            byte_limit: 1_000_000,
            parse_error_limit: 0,
            check_only: false,
            ignore_comments: false,
            strip_cr: false,
        }
    }
}

/// How a diff is laid out.
#[derive(Clone, Copy, Debug, PartialEq, Eq, Structural)]
pub enum DisplayMode {
    Inline,
    SideBySide,
    SideBySideShowBoth,
    Json,
}

/// Options that steer how a diff is shown.
#[derive(Clone, Copy, Debug)]
pub struct DisplayOptions {
    pub use_color: bool,
    pub print_unchanged: bool,
    pub display_mode: DisplayMode,
    pub num_context_lines: u32,
    pub sort_paths: bool,
}

/// The display options used when none are given.
pub open spec fn default_display_options() -> DisplayOptions {
    DisplayOptions {
        use_color: false,
        print_unchanged: true,
        display_mode: DisplayMode::SideBySide,
        num_context_lines: 3,
        sort_paths: false,
    }
}

impl Default for DisplayOptions {
    fn default() -> (options: Self)
        ensures
            options == default_display_options(),
    {
        DisplayOptions {
            use_color: false,
            print_unchanged: true,
            display_mode: DisplayMode::SideBySide,
            num_context_lines: 3,
            sort_paths: false,
        }
    }
}

} // verus!
