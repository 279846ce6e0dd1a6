//! The request and response of the diff service, and the handling of one
//! request.

use vstd::prelude::*;
use vstd::string::*;

use crate::model::{
    format_text, DiffOptions, DiffResult, DisplayOptions, FileFormat, Language, LanguageOverride,
};
use crate::model::{default_diff_options, default_display_options};
use crate::service::{diffed, DiffEngine, DiffService};

verus! {

/// A request to compare two texts.
#[derive(Debug, Clone)]
pub struct DiffRequest {
    pub lhs_content: String,
    pub rhs_content: String,
    pub display_path: Option<String>,
    pub language_override: Option<String>,
}

/// The summary of a comparison that the service answers with.
#[derive(Debug, Clone)]
pub struct DiffResponse {
    pub display_path: String,
    pub file_format: String,
    pub has_syntactic_changes: bool,
    pub has_byte_changes: bool,
    pub lhs_byte_len: Option<usize>,
    pub rhs_byte_len: Option<usize>,
    pub hunks: Vec<HunkData>,
}

/// One group of changed lines.
#[derive(Debug, Clone)]
pub struct HunkData {
    pub lhs_start_line: u32,
    pub rhs_start_line: u32,
    pub lhs_line_count: u32,
    pub rhs_line_count: u32,
    pub lines: Vec<LineData>,
}

/// One line of a hunk, from either side or both.
#[derive(Debug, Clone)]
pub struct LineData {
    pub lhs_line: Option<String>,
    pub rhs_line: Option<String>,
    pub lhs_line_num: Option<u32>,
    pub rhs_line_num: Option<u32>,
    pub change_type: ChangeType,
}

/// How a line changed.
#[derive(Debug, Clone, Copy, PartialEq, Eq, Structural)]
pub enum ChangeType {
    Equal,
    Inserted,
    Deleted,
    Modified,
}

/// The path a request is shown under: its own, or `unknown`.
pub open spec fn request_path_text(request: DiffRequest) -> Seq<char> {
    match request.display_path {
        Some(path) => path@,
        None => "unknown"@,
    }
}

/// The path under which a request's comparison is shown.
pub fn request_display_path(request: &DiffRequest) -> (path: String)
    ensures
        path@ == request_path_text(*request),
{
    match &request.display_path {
        Some(path) => path.clone(),
        None => String::from_str("unknown"),
    }
}

/// `response` summarises `result`, with `language_name` the name of the
/// language of a supported-language result.
pub open spec fn summarises<P, H>(
    response: DiffResponse,
    result: DiffResult<P, H>,
    language_name: Seq<char>,
) -> bool {
    &&& response.display_path@ == result.display_path@
    &&& response.file_format@ == format_text(result.file_format, language_name)
    &&& response.has_syntactic_changes == result.has_syntactic_changes
    &&& response.has_byte_changes == result.has_byte_changes is Some
    &&& response.lhs_byte_len == (match result.has_byte_changes {
        Some((lhs, _)) => Some(lhs),
        None => None,
    })
    &&& response.rhs_byte_len == (match result.has_byte_changes {
        Some((_, rhs)) => Some(rhs),
        None => None,
    })
    &&& response.hunks@.len() == result.hunks@.len()
}

/// The response that summarises `result` with the given hunk data;
/// `language_name` names the language of a supported-language result.
pub fn response_from_result<P, H>(
    result: &DiffResult<P, H>,
    language_name: &str,
    hunks: Vec<HunkData>,
) -> (response: DiffResponse)
    requires
        hunks@.len() == result.hunks@.len(),
    ensures
        summarises(response, *result, language_name@),
        response.hunks == hunks,
{
    DiffResponse {
        display_path: result.display_path.clone(),
        file_format: result.file_format.display_text(language_name),
        has_syntactic_changes: result.has_syntactic_changes,
        has_byte_changes: result.has_byte_changes.is_some(),
        lhs_byte_len: match result.has_byte_changes {
            Some((lhs, _)) => Some(lhs),
            None => None,
        },
        rhs_byte_len: match result.has_byte_changes {
            Some((_, rhs)) => Some(rhs),
            None => None,
        },
        hunks,
    }
}

/// `hunks` holds the engine's data for each hunk of `result`, in order.
pub open spec fn hunks_rendered<E: DiffEngine>(
    engine: &E,
    hunks: Seq<HunkData>,
    result: DiffResult<E::Position, E::Hunk>,
) -> bool {
    &&& hunks.len() == result.hunks@.len()
    &&& forall|i: int|
        0 <= i < hunks.len() ==> call_ensures(
            E::hunk_data,
            (engine, &result.hunks@[i]),
            #[trigger] hunks[i],
        )
}

/// The engine's data for each hunk of `result`.
pub fn render_hunks<E: DiffEngine>(engine: &E, result: &DiffResult<E::Position, E::Hunk>) -> (hunks:
    Vec<HunkData>)
    ensures
        hunks_rendered(engine, hunks@, *result),
{
    let mut hunks: Vec<HunkData> = Vec::new();
    let mut i: usize = 0;
    while i < result.hunks.len()
        invariant
            i <= result.hunks@.len(),
            hunks@.len() == i,
            forall|j: int|
                0 <= j < i ==> call_ensures(
                    E::hunk_data,
                    (engine, &result.hunks@[j]),
                    #[trigger] hunks@[j],
                ),
        decreases result.hunks@.len() - i,
    {
        let data = engine.hunk_data(&result.hunks[i]);
        hunks.push(data);
        i = i + 1;
    }
    hunks
}

/// `response` answers for `result`: the engine named the language of a
/// supported-language result `name`, and rendered every hunk.
pub open spec fn answered_with<E: DiffEngine>(
    engine: &E,
    response: DiffResponse,
    result: DiffResult<E::Position, E::Hunk>,
    name: String,
) -> bool {
    &&& (result.file_format matches FileFormat::SupportedLanguage(l) ==> call_ensures(
        E::language_name,
        (engine, l),
        name,
    ))
    &&& summarises(response, result, name@)
    &&& hunks_rendered(engine, response.hunks@, result)
}

/// `response` answers for `result`.
pub open spec fn answered<E: DiffEngine>(
    engine: &E,
    response: DiffResponse,
    result: DiffResult<E::Position, E::Hunk>,
) -> bool {
    exists|name: String| #[trigger] answered_with(engine, response, result, name)
}


/// The language that a recognised override selects: none for plain text or
/// for an unknown name.
pub open spec fn selected_language(found: Option<LanguageOverride>) -> Option<Language> {
    match found {
        Some(LanguageOverride::Language(l)) => Some(l),
        _ => None,
    }
}

/// The language that a recognised override selects.
pub fn override_language(found: Option<LanguageOverride>) -> (language: Option<Language>)
    ensures
        language == selected_language(found),
{
    match found {
        Some(language_override) => language_override.language(),
        None => None,
    }
}

/// The engine took `name` for the override `found`.
pub open spec fn looked_up<E: DiffEngine>(engine: &E, name: &str, found: Option<LanguageOverride>) -> bool {
    call_ensures(E::language_override_from_name, (engine, name), found)
}

/// `language` is what the request's override selects: nothing without one,
/// else the language of the override that the engine took its name for.
pub open spec fn requested<E: DiffEngine>(
    engine: &E,
    request: DiffRequest,
    language: Option<Language>,
) -> bool {
    match request.language_override {
        None => language is None,
        Some(name) => exists|s: &str, found: Option<LanguageOverride>|
            #[trigger] looked_up(engine, s, found) && s@ == name@ && language == selected_language(
                found,
            ),
    }
}

/// The language that a request names, if the engine knows the name and it
/// names a language rather than plain text.
pub fn requested_language<E: DiffEngine>(engine: &E, request: &DiffRequest) -> (language: Option<
    Language,
>)
    ensures
        requested(engine, *request, language),
{
    match &request.language_override {
        Some(name) => {
            let s = name.as_str();
            let found = engine.language_override_from_name(s);
            assert(looked_up(engine, s, found));
            override_language(found)
        },
        None => None,
    }
}

/// `response` answers `request`: its texts, shown at its path, were compared
/// with the default options in the language it asked for, which took the
/// cache from `before` to `after`, and the response answers for that result.
pub open spec fn responded_with<E: DiffEngine>(
    engine: &E,
    request: DiffRequest,
    response: DiffResponse,
    before: Map<Language, E::Config>,
    after: Map<Language, E::Config>,
    lhs: &str,
    rhs: &str,
    path: &str,
    language: Option<Language>,
    result: DiffResult<E::Position, E::Hunk>,
) -> bool {
    &&& lhs@ == request.lhs_content@
    &&& rhs@ == request.rhs_content@
    &&& path@ == request_path_text(request)
    &&& requested(engine, request, language)
    &&& diffed(
        engine,
        result,
        before,
        after,
        lhs,
        rhs,
        path,
        language,
        default_diff_options(),
        default_display_options(),
    )
    &&& result.extra_info is None
    &&& answered(engine, response, result)
}

/// `response` answers `request`, and the cache went from `before` to `after`.
pub open spec fn responded<E: DiffEngine>(
    engine: &E,
    request: DiffRequest,
    response: DiffResponse,
    before: Map<Language, E::Config>,
    after: Map<Language, E::Config>,
) -> bool {
    exists|
        lhs: &str,
        rhs: &str,
        path: &str,
        language: Option<Language>,
        result: DiffResult<E::Position, E::Hunk>,
    |
        #[trigger] responded_with(
            engine,
            request,
            response,
            before,
            after,
            lhs,
            rhs,
            path,
            language,
            result,
        )
}

impl<C> DiffService<C> {
    /// Answers a request: compares its two texts with the default options and
    /// summarises the result.
    pub fn respond<E: DiffEngine<Config = C>>(&mut self, engine: &E, request: &DiffRequest) -> (response: DiffResponse)
        ensures
            responded(engine, *request, response, old(self).configs(), final(self).configs()),
    {
        let ghost before = self.configs();
        let diff_options = DiffOptions::default();
        let display_options = DisplayOptions::default();
        let language_override = requested_language(engine, request);
        let display_path = request_display_path(request);
        let lhs = request.lhs_content.as_str();
        let rhs = request.rhs_content.as_str();
        let path = display_path.as_str();
        let result = self.diff(
            engine,
            lhs,
            rhs,
            path,
            language_override,
            &diff_options,
            &display_options,
        );
        let language_name = match result.file_format {
            FileFormat::SupportedLanguage(language) => engine.language_name(language),
            _ => String::new(),
        };
        let hunks = render_hunks(engine, &result);
        let response = response_from_result(&result, language_name.as_str(), hunks);
        assert(answered_with(engine, response, result, language_name));
        assert(responded_with(engine, *request, response, before, self.configs(), lhs, rhs, path,
            language_override, result));
        response
    }
}

/// The state that a health check reports.
#[derive(Debug, Clone)]
pub struct HealthStatus {
    pub status: String,
    pub version: u32,
}

/// The service behind the RPC interface.
pub struct GrpcDiffService<C> {
    pub service: DiffService<C>,
}

impl<C> GrpcDiffService<C> {
    /// An RPC service around a fresh diff service.
    pub fn new() -> (grpc: Self)
        ensures
            grpc.service.configs() == Map::<Language, C>::empty(),
    {
        GrpcDiffService { service: DiffService::new() }
    }

    /// Answers a diff call.
    pub fn diff<E: DiffEngine<Config = C>>(&mut self, engine: &E, request: &DiffRequest) -> (response: DiffResponse)
        ensures
            responded(
                engine,
                *request,
                response,
                old(self).service.configs(),
                final(self).service.configs(),
            ),
    {
        self.service.respond(engine, request)
    }

    /// Answers a health check: the service is up.
    pub fn health(&self) -> (health: HealthStatus)
        ensures
            health.status@ == "OK"@,
            health.version == 1,
    {
        HealthStatus { status: String::from_str("OK"), version: 1 }
    }
}

} // verus!
