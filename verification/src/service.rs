//! The diff service: a cache of per-language parser configurations and the
//! orchestration of one comparison.

use std::sync::Arc;
use vstd::prelude::*;
use vstd::string::*;
use vstd::utf8::encode_utf8;

use crate::api::HunkData;
use crate::model::{
    is_text, DiffOptions, DiffResult, DisplayOptions, FileContent, FileFormat, Language,
    LanguageOverride,
};
use crate::laws::{lemma_hunks_use_requested_context, lemma_override_decides_language};
use crate::size::{binary_size_text, format_binary_size};
use crate::text::{decimal, push_decimal, same_text};

verus! {

/// What parsing both sides came to.
pub enum ParseOutcome<T> {
    /// Both sides parsed; the parsed trees.
    Parsed(T),
    /// An input was larger than the byte limit (its size in bytes).
    ExceededByteLimit(usize),
    /// Parsing gave more errors than allowed (the number of errors).
    ExceededParseErrorLimit(usize),
}

/// The parsing, matching and layout machinery that a comparison drives.
/// The service decides what to ask for and how to combine the answers.
pub trait DiffEngine {
    /// A compiled parser configuration for one language.
    type Config;
    /// A changed position on one side.
    type Position;
    /// A group of changed lines with their context.
    type Hunk;
    /// The parsed syntax trees of both sides.
    type Trees;

    /// The language of a file, guessed from its path and content.
    fn guess_language(&self, path: &str, src: &str) -> Option<Language>;

    /// The language override that a user-supplied name stands for.
    fn language_override_from_name(&self, name: &str) -> Option<LanguageOverride>;

    /// The display name of a language.
    fn language_name(&self, language: Language) -> String;

    /// Builds the parser configuration for a language.
    fn language_config(&self, language: Language) -> Self::Config;

    /// Parses both sides, within the limits of `options`.
    fn parse(
        &self,
        config: &Self::Config,
        lhs: &str,
        rhs: &str,
        options: &DiffOptions,
    ) -> ParseOutcome<Self::Trees>;

    /// Whether the two parsed trees differ.
    fn syntax_differs(&self, trees: &Self::Trees) -> bool;

    /// The changed positions of each side found by matching the two trees,
    /// or nothing when the search exceeds the graph limit of `options`.
    fn syntax_positions(
        &self,
        trees: Self::Trees,
        config: &Self::Config,
        lhs: &str,
        rhs: &str,
        options: &DiffOptions,
    ) -> Option<(Vec<Self::Position>, Vec<Self::Position>)>;

    /// The changed positions of `src` in a line-oriented comparison with `other`.
    fn line_positions(&self, src: &str, other: &str) -> Vec<Self::Position>;

    /// The lines of one hunk, as the service reports them.
    fn hunk_data(&self, hunk: &Self::Hunk) -> HunkData;

    /// Groups changed positions into hunks with `num_context_lines` of context.
    fn hunks(
        &self,
        lhs_positions: &Vec<Self::Position>,
        rhs_positions: &Vec<Self::Position>,
        lhs: &str,
        rhs: &str,
        num_context_lines: u32,
    ) -> Vec<Self::Hunk>;
}

/// Shares a configuration (`Arc::clone`).
#[verifier::external_body]
fn share<C>(config: &Arc<C>) -> (shared: Arc<C>)
    ensures
        shared == *config,
{
    Arc::clone(config)
}

/// Holds the parser configurations built so far, at most one per language.
pub struct DiffService<C> {
    config_cache: Vec<(Language, Arc<C>)>,
}

/// The cache `cache` holds language `language` at index `i`.
pub open spec fn holds_at<C>(cache: Seq<(Language, Arc<C>)>, language: Language, i: int) -> bool {
    0 <= i < cache.len() && cache[i].0 == language
}

/// No language occurs twice in `cache`.
pub open spec fn languages_distinct<C>(cache: Seq<(Language, Arc<C>)>) -> bool {
    forall|i: int, j: int|
        0 <= i < cache.len() && 0 <= j < cache.len() && i != j ==> #[trigger] cache[i].0
            != #[trigger] cache[j].0
}

/// The configurations that `cache` holds, by language.
pub open spec fn config_map<C>(cache: Seq<(Language, Arc<C>)>) -> Map<Language, C> {
    Map::new(
        |l: Language| exists|i: int| holds_at(cache, l, i),
        |l: Language| *cache[choose|i: int| holds_at(cache, l, i)].1,
    )
}

/// Getting the configuration for `language` took the cache from `before` to
/// `after` and gave `config`: a cached configuration is given back and the
/// cache is left as it was; otherwise the new configuration is cached.
pub open spec fn fetched_config<C>(
    before: Map<Language, C>,
    after: Map<Language, C>,
    language: Language,
    config: C,
) -> bool {
    if before.contains_key(language) {
        &&& config == before[language]
        &&& after == before
    } else {
        after == before.insert(language, config)
    }
}

impl<C> DiffService<C> {
    #[verifier::type_invariant]
    spec fn cache_is_distinct(&self) -> bool {
        languages_distinct(self.config_cache@)
    }

    /// The configurations cached so far, by language.
    pub closed spec fn configs(&self) -> Map<Language, C> {
        config_map(self.config_cache@)
    }

    /// A service with no configuration cached.
    pub fn new() -> (service: Self)
        ensures
            service.configs() == Map::<Language, C>::empty(),
    {
        let service = DiffService { config_cache: Vec::new() };
        assert(service.configs() =~= Map::<Language, C>::empty());
        service
    }

    /// The configuration for `language`: the cached one, or else one that
    /// `engine` builds and that is then cached.
    pub fn get_config<E: DiffEngine<Config = C>>(&mut self, engine: &E, language: Language) -> (config: Arc<C>)
        ensures
            fetched_config(old(self).configs(), final(self).configs(), language, *config),
            !old(self).configs().contains_key(language) ==> call_ensures(
                E::language_config,
                (engine, language),
                *config,
            ),
    {
        proof {
            use_type_invariant(&*self);
        }
        let n = self.config_cache.len();
        let mut i: usize = 0;
        while i < n
            invariant
                n == self.config_cache@.len(),
                i <= n,
                languages_distinct(self.config_cache@),
                forall|j: int| 0 <= j < i ==> self.config_cache@[j].0 != language,
            decreases n - i,
        {
            if self.config_cache[i].0 == language {
                let config = share(&self.config_cache[i].1);
                assert(holds_at(self.config_cache@, language, i as int));
                return config;
            }
            i = i + 1;
        }
        assert(!self.configs().contains_key(language));
        let config = Arc::new(engine.language_config(language));
        let ghost before = self.config_cache@;
        let mut cache = Vec::new();
        std::mem::swap(&mut cache, &mut self.config_cache);
        cache.push((language, share(&config)));
        self.config_cache = cache;
        proof {
            let after = self.config_cache@;
            assert(after =~= before.push((language, config)));
            assert(languages_distinct(after)) by {
                assert forall|a: int, b: int|
                    0 <= a < after.len() && 0 <= b < after.len() && a != b implies #[trigger] after[a].0
                        != #[trigger] after[b].0 by {
                    if a < before.len() && b < before.len() {
                        assert(before[a].0 != before[b].0);
                    } else if a < before.len() {
                        assert(!holds_at(before, language, a));
                    } else if b < before.len() {
                        assert(!holds_at(before, language, b));
                    }
                }
            }
            assert forall|l: Language|
                #[trigger] config_map(after).contains_key(l) == (config_map(before).contains_key(l)
                    || l == language) by {
                if config_map(before).contains_key(l) {
                    let k = choose|k: int| holds_at(before, l, k);
                    assert(holds_at(after, l, k));
                }
                if l == language {
                    assert(holds_at(after, l, before.len() as int));
                }
                if config_map(after).contains_key(l) && l != language {
                    let k = choose|k: int| holds_at(after, l, k);
                    assert(holds_at(before, l, k));
                }
            }
            assert forall|l: Language| #[trigger] config_map(after).contains_key(l) implies config_map(
                after,
            )[l] == config_map(before).insert(language, *config)[l] by {
                let k1 = choose|k: int| holds_at(after, l, k);
                assert(holds_at(after, l, k1));
                if l == language {
                    assert(holds_at(after, l, before.len() as int));
                } else {
                    assert(holds_at(before, l, k1));
                    let k0 = choose|k: int| holds_at(before, l, k);
                    assert(holds_at(before, l, k0));
                }
            }
            assert(config_map(after) =~= config_map(before).insert(language, *config));
        }
        config
    }

    /// Compares `lhs_content` with `rhs_content`.
    ///
    /// The language is the override if one is given, else the engine's guess
    /// from the path and the right-hand side. Identical inputs give an empty
    /// result. Without a language, or when the syntax comparison gives up
    /// (input too large, too many parse errors, graph too large), the sides
    /// are compared line by line under a text format that says why; with
    /// `check_only` the comparison stops as soon as it is known whether the
    /// sides differ.
    pub fn diff<E: DiffEngine<Config = C>>(
        &mut self,
        engine: &E,
        lhs_content: &str,
        rhs_content: &str,
        display_path: &str,
        language_override: Option<Language>,
        diff_options: &DiffOptions,
        display_options: &DisplayOptions,
    ) -> (result: DiffResult<E::Position, E::Hunk>)
        ensures
            diffed(
                engine,
                result,
                old(self).configs(),
                final(self).configs(),
                lhs_content,
                rhs_content,
                display_path,
                language_override,
                *diff_options,
                *display_options,
            ),
            result.extra_info is None,
            language_override matches Some(l) ==> (result.file_format == FileFormat::SupportedLanguage(l)
                || result.file_format is TextFallback),
            language_override is None ==> exists|guess: Option<Language>|
                #[trigger] call_ensures(E::guess_language, (engine, display_path, rhs_content), guess)
                    && match guess {
                    None => result.file_format == FileFormat::PlainText,
                    Some(l) => result.file_format == FileFormat::SupportedLanguage(l)
                        || result.file_format is TextFallback,
                },
            lhs_content@ != rhs_content@ && !diff_options.check_only ==> call_ensures(
                E::hunks,
                (
                    engine,
                    &result.lhs_positions,
                    &result.rhs_positions,
                    lhs_content,
                    rhs_content,
                    display_options.num_context_lines,
                ),
                result.hunks,
            ),
    {
        let language = match language_override {
            Some(language) => Some(language),
            None => engine.guess_language(display_path, rhs_content),
        };
        let ghost before = self.configs();
        if same_text(lhs_content, rhs_content) {
            let result = unchanged_result(display_path, language);
            assert(diffed_as(engine, result, before, self.configs(), lhs_content, rhs_content,
                display_path, language_override, *diff_options, *display_options, language));
            proof {
                lemma_override_decides_language(engine, result, before, self.configs(), lhs_content,
                    rhs_content, display_path, language_override, *diff_options, *display_options);
            }
            return result;
        }
        match language {
            None => {
                let result = compare_as_text(
                    engine,
                    FileFormat::PlainText,
                    display_path,
                    lhs_content,
                    rhs_content,
                    diff_options,
                    display_options,
                );
                assert(diffed_as(engine, result, before, self.configs(), lhs_content, rhs_content,
                    display_path, language_override, *diff_options, *display_options, language));
                proof {
                    self.lemma_diff_guarantees(engine, result, before, lhs_content, rhs_content,
                        display_path, language_override, *diff_options, *display_options);
                }
                result
            },
            Some(language) => {
                let config = self.get_config(engine, language);
                let result = compare_in_language(
                    engine,
                    &*config,
                    language,
                    display_path,
                    lhs_content,
                    rhs_content,
                    diff_options,
                    display_options,
                );
                assert(compared_with_config(engine, result, before, self.configs(), language, *config,
                    display_path, lhs_content, rhs_content, *diff_options, *display_options));
                assert(diffed_as(engine, result, before, self.configs(), lhs_content, rhs_content,
                    display_path, language_override, *diff_options, *display_options, Some(language)));
                proof {
                    self.lemma_diff_guarantees(engine, result, before, lhs_content, rhs_content,
                        display_path, language_override, *diff_options, *display_options);
                }
                result
            },
        }
    }

    /// The language and hunk guarantees of a comparison that took the cache
    /// from `before` to the current one.
    proof fn lemma_diff_guarantees<E: DiffEngine<Config = C>>(
        &self,
        engine: &E,
        result: DiffResult<E::Position, E::Hunk>,
        before: Map<Language, C>,
        lhs: &str,
        rhs: &str,
        display_path: &str,
        language_override: Option<Language>,
        options: DiffOptions,
        display: DisplayOptions,
    )
        requires
            diffed(engine, result, before, self.configs(), lhs, rhs, display_path, language_override,
                options, display),
        ensures
            language_override matches Some(l) ==> (result.file_format == FileFormat::SupportedLanguage(l)
                || result.file_format is TextFallback),
            language_override is None ==> exists|guess: Option<Language>|
                #[trigger] call_ensures(E::guess_language, (engine, display_path, rhs), guess)
                    && match guess {
                    None => result.file_format == FileFormat::PlainText,
                    Some(l) => result.file_format == FileFormat::SupportedLanguage(l)
                        || result.file_format is TextFallback,
                },
            lhs@ != rhs@ && !options.check_only ==> call_ensures(
                E::hunks,
                (engine, &result.lhs_positions, &result.rhs_positions, lhs, rhs, display.num_context_lines),
                result.hunks,
            ),
    {
        lemma_override_decides_language(engine, result, before, self.configs(), lhs, rhs, display_path,
            language_override, options, display);
        if lhs@ != rhs@ && !options.check_only {
            lemma_hunks_use_requested_context(engine, result, before, self.configs(), lhs, rhs,
                display_path, language_override, options, display);
        }
    }
}

/// Groups the given positions into hunks and assembles the result.
pub fn assemble<E: DiffEngine>(
    engine: &E,
    file_format: FileFormat,
    display_path: &str,
    lhs_content: &str,
    rhs_content: &str,
    lhs_positions: Vec<E::Position>,
    rhs_positions: Vec<E::Position>,
    display_options: &DisplayOptions,
) -> (result: DiffResult<E::Position, E::Hunk>)
    ensures
        result.file_format == file_format,
        result.lhs_positions == lhs_positions,
        result.rhs_positions == rhs_positions,
        assembled(engine, result, display_path, lhs_content, rhs_content, *display_options),
        call_ensures(
            E::hunks,
            (
                engine,
                &result.lhs_positions,
                &result.rhs_positions,
                lhs_content,
                rhs_content,
                display_options.num_context_lines,
            ),
            result.hunks,
        ),
        result.extra_info is None,
{
    let hunks = engine.hunks(
        &lhs_positions,
        &rhs_positions,
        lhs_content,
        rhs_content,
        display_options.num_context_lines,
    );
    finished_result(
        display_path,
        file_format,
        lhs_content,
        rhs_content,
        lhs_positions,
        rhs_positions,
        hunks,
    )
}

/// Compares the two sides as text under `file_format`: with `check_only`
/// only whether they differ, otherwise line by line.
pub fn compare_as_text<E: DiffEngine>(
    engine: &E,
    file_format: FileFormat,
    display_path: &str,
    lhs_content: &str,
    rhs_content: &str,
    diff_options: &DiffOptions,
    display_options: &DisplayOptions,
) -> (result: DiffResult<E::Position, E::Hunk>)
    ensures
        result.file_format == file_format,
        compared_as_text(
            engine,
            result,
            display_path,
            lhs_content,
            rhs_content,
            *diff_options,
            *display_options,
        ),
        result.extra_info is None,
{
    if diff_options.check_only {
        return check_only_text(&file_format, display_path, None, lhs_content, rhs_content);
    }
    let lhs_positions = engine.line_positions(lhs_content, rhs_content);
    let rhs_positions = engine.line_positions(rhs_content, lhs_content);
    assemble(
        engine,
        file_format,
        display_path,
        lhs_content,
        rhs_content,
        lhs_positions,
        rhs_positions,
        display_options,
    )
}

/// Compares the two sides with the parser configuration `config` of
/// `language`, falling back to text where the syntax comparison gives up.
pub fn compare_in_language<E: DiffEngine>(
    engine: &E,
    config: &E::Config,
    language: Language,
    display_path: &str,
    lhs_content: &str,
    rhs_content: &str,
    diff_options: &DiffOptions,
    display_options: &DisplayOptions,
) -> (result: DiffResult<E::Position, E::Hunk>)
    ensures
        compared_in_language(
            engine,
            result,
            *config,
            language,
            display_path,
            lhs_content,
            rhs_content,
            *diff_options,
            *display_options,
        ),
        result.extra_info is None,
{
    let outcome = engine.parse(config, lhs_content, rhs_content, diff_options);
    let ghost parsed = outcome;
    let result = match outcome {
        ParseOutcome::Parsed(trees) => {
            let ghost trees_g = trees;
            if diff_options.check_only {
                let syntax_differs = engine.syntax_differs(&trees);
                let result = syntax_check_result(
                    language,
                    display_path,
                    lhs_content,
                    rhs_content,
                    syntax_differs,
                );
                assert(checked_syntax(engine, result, trees_g, language, display_path, lhs_content,
                    rhs_content, syntax_differs));
                result
            } else {
                let found = engine.syntax_positions(
                    trees,
                    config,
                    lhs_content,
                    rhs_content,
                    diff_options,
                );
                let ghost found_g = found;
                let result = match found {
                    Some((lhs_positions, rhs_positions)) => assemble(
                        engine,
                        FileFormat::SupportedLanguage(language),
                        display_path,
                        lhs_content,
                        rhs_content,
                        lhs_positions,
                        rhs_positions,
                        display_options,
                    ),
                    None => compare_as_text(
                        engine,
                        FileFormat::TextFallback { reason: graph_limit_reason() },
                        display_path,
                        lhs_content,
                        rhs_content,
                        diff_options,
                        display_options,
                    ),
                };
                assert(matched_syntax(engine, result, trees_g, *config, language, display_path,
                    lhs_content, rhs_content, *diff_options, *display_options, found_g));
                result
            }
        },
        ParseOutcome::ExceededParseErrorLimit(error_count) => {
            let name = engine.language_name(language);
            let reason = parse_error_reason(error_count, name.as_str());
            let result = compare_as_text(
                engine,
                FileFormat::TextFallback { reason },
                display_path,
                lhs_content,
                rhs_content,
                diff_options,
                display_options,
            );
            assert(parse_error_fallback(engine, result, language, error_count, display_path,
                lhs_content, rhs_content, *diff_options, *display_options, name));
            result
        },
        ParseOutcome::ExceededByteLimit(num_bytes) => compare_as_text(
            engine,
            FileFormat::TextFallback { reason: byte_limit_reason_for(num_bytes) },
            display_path,
            lhs_content,
            rhs_content,
            diff_options,
            display_options,
        ),
    };
    assert(parsed_as(engine, result, *config, language, display_path, lhs_content, rhs_content,
        *diff_options, *display_options, parsed));
    result
}

/// `result` shows `lhs` against `rhs` at `display_path`: the path, both
/// sources and whether, and by how many bytes, they differ.
pub open spec fn describes<P, H>(
    result: DiffResult<P, H>,
    display_path: &str,
    lhs: Seq<char>,
    rhs: Seq<char>,
) -> bool {
    &&& result.display_path@ == display_path@
    &&& is_text(result.lhs_src, lhs)
    &&& is_text(result.rhs_src, rhs)
    &&& result.has_byte_changes == byte_changes(lhs, rhs)
}

/// `result` is the answer for two identical inputs in `language`.
pub open spec fn unchanged_shape<P, H>(
    result: DiffResult<P, H>,
    display_path: &str,
    language: Option<Language>,
) -> bool {
    &&& result.display_path@ == display_path@
    &&& result.file_format == language_format(language)
    &&& is_text(result.lhs_src, Seq::empty())
    &&& is_text(result.rhs_src, Seq::empty())
    &&& is_bare(result)
    &&& result.has_byte_changes is None
    &&& !result.has_syntactic_changes
}

/// `result` only tells whether the two texts differ.
pub open spec fn checked_text<P, H>(
    result: DiffResult<P, H>,
    display_path: &str,
    lhs: &str,
    rhs: &str,
) -> bool {
    &&& describes(result, display_path, lhs@, rhs@)
    &&& is_bare(result)
    &&& result.has_syntactic_changes == (lhs@ != rhs@)
}

/// The engine grouped the result's own positions into its hunks, with the
/// context asked for, and the result has changes exactly when it has a hunk.
pub open spec fn assembled<E: DiffEngine>(
    engine: &E,
    result: DiffResult<E::Position, E::Hunk>,
    display_path: &str,
    lhs: &str,
    rhs: &str,
    display: DisplayOptions,
) -> bool {
    &&& describes(result, display_path, lhs@, rhs@)
    &&& call_ensures(
        E::hunks,
        (engine, &result.lhs_positions, &result.rhs_positions, lhs, rhs, display.num_context_lines),
        result.hunks,
    )
    &&& result.has_syntactic_changes == (result.hunks@.len() > 0)
}

/// The result's positions are the engine's line comparisons of `lhs` with
/// `rhs` and of `rhs` with `lhs`.
pub open spec fn line_compared<E: DiffEngine>(
    engine: &E,
    result: DiffResult<E::Position, E::Hunk>,
    lhs: &str,
    rhs: &str,
) -> bool {
    &&& call_ensures(E::line_positions, (engine, lhs, rhs), result.lhs_positions)
    &&& call_ensures(E::line_positions, (engine, rhs, lhs), result.rhs_positions)
}

/// `result` compares the sides as text: with `check_only` only whether they
/// differ, otherwise line by line.
pub open spec fn compared_as_text<E: DiffEngine>(
    engine: &E,
    result: DiffResult<E::Position, E::Hunk>,
    display_path: &str,
    lhs: &str,
    rhs: &str,
    options: DiffOptions,
    display: DisplayOptions,
) -> bool {
    if options.check_only {
        checked_text(result, display_path, lhs, rhs)
    } else {
        &&& line_compared(engine, result, lhs, rhs)
        &&& assembled(engine, result, display_path, lhs, rhs, display)
    }
}

/// `result` falls back to a text comparison for the given reason.
pub open spec fn falls_back<E: DiffEngine>(
    engine: &E,
    result: DiffResult<E::Position, E::Hunk>,
    reason: Seq<char>,
    display_path: &str,
    lhs: &str,
    rhs: &str,
    options: DiffOptions,
    display: DisplayOptions,
) -> bool {
    &&& result.file_format matches FileFormat::TextFallback { reason: r } && r@ == reason
    &&& compared_as_text(engine, result, display_path, lhs, rhs, options, display)
}

/// With `check_only`, the engine said whether the parsed trees differ, and
/// `result` says so.
pub open spec fn checked_syntax<E: DiffEngine>(
    engine: &E,
    result: DiffResult<E::Position, E::Hunk>,
    trees: E::Trees,
    language: Language,
    display_path: &str,
    lhs: &str,
    rhs: &str,
    differs: bool,
) -> bool {
    &&& call_ensures(E::syntax_differs, (engine, &trees), differs)
    &&& result.file_format == FileFormat::SupportedLanguage(language)
    &&& describes(result, display_path, lhs@, rhs@)
    &&& is_bare(result)
    &&& result.has_syntactic_changes == differs
}

/// The engine matched the parsed trees: its positions give the result, or,
/// when it exceeded the graph limit, the sides are compared as text.
pub open spec fn matched_syntax<E: DiffEngine>(
    engine: &E,
    result: DiffResult<E::Position, E::Hunk>,
    trees: E::Trees,
    config: E::Config,
    language: Language,
    display_path: &str,
    lhs: &str,
    rhs: &str,
    options: DiffOptions,
    display: DisplayOptions,
    found: Option<(Vec<E::Position>, Vec<E::Position>)>,
) -> bool {
    &&& call_ensures(E::syntax_positions, (engine, trees, &config, lhs, rhs, &options), found)
    &&& match found {
        Some((lhs_positions, rhs_positions)) => {
            &&& result.file_format == FileFormat::SupportedLanguage(language)
            &&& result.lhs_positions == lhs_positions
            &&& result.rhs_positions == rhs_positions
            &&& assembled(engine, result, display_path, lhs, rhs, display)
        },
        None => falls_back(engine, result, graph_limit_text(), display_path, lhs, rhs, options, display),
    }
}

/// Parsing gave `count` errors, more than allowed: the sides are compared as
/// text, for a reason that names the language as the engine does.
pub open spec fn parse_error_fallback<E: DiffEngine>(
    engine: &E,
    result: DiffResult<E::Position, E::Hunk>,
    language: Language,
    count: usize,
    display_path: &str,
    lhs: &str,
    rhs: &str,
    options: DiffOptions,
    display: DisplayOptions,
    name: String,
) -> bool {
    &&& call_ensures(E::language_name, (engine, language), name)
    &&& falls_back(
        engine,
        result,
        parse_error_text(count as nat, name@),
        display_path,
        lhs,
        rhs,
        options,
        display,
    )
}

/// The engine parsed both sides to `outcome`, and `result` follows from it.
pub open spec fn parsed_as<E: DiffEngine>(
    engine: &E,
    result: DiffResult<E::Position, E::Hunk>,
    config: E::Config,
    language: Language,
    display_path: &str,
    lhs: &str,
    rhs: &str,
    options: DiffOptions,
    display: DisplayOptions,
    outcome: ParseOutcome<E::Trees>,
) -> bool {
    &&& call_ensures(E::parse, (engine, &config, lhs, rhs, &options), outcome)
    &&& match outcome {
        ParseOutcome::Parsed(trees) => if options.check_only {
            exists|differs: bool|
                #[trigger] checked_syntax(engine, result, trees, language, display_path, lhs, rhs, differs)
        } else {
            exists|found: Option<(Vec<E::Position>, Vec<E::Position>)>|
                #[trigger] matched_syntax(
                    engine,
                    result,
                    trees,
                    config,
                    language,
                    display_path,
                    lhs,
                    rhs,
                    options,
                    display,
                    found,
                )
        },
        ParseOutcome::ExceededParseErrorLimit(count) => exists|name: String|
            #[trigger] parse_error_fallback(
                engine,
                result,
                language,
                count,
                display_path,
                lhs,
                rhs,
                options,
                display,
                name,
            ),
        ParseOutcome::ExceededByteLimit(num_bytes) => falls_back(
            engine,
            result,
            byte_limit_text(binary_size_text(num_bytes)),
            display_path,
            lhs,
            rhs,
            options,
            display,
        ),
    }
}

/// `result` is the comparison of the sides in `language` with configuration
/// `config`.
pub open spec fn compared_in_language<E: DiffEngine>(
    engine: &E,
    result: DiffResult<E::Position, E::Hunk>,
    config: E::Config,
    language: Language,
    display_path: &str,
    lhs: &str,
    rhs: &str,
    options: DiffOptions,
    display: DisplayOptions,
) -> bool {
    exists|outcome: ParseOutcome<E::Trees>|
        #[trigger] parsed_as(
            engine,
            result,
            config,
            language,
            display_path,
            lhs,
            rhs,
            options,
            display,
            outcome,
        )
}

/// The cache went from `before` to `after` by fetching the configuration
/// `config` of `language` (built by the engine if it was not cached), and
/// `result` is the comparison in that language with that configuration.
pub open spec fn compared_with_config<E: DiffEngine>(
    engine: &E,
    result: DiffResult<E::Position, E::Hunk>,
    before: Map<Language, E::Config>,
    after: Map<Language, E::Config>,
    language: Language,
    config: E::Config,
    display_path: &str,
    lhs: &str,
    rhs: &str,
    options: DiffOptions,
    display: DisplayOptions,
) -> bool {
    &&& fetched_config(before, after, language, config)
    &&& !before.contains_key(language) ==> call_ensures(E::language_config, (engine, language), config)
    &&& compared_in_language(engine, result, config, language, display_path, lhs, rhs, options, display)
}

/// `language` is the override, or else the engine's guess from the path and
/// the right-hand side.
pub open spec fn chose_language<E: DiffEngine>(
    engine: &E,
    display_path: &str,
    rhs: &str,
    language_override: Option<Language>,
    language: Option<Language>,
) -> bool {
    match language_override {
        Some(l) => language == Some(l),
        None => call_ensures(E::guess_language, (engine, display_path, rhs), language),
    }
}

/// `result` is the comparison of `lhs` with `rhs` in the chosen `language`,
/// and the cache went from `before` to `after`.
pub open spec fn diffed_as<E: DiffEngine>(
    engine: &E,
    result: DiffResult<E::Position, E::Hunk>,
    before: Map<Language, E::Config>,
    after: Map<Language, E::Config>,
    lhs: &str,
    rhs: &str,
    display_path: &str,
    language_override: Option<Language>,
    options: DiffOptions,
    display: DisplayOptions,
    language: Option<Language>,
) -> bool {
    &&& chose_language(engine, display_path, rhs, language_override, language)
    &&& if lhs@ == rhs@ {
        &&& unchanged_shape(result, display_path, language)
        &&& after == before
    } else {
        match language {
            None => {
                &&& result.file_format == FileFormat::PlainText
                &&& compared_as_text(engine, result, display_path, lhs, rhs, options, display)
                &&& after == before
            },
            Some(l) => exists|config: E::Config|
                #[trigger] compared_with_config(
                    engine,
                    result,
                    before,
                    after,
                    l,
                    config,
                    display_path,
                    lhs,
                    rhs,
                    options,
                    display,
                ),
        }
    }
}

/// `result` is what comparing `lhs` with `rhs` gives with the engine's
/// answers, and the cache went from `before` to `after`.
pub open spec fn diffed<E: DiffEngine>(
    engine: &E,
    result: DiffResult<E::Position, E::Hunk>,
    before: Map<Language, E::Config>,
    after: Map<Language, E::Config>,
    lhs: &str,
    rhs: &str,
    display_path: &str,
    language_override: Option<Language>,
    options: DiffOptions,
    display: DisplayOptions,
) -> bool {
    exists|language: Option<Language>|
        #[trigger] diffed_as(
            engine,
            result,
            before,
            after,
            lhs,
            rhs,
            display_path,
            language_override,
            options,
            display,
            language,
        )
}

/// The byte lengths of both sides when they differ, and nothing when they
/// are the same.
pub open spec fn byte_changes(lhs: Seq<char>, rhs: Seq<char>) -> Option<(usize, usize)> {
    if lhs == rhs {
        None
    } else {
        Some((encode_utf8(lhs).len() as usize, encode_utf8(rhs).len() as usize))
    }
}

/// The byte lengths of both sides when they differ.
pub fn byte_change_lengths(lhs: &str, rhs: &str) -> (changes: Option<(usize, usize)>)
    ensures
        changes == byte_changes(lhs@, rhs@),
{
    if same_text(lhs, rhs) {
        None
    } else {
        Some((lhs.len(), rhs.len()))
    }
}

/// The format under which a file of the given language is compared.
pub open spec fn language_format(language: Option<Language>) -> FileFormat {
    match language {
        Some(l) => FileFormat::SupportedLanguage(l),
        None => FileFormat::PlainText,
    }
}

/// `result` carries no positions and no hunks.
pub open spec fn is_bare<P, H>(result: DiffResult<P, H>) -> bool {
    &&& result.lhs_positions@.len() == 0
    &&& result.rhs_positions@.len() == 0
    &&& result.hunks@.len() == 0
}

/// The result for two identical inputs: nothing to show.
pub fn unchanged_result<P, H>(display_path: &str, language: Option<Language>) -> (result: DiffResult<P, H>)
    ensures
        result.display_path@ == display_path@,
        result.extra_info is None,
        result.file_format == language_format(language),
        is_text(result.lhs_src, Seq::empty()),
        is_text(result.rhs_src, Seq::empty()),
        is_bare(result),
        result.has_byte_changes is None,
        !result.has_syntactic_changes,
{
    let file_format = match language {
        Some(language) => FileFormat::SupportedLanguage(language),
        None => FileFormat::PlainText,
    };
    DiffResult {
        extra_info: None,
        display_path: display_path.to_owned(),
        file_format,
        lhs_src: FileContent::Text(String::new()),
        rhs_src: FileContent::Text(String::new()),
        lhs_positions: Vec::new(),
        rhs_positions: Vec::new(),
        hunks: Vec::new(),
        has_byte_changes: None,
        has_syntactic_changes: false,
    }
}

/// The result of a check-only comparison of two texts: whether they differ,
/// with no positions and no hunks.
pub fn check_only_text<P, H>(
    file_format: &FileFormat,
    display_path: &str,
    extra_info: Option<String>,
    lhs_src: &str,
    rhs_src: &str,
) -> (result: DiffResult<P, H>)
    ensures
        result.display_path@ == display_path@,
        result.extra_info == extra_info,
        result.file_format == *file_format,
        is_text(result.lhs_src, lhs_src@),
        is_text(result.rhs_src, rhs_src@),
        is_bare(result),
        result.has_byte_changes == byte_changes(lhs_src@, rhs_src@),
        result.has_syntactic_changes == (lhs_src@ != rhs_src@),
{
    let has_byte_changes = byte_change_lengths(lhs_src, rhs_src);
    DiffResult {
        display_path: display_path.to_owned(),
        extra_info,
        file_format: file_format.clone(),
        lhs_src: FileContent::Text(lhs_src.to_owned()),
        rhs_src: FileContent::Text(rhs_src.to_owned()),
        lhs_positions: Vec::new(),
        rhs_positions: Vec::new(),
        hunks: Vec::new(),
        has_byte_changes,
        has_syntactic_changes: !same_text(lhs_src, rhs_src),
    }
}

/// The result of a check-only syntactic comparison: whether the syntax
/// trees differ, with no positions and no hunks.
pub fn syntax_check_result<P, H>(
    language: Language,
    display_path: &str,
    lhs_src: &str,
    rhs_src: &str,
    syntax_differs: bool,
) -> (result: DiffResult<P, H>)
    ensures
        result.display_path@ == display_path@,
        result.extra_info is None,
        result.file_format == FileFormat::SupportedLanguage(language),
        is_text(result.lhs_src, lhs_src@),
        is_text(result.rhs_src, rhs_src@),
        is_bare(result),
        result.has_byte_changes == byte_changes(lhs_src@, rhs_src@),
        result.has_syntactic_changes == syntax_differs,
{
    DiffResult {
        extra_info: None,
        display_path: display_path.to_owned(),
        file_format: FileFormat::SupportedLanguage(language),
        lhs_src: FileContent::Text(lhs_src.to_owned()),
        rhs_src: FileContent::Text(rhs_src.to_owned()),
        lhs_positions: Vec::new(),
        rhs_positions: Vec::new(),
        hunks: Vec::new(),
        has_byte_changes: byte_change_lengths(lhs_src, rhs_src),
        has_syntactic_changes: syntax_differs,
    }
}

/// The result of a full comparison, given the changed positions and the
/// hunks built from them: it has syntactic changes exactly when there is
/// a hunk.
pub fn finished_result<P, H>(
    display_path: &str,
    file_format: FileFormat,
    lhs_src: &str,
    rhs_src: &str,
    lhs_positions: Vec<P>,
    rhs_positions: Vec<P>,
    hunks: Vec<H>,
) -> (result: DiffResult<P, H>)
    ensures
        result.display_path@ == display_path@,
        result.extra_info is None,
        result.file_format == file_format,
        is_text(result.lhs_src, lhs_src@),
        is_text(result.rhs_src, rhs_src@),
        result.lhs_positions == lhs_positions,
        result.rhs_positions == rhs_positions,
        result.hunks == hunks,
        result.has_byte_changes == byte_changes(lhs_src@, rhs_src@),
        result.has_syntactic_changes == (hunks@.len() > 0),
{
    let has_syntactic_changes = hunks.len() > 0;
    DiffResult {
        extra_info: None,
        display_path: display_path.to_owned(),
        file_format,
        lhs_src: FileContent::Text(lhs_src.to_owned()),
        rhs_src: FileContent::Text(rhs_src.to_owned()),
        lhs_positions,
        rhs_positions,
        hunks,
        has_byte_changes: byte_change_lengths(lhs_src, rhs_src),
        has_syntactic_changes,
    }
}

/// Why a comparison fell back to text when the graph search grew too large.
pub open spec fn graph_limit_text() -> Seq<char> {
    "exceeded DFT_GRAPH_LIMIT"@
}

/// The reason given when the graph search grew too large.
pub fn graph_limit_reason() -> (reason: String)
    ensures
        reason@ == graph_limit_text(),
{
    String::from_str("exceeded DFT_GRAPH_LIMIT")
}

/// Why a comparison fell back to text when parsing gave too many errors.
pub open spec fn parse_error_text(error_count: nat, language_name: Seq<char>) -> Seq<char> {
    decimal(error_count) + " "@ + language_name + " parse error"@ + (if error_count == 1 {
        ""@
    } else {
        "s"@
    }) + ", exceeded DFT_PARSE_ERROR_LIMIT"@
}

/// The reason given when parsing gave `error_count` errors in the language
/// named `language_name`.
pub fn parse_error_reason(error_count: usize, language_name: &str) -> (reason: String)
    ensures
        reason@ == parse_error_text(error_count as nat, language_name@),
{
    let mut reason = String::new();
    push_decimal(&mut reason, error_count);
    reason.append(" ");
    reason.append(language_name);
    reason.append(" parse error");
    if error_count != 1 {
        reason.append("s");
    } else {
        proof {
            reveal_strlit("");
            assert(reason@ + ""@ =~= reason@);
        }
    }
    reason.append(", exceeded DFT_PARSE_ERROR_LIMIT");
    reason
}

/// Why a comparison fell back to text when an input was too large, given the
/// input's size as text.
pub open spec fn byte_limit_text(size_text: Seq<char>) -> Seq<char> {
    size_text + " exceeded DFT_BYTE_LIMIT"@
}

/// The reason given when an input of the size shown by `size_text` was too
/// large to parse.
pub fn byte_limit_reason(size_text: &str) -> (reason: String)
    ensures
        reason@ == byte_limit_text(size_text@),
{
    let mut reason = size_text.to_owned();
    reason.append(" exceeded DFT_BYTE_LIMIT");
    reason
}

/// The reason given when an input of `num_bytes` bytes was too large to parse.
pub fn byte_limit_reason_for(num_bytes: usize) -> (reason: String)
    ensures
        reason@ == byte_limit_text(binary_size_text(num_bytes)),
{
    let size_text = format_binary_size(num_bytes);
    byte_limit_reason(size_text.as_str())
}

} // verus!
