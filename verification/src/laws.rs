//! Properties that hold across the library's operations.

use vstd::prelude::*;

use crate::model::{DiffOptions, DiffResult, DisplayOptions, FileContent, FileFormat, Language};
use crate::report::{
    changed_note_text, file_extra_info, unchanged_note_text, prepared_source, reportable, sorted_by_path,
    with_final_newline, Report,
};
use crate::order::bytes_le;
use vstd::utf8::encode_utf8;
use crate::service::{
    assembled, checked_syntax, checked_text, compared_as_text, compared_in_language,
    compared_with_config, describes, diffed, diffed_as, falls_back, fetched_config, is_bare,
    line_compared, matched_syntax, parse_error_fallback, parsed_as, unchanged_shape, DiffEngine,
    ParseOutcome,
};
use crate::text::without_cr;

verus! {

/// Once `get_config` has given a configuration for a language, a later call
/// for the same language gives the same configuration back and leaves the
/// cache as it is.
pub proof fn lemma_config_fetched_twice<C>(
    cache0: Map<Language, C>,
    cache1: Map<Language, C>,
    cache2: Map<Language, C>,
    language: Language,
    first: C,
    second: C,
)
    requires
        fetched_config(cache0, cache1, language, first),
        fetched_config(cache1, cache2, language, second),
    ensures
        second == first,
        cache2 == cache1,
        cache1.contains_key(language),
{
}

/// Getting a configuration never drops or replaces one that was cached.
pub proof fn lemma_config_fetch_keeps_cache<C>(
    before: Map<Language, C>,
    after: Map<Language, C>,
    language: Language,
    config: C,
)
    requires
        fetched_config(before, after, language, config),
    ensures
        before.submap_of(after),
        after.contains_key(language),
        after[language] == config,
{
}

/// What every comparison states whatever the engine answered: the path;
/// for identical texts an empty result and an untouched cache; otherwise
/// both texts with their byte changes, and, outside `check_only`, syntactic
/// changes exactly when there is a hunk; and the cache only grows.
pub proof fn lemma_diffed_facts<E: DiffEngine>(
    engine: &E,
    result: DiffResult<E::Position, E::Hunk>,
    before: Map<Language, E::Config>,
    after: Map<Language, E::Config>,
    lhs: &str,
    rhs: &str,
    display_path: &str,
    language_override: Option<Language>,
    options: DiffOptions,
    display: DisplayOptions,
)
    requires
        diffed(engine, result, before, after, lhs, rhs, display_path, language_override, options, display),
    ensures
        result.display_path@ == display_path@,
        lhs@ == rhs@ ==> {
            &&& is_bare(result)
            &&& result.has_byte_changes is None
            &&& !result.has_syntactic_changes
            &&& after == before
        },
        lhs@ != rhs@ ==> describes(result, display_path, lhs@, rhs@),
        lhs@ != rhs@ && !options.check_only ==> result.has_syntactic_changes == (
        result.hunks@.len() > 0),
        before.submap_of(after),
{
    let language = choose|language: Option<Language>|
        #[trigger] diffed_as(
            engine,
            result,
            before,
            after,
            lhs,
            rhs,
            display_path,
            language_override,
            options,
            display,
            language,
        );
    if lhs@ != rhs@ {
        if let Some(l) = language {
            let config = choose|config: E::Config|
                #[trigger] compared_with_config(
                    engine,
                    result,
                    before,
                    after,
                    l,
                    config,
                    display_path,
                    lhs,
                    rhs,
                    options,
                    display,
                );
            let outcome = choose|outcome: ParseOutcome<E::Trees>|
                #[trigger] parsed_as(
                    engine,
                    result,
                    config,
                    l,
                    display_path,
                    lhs,
                    rhs,
                    options,
                    display,
                    outcome,
                );
            match outcome {
                ParseOutcome::Parsed(trees) => {
                    if options.check_only {
                        let differs = choose|differs: bool|
                            #[trigger] checked_syntax(
                                engine,
                                result,
                                trees,
                                l,
                                display_path,
                                lhs,
                                rhs,
                                differs,
                            );
                    } else {
                        let found = choose|found: Option<(Vec<E::Position>, Vec<E::Position>)>|
                            #[trigger] matched_syntax(
                                engine,
                                result,
                                trees,
                                config,
                                l,
                                display_path,
                                lhs,
                                rhs,
                                options,
                                display,
                                found,
                            );
                    }
                },
                ParseOutcome::ExceededParseErrorLimit(count) => {
                    let name = choose|name: String|
                        #[trigger] parse_error_fallback(
                            engine,
                            result,
                            l,
                            count,
                            display_path,
                            lhs,
                            rhs,
                            options,
                            display,
                            name,
                        );
                },
                ParseOutcome::ExceededByteLimit(_) => {},
            }
        }
    }
}

/// `result` with its extra information replaced by `info`.
pub open spec fn with_extra_info<P, H>(result: DiffResult<P, H>, info: Option<String>) -> DiffResult<
    P,
    H,
> {
    DiffResult { extra_info: info, ..result }
}

/// What a comparison gives does not depend on the extra information shown
/// with it.
pub proof fn lemma_diffed_any_extra_info<E: DiffEngine>(
    engine: &E,
    result: DiffResult<E::Position, E::Hunk>,
    info: Option<String>,
    before: Map<Language, E::Config>,
    after: Map<Language, E::Config>,
    lhs: &str,
    rhs: &str,
    display_path: &str,
    language_override: Option<Language>,
    options: DiffOptions,
    display: DisplayOptions,
)
    requires
        diffed(engine, result, before, after, lhs, rhs, display_path, language_override, options, display),
    ensures
        diffed(
            engine,
            with_extra_info(result, info),
            before,
            after,
            lhs,
            rhs,
            display_path,
            language_override,
            options,
            display,
        ),
{
    let r = with_extra_info(result, info);
    let language = choose|language: Option<Language>|
        #[trigger] diffed_as(
            engine,
            result,
            before,
            after,
            lhs,
            rhs,
            display_path,
            language_override,
            options,
            display,
            language,
        );
    if lhs@ != rhs@ {
        if let Some(l) = language {
            let config = choose|config: E::Config|
                #[trigger] compared_with_config(
                    engine,
                    result,
                    before,
                    after,
                    l,
                    config,
                    display_path,
                    lhs,
                    rhs,
                    options,
                    display,
                );
            let outcome = choose|outcome: ParseOutcome<E::Trees>|
                #[trigger] parsed_as(
                    engine,
                    result,
                    config,
                    l,
                    display_path,
                    lhs,
                    rhs,
                    options,
                    display,
                    outcome,
                );
            match outcome {
                ParseOutcome::Parsed(trees) => {
                    if options.check_only {
                        let differs = choose|differs: bool|
                            #[trigger] checked_syntax(
                                engine,
                                result,
                                trees,
                                l,
                                display_path,
                                lhs,
                                rhs,
                                differs,
                            );
                        assert(checked_syntax(engine, r, trees, l, display_path, lhs, rhs, differs));
                    } else {
                        let found = choose|found: Option<(Vec<E::Position>, Vec<E::Position>)>|
                            #[trigger] matched_syntax(
                                engine,
                                result,
                                trees,
                                config,
                                l,
                                display_path,
                                lhs,
                                rhs,
                                options,
                                display,
                                found,
                            );
                        assert(matched_syntax(engine, r, trees, config, l, display_path, lhs, rhs,
                            options, display, found));
                    }
                },
                ParseOutcome::ExceededParseErrorLimit(count) => {
                    let name = choose|name: String|
                        #[trigger] parse_error_fallback(
                            engine,
                            result,
                            l,
                            count,
                            display_path,
                            lhs,
                            rhs,
                            options,
                            display,
                            name,
                        );
                    assert(parse_error_fallback(engine, r, l, count, display_path, lhs, rhs, options,
                        display, name));
                },
                ParseOutcome::ExceededByteLimit(_) => {},
            }
            assert(parsed_as(engine, r, config, l, display_path, lhs, rhs, options, display, outcome));
            assert(compared_with_config(engine, r, before, after, l, config, display_path, lhs, rhs,
                options, display));
        }
    }
    assert(diffed_as(engine, r, before, after, lhs, rhs, display_path, language_override, options,
        display, language));
}

/// Comparing a text with itself reports no change: no byte changes, no
/// syntactic changes, nothing to show, and the cache stays as it was.
pub proof fn lemma_identical_inputs_unchanged<E: DiffEngine>(
    engine: &E,
    result: DiffResult<E::Position, E::Hunk>,
    before: Map<Language, E::Config>,
    after: Map<Language, E::Config>,
    lhs: &str,
    rhs: &str,
    display_path: &str,
    language_override: Option<Language>,
    options: DiffOptions,
    display: DisplayOptions,
)
    requires
        diffed(engine, result, before, after, lhs, rhs, display_path, language_override, options, display),
        lhs@ == rhs@,
    ensures
        !reportable(result),
        result.has_byte_changes is None,
        result.hunks@.len() == 0,
        after == before,
{
    lemma_diffed_facts(engine, result, before, after, lhs, rhs, display_path, language_override, options, display);
}

/// A comparison reports byte changes exactly when the two texts differ.
pub proof fn lemma_byte_changes_iff_texts_differ<E: DiffEngine>(
    engine: &E,
    result: DiffResult<E::Position, E::Hunk>,
    before: Map<Language, E::Config>,
    after: Map<Language, E::Config>,
    lhs: &str,
    rhs: &str,
    display_path: &str,
    language_override: Option<Language>,
    options: DiffOptions,
    display: DisplayOptions,
)
    requires
        diffed(engine, result, before, after, lhs, rhs, display_path, language_override, options, display),
    ensures
        (result.has_byte_changes is Some) == (lhs@ != rhs@),
{
    lemma_diffed_facts(engine, result, before, after, lhs, rhs, display_path, language_override, options, display);
}

/// Without `check_only`, a comparison has syntactic changes exactly when it
/// has a hunk to show.
pub proof fn lemma_changes_iff_hunks<E: DiffEngine>(
    engine: &E,
    result: DiffResult<E::Position, E::Hunk>,
    before: Map<Language, E::Config>,
    after: Map<Language, E::Config>,
    lhs: &str,
    rhs: &str,
    display_path: &str,
    language_override: Option<Language>,
    options: DiffOptions,
    display: DisplayOptions,
)
    requires
        diffed(engine, result, before, after, lhs, rhs, display_path, language_override, options, display),
        !options.check_only,
    ensures
        result.has_syntactic_changes == (result.hunks@.len() > 0),
{
    lemma_diffed_facts(engine, result, before, after, lhs, rhs, display_path, language_override, options, display);
}

/// Removing carriage returns leaves none behind.
pub proof fn lemma_without_cr_has_no_cr(s: Seq<char>)
    ensures
        !without_cr(s).contains('\r'),
{
    let f = without_cr(s);
    if f.contains('\r') {
        let i = choose|i: int| 0 <= i < f.len() && f[i] == '\r';
        s.lemma_filter_pred(|c: char| c != '\r', i);
    }
}

/// Removing carriage returns twice is the same as removing them once.
pub proof fn lemma_without_cr_idempotent(s: Seq<char>)
    ensures
        without_cr(without_cr(s)) == without_cr(s),
    decreases s.len(),
{
    broadcast use vstd::seq::Seq::lemma_filter_push;

    if s.len() > 0 {
        let init = s.drop_last();
        lemma_without_cr_idempotent(init);
        assert(init.push(s.last()) == s);
    } else {
        reveal_with_fuel(Seq::filter, 2);
        assert(without_cr(s) =~= Seq::<char>::empty());
    }
}

/// Preparing a source twice is the same as preparing it once.
pub proof fn lemma_prepare_source_idempotent(s: Seq<char>, strip_cr: bool)
    ensures
        prepared_source(prepared_source(s, strip_cr), strip_cr) == prepared_source(s, strip_cr),
{
    broadcast use vstd::seq::Seq::lemma_filter_push;

    let t = if strip_cr {
        without_cr(s)
    } else {
        s
    };
    let p = with_final_newline(t);
    if strip_cr {
        lemma_without_cr_idempotent(s);
        if !(t.len() == 0 || t.last() == '\n') {
            assert(without_cr(t.push('\n')) == without_cr(t).push('\n'));
        }
        assert(without_cr(p) == p);
    }
    let q = if strip_cr {
        without_cr(p)
    } else {
        p
    };
    assert(q == p);
    if !(t.len() == 0 || t.last() == '\n') {
        assert(p.last() == '\n');
    }
}

/// A prepared, non-empty source ends with a newline.
pub proof fn lemma_prepared_source_ends_with_newline(s: Seq<char>, strip_cr: bool)
    requires
        prepared_source(s, strip_cr).len() > 0,
    ensures
        prepared_source(s, strip_cr).last() == '\n',
{
}

/// Each question put to `engine` has one answer: asked twice with the same
/// arguments, it answers the same.
pub open spec fn answers_by_arguments<E: DiffEngine>(engine: &E) -> bool {
    &&& forall|p: &str, s: &str, x: Option<Language>, y: Option<Language>|
        #![trigger call_ensures(E::guess_language, (engine, p, s), x), call_ensures(E::guess_language, (engine, p, s), y)]
        call_ensures(E::guess_language, (engine, p, s), x) && call_ensures(
            E::guess_language,
            (engine, p, s),
            y,
        ) ==> x == y
    &&& forall|l: Language, x: String, y: String|
        #![trigger call_ensures(E::language_name, (engine, l), x), call_ensures(E::language_name, (engine, l), y)]
        call_ensures(E::language_name, (engine, l), x) && call_ensures(
            E::language_name,
            (engine, l),
            y,
        ) ==> x == y
    &&& forall|l: Language, x: E::Config, y: E::Config|
        #![trigger call_ensures(E::language_config, (engine, l), x), call_ensures(E::language_config, (engine, l), y)]
        call_ensures(E::language_config, (engine, l), x) && call_ensures(
            E::language_config,
            (engine, l),
            y,
        ) ==> x == y
    &&& forall|c: &E::Config, a: &str, b: &str, o: &DiffOptions, x: ParseOutcome<E::Trees>, y: ParseOutcome<E::Trees>|
        #![trigger call_ensures(E::parse, (engine, c, a, b, o), x), call_ensures(E::parse, (engine, c, a, b, o), y)]
        call_ensures(E::parse, (engine, c, a, b, o), x) && call_ensures(
            E::parse,
            (engine, c, a, b, o),
            y,
        ) ==> x == y
    &&& forall|t: &E::Trees, x: bool, y: bool|
        #![trigger call_ensures(E::syntax_differs, (engine, t), x), call_ensures(E::syntax_differs, (engine, t), y)]
        call_ensures(E::syntax_differs, (engine, t), x) && call_ensures(
            E::syntax_differs,
            (engine, t),
            y,
        ) ==> x == y
    &&& forall|t: E::Trees, c: &E::Config, a: &str, b: &str, o: &DiffOptions, x: Option<(Vec<E::Position>, Vec<E::Position>)>, y: Option<(Vec<E::Position>, Vec<E::Position>)>|
        #![trigger call_ensures(E::syntax_positions, (engine, t, c, a, b, o), x), call_ensures(E::syntax_positions, (engine, t, c, a, b, o), y)]
        call_ensures(E::syntax_positions, (engine, t, c, a, b, o), x) && call_ensures(
            E::syntax_positions,
            (engine, t, c, a, b, o),
            y,
        ) ==> x == y
    &&& forall|a: &str, b: &str, x: Vec<E::Position>, y: Vec<E::Position>|
        #![trigger call_ensures(E::line_positions, (engine, a, b), x), call_ensures(E::line_positions, (engine, a, b), y)]
        call_ensures(E::line_positions, (engine, a, b), x) && call_ensures(
            E::line_positions,
            (engine, a, b),
            y,
        ) ==> x == y
    &&& forall|lp: &Vec<E::Position>, rp: &Vec<E::Position>, a: &str, b: &str, n: u32, x: Vec<E::Hunk>, y: Vec<E::Hunk>|
        #![trigger call_ensures(E::hunks, (engine, lp, rp, a, b, n), x), call_ensures(E::hunks, (engine, lp, rp, a, b, n), y)]
        call_ensures(E::hunks, (engine, lp, rp, a, b, n), x) && call_ensures(
            E::hunks,
            (engine, lp, rp, a, b, n),
            y,
        ) ==> x == y
}

/// Every configuration in `cache` is one that `engine` built for its language.
pub open spec fn built_by_engine<E: DiffEngine>(engine: &E, cache: Map<Language, E::Config>) -> bool {
    forall|l: Language|
        #[trigger] cache.contains_key(l) ==> call_ensures(E::language_config, (engine, l), cache[l])
}

/// The two contents hold the same text, or are both binary.
pub open spec fn same_content(a: FileContent, b: FileContent) -> bool {
    match (a, b) {
        (FileContent::Text(x), FileContent::Text(y)) => x@ == y@,
        (FileContent::Binary, FileContent::Binary) => true,
        _ => false,
    }
}

/// The two formats are the same, a fallback's reason taken as text.
pub open spec fn same_format(a: FileFormat, b: FileFormat) -> bool {
    match (a, b) {
        (FileFormat::TextFallback { reason: x }, FileFormat::TextFallback { reason: y }) => x@ == y@,
        _ => a == b,
    }
}

/// The two results show the same comparison: the same path, sources,
/// positions, hunks and changes (their formats and extra information aside).
pub open spec fn same_comparison<P, H>(a: DiffResult<P, H>, b: DiffResult<P, H>) -> bool {
    &&& a.display_path@ == b.display_path@
    &&& same_content(a.lhs_src, b.lhs_src)
    &&& same_content(a.rhs_src, b.rhs_src)
    &&& a.lhs_positions@ == b.lhs_positions@
    &&& a.rhs_positions@ == b.rhs_positions@
    &&& a.hunks@ == b.hunks@
    &&& a.has_byte_changes == b.has_byte_changes
    &&& a.has_syntactic_changes == b.has_syntactic_changes
}

/// Two text comparisons of the same sides agree.
proof fn lemma_text_comparisons_agree<E: DiffEngine>(
    engine: &E,
    a: DiffResult<E::Position, E::Hunk>,
    b: DiffResult<E::Position, E::Hunk>,
    display_path: &str,
    lhs: &str,
    rhs: &str,
    options: DiffOptions,
    display: DisplayOptions,
)
    requires
        answers_by_arguments(engine),
        compared_as_text(engine, a, display_path, lhs, rhs, options, display),
        compared_as_text(engine, b, display_path, lhs, rhs, options, display),
    ensures
        same_comparison(a, b),
{
    if options.check_only {
        lemma_bare_results_agree(a, b);
    } else {
        assert(a.lhs_positions == b.lhs_positions);
        assert(a.rhs_positions == b.rhs_positions);
        assert(a.hunks == b.hunks);
    }
}

/// Results without positions and hunks have the same (empty) ones.
proof fn lemma_bare_results_agree<P, H>(a: DiffResult<P, H>, b: DiffResult<P, H>)
    requires
        is_bare(a),
        is_bare(b),
    ensures
        a.lhs_positions@ == b.lhs_positions@,
        a.rhs_positions@ == b.rhs_positions@,
        a.hunks@ == b.hunks@,
{
    assert(a.lhs_positions@ =~= b.lhs_positions@);
    assert(a.rhs_positions@ =~= b.rhs_positions@);
    assert(a.hunks@ =~= b.hunks@);
}

/// Two results assembled from the same positions agree.
proof fn lemma_assembled_agree<E: DiffEngine>(
    engine: &E,
    a: DiffResult<E::Position, E::Hunk>,
    b: DiffResult<E::Position, E::Hunk>,
    display_path: &str,
    lhs: &str,
    rhs: &str,
    display: DisplayOptions,
)
    requires
        answers_by_arguments(engine),
        a.lhs_positions == b.lhs_positions,
        a.rhs_positions == b.rhs_positions,
        assembled(engine, a, display_path, lhs, rhs, display),
        assembled(engine, b, display_path, lhs, rhs, display),
    ensures
        same_comparison(a, b),
{
    assert(a.hunks == b.hunks);
}

/// Two comparisons in one language with the same configuration agree.
proof fn lemma_language_comparisons_agree<E: DiffEngine>(
    engine: &E,
    a: DiffResult<E::Position, E::Hunk>,
    b: DiffResult<E::Position, E::Hunk>,
    config: E::Config,
    language: Language,
    display_path: &str,
    lhs: &str,
    rhs: &str,
    options: DiffOptions,
    display: DisplayOptions,
)
    requires
        answers_by_arguments(engine),
        compared_in_language(engine, a, config, language, display_path, lhs, rhs, options, display),
        compared_in_language(engine, b, config, language, display_path, lhs, rhs, options, display),
    ensures
        same_format(a.file_format, b.file_format),
        same_comparison(a, b),
{
    let oa = choose|o: ParseOutcome<E::Trees>|
        #[trigger] parsed_as(engine, a, config, language, display_path, lhs, rhs, options, display, o);
    let ob = choose|o: ParseOutcome<E::Trees>|
        #[trigger] parsed_as(engine, b, config, language, display_path, lhs, rhs, options, display, o);
    assert(oa == ob);
    match oa {
        ParseOutcome::Parsed(trees) => {
            if options.check_only {
                let da = choose|d: bool|
                    #[trigger] checked_syntax(engine, a, trees, language, display_path, lhs, rhs, d);
                let db = choose|d: bool|
                    #[trigger] checked_syntax(engine, b, trees, language, display_path, lhs, rhs, d);
                assert(da == db);
                lemma_bare_results_agree(a, b);
            } else {
                let fa = choose|f: Option<(Vec<E::Position>, Vec<E::Position>)>|
                    #[trigger] matched_syntax(
                        engine,
                        a,
                        trees,
                        config,
                        language,
                        display_path,
                        lhs,
                        rhs,
                        options,
                        display,
                        f,
                    );
                let fb = choose|f: Option<(Vec<E::Position>, Vec<E::Position>)>|
                    #[trigger] matched_syntax(
                        engine,
                        b,
                        trees,
                        config,
                        language,
                        display_path,
                        lhs,
                        rhs,
                        options,
                        display,
                        f,
                    );
                assert(fa == fb);
                match fa {
                    Some(_) => lemma_assembled_agree(engine, a, b, display_path, lhs, rhs, display),
                    None => lemma_text_comparisons_agree(
                        engine,
                        a,
                        b,
                        display_path,
                        lhs,
                        rhs,
                        options,
                        display,
                    ),
                }
            }
        },
        ParseOutcome::ExceededParseErrorLimit(count) => {
            let na = choose|n: String|
                #[trigger] parse_error_fallback(
                    engine,
                    a,
                    language,
                    count,
                    display_path,
                    lhs,
                    rhs,
                    options,
                    display,
                    n,
                );
            let nb = choose|n: String|
                #[trigger] parse_error_fallback(
                    engine,
                    b,
                    language,
                    count,
                    display_path,
                    lhs,
                    rhs,
                    options,
                    display,
                    n,
                );
            assert(na == nb);
            lemma_text_comparisons_agree(engine, a, b, display_path, lhs, rhs, options, display);
        },
        ParseOutcome::ExceededByteLimit(_) => {
            lemma_text_comparisons_agree(engine, a, b, display_path, lhs, rhs, options, display);
        },
    }
}

/// A comparison does not depend on what the cache held: for an engine that
/// answers each question by its arguments alone, and caches holding only
/// configurations that engine built, comparing the same inputs twice gives
/// the same format, path, sources, positions, hunks and changes, whatever
/// was compared before. The other entry points that compare two texts (a
/// file's content, the sides of a conflict, a request) state their results
/// as such comparisons, so this holds of them too.
pub proof fn lemma_diff_independent_of_cache<E: DiffEngine>(
    engine: &E,
    a: DiffResult<E::Position, E::Hunk>,
    b: DiffResult<E::Position, E::Hunk>,
    before_a: Map<Language, E::Config>,
    after_a: Map<Language, E::Config>,
    before_b: Map<Language, E::Config>,
    after_b: Map<Language, E::Config>,
    lhs: &str,
    rhs: &str,
    display_path: &str,
    language_override: Option<Language>,
    options: DiffOptions,
    display: DisplayOptions,
)
    requires
        answers_by_arguments(engine),
        built_by_engine(engine, before_a),
        built_by_engine(engine, before_b),
        diffed(engine, a, before_a, after_a, lhs, rhs, display_path, language_override, options, display),
        diffed(engine, b, before_b, after_b, lhs, rhs, display_path, language_override, options, display),
    ensures
        same_format(a.file_format, b.file_format),
        same_comparison(a, b),
{
    let la = choose|l: Option<Language>|
        #[trigger] diffed_as(
            engine,
            a,
            before_a,
            after_a,
            lhs,
            rhs,
            display_path,
            language_override,
            options,
            display,
            l,
        );
    let lb = choose|l: Option<Language>|
        #[trigger] diffed_as(
            engine,
            b,
            before_b,
            after_b,
            lhs,
            rhs,
            display_path,
            language_override,
            options,
            display,
            l,
        );
    assert(la == lb);
    if lhs@ == rhs@ {
        lemma_bare_results_agree(a, b);
    } else {
        match la {
            None => lemma_text_comparisons_agree(
                engine,
                a,
                b,
                display_path,
                lhs,
                rhs,
                options,
                display,
            ),
            Some(l) => {
                let ca = choose|c: E::Config|
                    #[trigger] compared_with_config(
                        engine,
                        a,
                        before_a,
                        after_a,
                        l,
                        c,
                        display_path,
                        lhs,
                        rhs,
                        options,
                        display,
                    );
                let cb = choose|c: E::Config|
                    #[trigger] compared_with_config(
                        engine,
                        b,
                        before_b,
                        after_b,
                        l,
                        c,
                        display_path,
                        lhs,
                        rhs,
                        options,
                        display,
                    );
                if before_a.contains_key(l) {
                    assert(call_ensures(E::language_config, (engine, l), before_a[l]));
                }
                if before_b.contains_key(l) {
                    assert(call_ensures(E::language_config, (engine, l), before_b[l]));
                }
                assert(ca == cb);
                lemma_language_comparisons_agree(
                    engine,
                    a,
                    b,
                    ca,
                    l,
                    display_path,
                    lhs,
                    rhs,
                    options,
                    display,
                );
            },
        }
    }
}

/// The cache holds only configurations the engine built, before and after
/// any comparison.
pub proof fn lemma_diff_keeps_cache_built_by_engine<E: DiffEngine>(
    engine: &E,
    result: DiffResult<E::Position, E::Hunk>,
    before: Map<Language, E::Config>,
    after: Map<Language, E::Config>,
    lhs: &str,
    rhs: &str,
    display_path: &str,
    language_override: Option<Language>,
    options: DiffOptions,
    display: DisplayOptions,
)
    requires
        built_by_engine(engine, before),
        diffed(engine, result, before, after, lhs, rhs, display_path, language_override, options, display),
    ensures
        built_by_engine(engine, after),
{
    let language = choose|l: Option<Language>|
        #[trigger] diffed_as(
            engine,
            result,
            before,
            after,
            lhs,
            rhs,
            display_path,
            language_override,
            options,
            display,
            l,
        );
    if lhs@ != rhs@ {
        if let Some(l) = language {
            let config = choose|c: E::Config|
                #[trigger] compared_with_config(
                    engine,
                    result,
                    before,
                    after,
                    l,
                    c,
                    display_path,
                    lhs,
                    rhs,
                    options,
                    display,
                );
            assert forall|k: Language| #[trigger] after.contains_key(k) implies call_ensures(
                E::language_config,
                (engine, k),
                after[k],
            ) by {
                if k != l || before.contains_key(l) {
                    assert(before.contains_key(k));
                }
            }
        }
    }
}

/// A comparison in a language is shown under that language, or as a text
/// fallback when the syntax comparison gave up; never under another language.
pub proof fn lemma_language_comparison_format<E: DiffEngine>(
    engine: &E,
    result: DiffResult<E::Position, E::Hunk>,
    config: E::Config,
    language: Language,
    display_path: &str,
    lhs: &str,
    rhs: &str,
    options: DiffOptions,
    display: DisplayOptions,
)
    requires
        compared_in_language(engine, result, config, language, display_path, lhs, rhs, options, display),
    ensures
        result.file_format == FileFormat::SupportedLanguage(language)
            || result.file_format is TextFallback,
{
    let o = choose|o: ParseOutcome<E::Trees>|
        #[trigger] parsed_as(engine, result, config, language, display_path, lhs, rhs, options, display, o);
    match o {
        ParseOutcome::Parsed(trees) => {
            if options.check_only {
                let d = choose|d: bool|
                    #[trigger] checked_syntax(engine, result, trees, language, display_path, lhs, rhs, d);
            } else {
                let f = choose|f: Option<(Vec<E::Position>, Vec<E::Position>)>|
                    #[trigger] matched_syntax(
                        engine,
                        result,
                        trees,
                        config,
                        language,
                        display_path,
                        lhs,
                        rhs,
                        options,
                        display,
                        f,
                    );
            }
        },
        ParseOutcome::ExceededParseErrorLimit(count) => {
            let n = choose|n: String|
                #[trigger] parse_error_fallback(
                    engine,
                    result,
                    language,
                    count,
                    display_path,
                    lhs,
                    rhs,
                    options,
                    display,
                    n,
                );
        },
        ParseOutcome::ExceededByteLimit(_) => {},
    }
}

/// A given language override decides the language of a comparison: the
/// result is shown under the override (or as a text fallback when its syntax
/// comparison gave up), whatever the engine would guess. Without an override
/// the language is the engine's guess from the path and the right-hand side,
/// and without a guess the sides are compared as plain text.
pub proof fn lemma_override_decides_language<E: DiffEngine>(
    engine: &E,
    result: DiffResult<E::Position, E::Hunk>,
    before: Map<Language, E::Config>,
    after: Map<Language, E::Config>,
    lhs: &str,
    rhs: &str,
    display_path: &str,
    language_override: Option<Language>,
    options: DiffOptions,
    display: DisplayOptions,
)
    requires
        diffed(engine, result, before, after, lhs, rhs, display_path, language_override, options, display),
    ensures
        language_override matches Some(l) ==> (result.file_format == FileFormat::SupportedLanguage(l)
            || result.file_format is TextFallback),
        lhs@ == rhs@ ==> (language_override matches Some(l) ==> result.file_format
            == FileFormat::SupportedLanguage(l)),
        language_override is None ==> exists|guess: Option<Language>|
            #[trigger] call_ensures(E::guess_language, (engine, display_path, rhs), guess) && match guess {
                None => result.file_format == FileFormat::PlainText,
                Some(l) => result.file_format == FileFormat::SupportedLanguage(l)
                    || result.file_format is TextFallback,
            },
{
    let language = choose|l: Option<Language>|
        #[trigger] diffed_as(
            engine,
            result,
            before,
            after,
            lhs,
            rhs,
            display_path,
            language_override,
            options,
            display,
            l,
        );
    if lhs@ != rhs@ {
        if let Some(l) = language {
            let config = choose|c: E::Config|
                #[trigger] compared_with_config(
                    engine,
                    result,
                    before,
                    after,
                    l,
                    c,
                    display_path,
                    lhs,
                    rhs,
                    options,
                    display,
                );
            lemma_language_comparison_format(engine, result, config, l, display_path, lhs, rhs, options, display);
        }
    }
    if language_override is None {
        assert(call_ensures(E::guess_language, (engine, display_path, rhs), language));
    }
}

/// Outside `check_only`, the hunks of a comparison of differing texts are
/// the engine's grouping of the result's own positions with exactly the
/// context lines the caller asked for.
pub proof fn lemma_hunks_use_requested_context<E: DiffEngine>(
    engine: &E,
    result: DiffResult<E::Position, E::Hunk>,
    before: Map<Language, E::Config>,
    after: Map<Language, E::Config>,
    lhs: &str,
    rhs: &str,
    display_path: &str,
    language_override: Option<Language>,
    options: DiffOptions,
    display: DisplayOptions,
)
    requires
        diffed(engine, result, before, after, lhs, rhs, display_path, language_override, options, display),
        lhs@ != rhs@,
        !options.check_only,
    ensures
        call_ensures(
            E::hunks,
            (engine, &result.lhs_positions, &result.rhs_positions, lhs, rhs, display.num_context_lines),
            result.hunks,
        ),
{
    let language = choose|l: Option<Language>|
        #[trigger] diffed_as(
            engine,
            result,
            before,
            after,
            lhs,
            rhs,
            display_path,
            language_override,
            options,
            display,
            l,
        );
    if let Some(l) = language {
        let config = choose|c: E::Config|
            #[trigger] compared_with_config(
                engine,
                result,
                before,
                after,
                l,
                c,
                display_path,
                lhs,
                rhs,
                options,
                display,
            );
        let o = choose|o: ParseOutcome<E::Trees>|
            #[trigger] parsed_as(engine, result, config, l, display_path, lhs, rhs, options, display, o);
        match o {
            ParseOutcome::Parsed(trees) => {
                let f = choose|f: Option<(Vec<E::Position>, Vec<E::Position>)>|
                    #[trigger] matched_syntax(
                        engine,
                        result,
                        trees,
                        config,
                        l,
                        display_path,
                        lhs,
                        rhs,
                        options,
                        display,
                        f,
                    );
            },
            ParseOutcome::ExceededParseErrorLimit(count) => {
                let n = choose|n: String|
                    #[trigger] parse_error_fallback(
                        engine,
                        result,
                        l,
                        count,
                        display_path,
                        lhs,
                        rhs,
                        options,
                        display,
                        n,
                    );
            },
            ParseOutcome::ExceededByteLimit(_) => {},
        }
    }
}

/// Results sorted by path are in lexicographic order of the UTF-8 bytes of
/// their whole display paths.
pub proof fn lemma_sorted_by_whole_path<P, H>(results: Seq<DiffResult<P, H>>)
    requires
        sorted_by_path(results),
    ensures
        forall|i: int, j: int|
            0 <= i < j < results.len() ==> bytes_le(
                encode_utf8(#[trigger] results[i].display_path@),
                encode_utf8(#[trigger] results[j].display_path@),
            ),
{
    assert forall|i: int, j: int| 0 <= i < j < results.len() implies bytes_le(
        encode_utf8(#[trigger] results[i].display_path@),
        encode_utf8(#[trigger] results[j].display_path@),
    ) by {
        assert(bytes_le(
            crate::report::path_key(results[i]),
            crate::report::path_key(results[j]),
        ));
    }
}

/// The extra information of a text file starts from its rename note: with
/// equal or unknown permissions it is that note unchanged; with differing
/// permissions a line saying how they changed follows it (or stands alone
/// when there is no rename note).
pub proof fn lemma_rename_note_kept(
    renamed: Option<Seq<char>>,
    lhs_permissions: Option<&str>,
    rhs_permissions: Option<&str>,
)
    ensures
        ({
            let changed = lhs_permissions matches Some(l) && rhs_permissions matches Some(r) && l@
                != r@;
            &&& !changed ==> file_extra_info(renamed, lhs_permissions, rhs_permissions) == renamed
            &&& changed ==> file_extra_info(renamed, lhs_permissions, rhs_permissions) == Some(
                match renamed {
                    Some(note) => note + "\n"@ + "File permissions changed from "@
                        + lhs_permissions.unwrap()@ + " to "@ + rhs_permissions.unwrap()@ + "."@,
                    None => "File permissions changed from "@ + lhs_permissions.unwrap()@ + " to "@
                        + rhs_permissions.unwrap()@ + "."@,
                },
            )
        }),
{
    if let Some(note) = renamed {
        assert(note + "\n"@ + ("File permissions changed from "@ + lhs_permissions.unwrap()@ + " to "@
            + rhs_permissions.unwrap()@ + "."@) =~= note + "\n"@ + "File permissions changed from "@
            + lhs_permissions.unwrap()@ + " to "@ + rhs_permissions.unwrap()@ + "."@);
    }
}

/// A text result with changes but no hunk to show is said to have syntactic
/// changes only when it was compared as a supported language; compared as
/// text (plain, or as a fallback) it is said to have changes.
pub proof fn lemma_changed_note_names_the_comparison<P, H>(
    result: DiffResult<P, H>,
    report: Report,
)
    requires
        report matches Report::Note(note) && note@ == changed_note_text(result),
    ensures
        result.file_format is SupportedLanguage ==> (report matches Report::Note(note) && note@
            == "Has syntactic changes.\n"@),
        !(result.file_format is SupportedLanguage) ==> (report matches Report::Note(note) && note@
            == "Has changes.\n"@),
{
}

/// A text result without syntactic changes is said to have no syntactic
/// changes only when it was compared as a supported language and its two
/// sides differ as text; otherwise it is said to have no changes.
pub proof fn lemma_unchanged_note_names_the_comparison<P, H>(
    result: DiffResult<P, H>,
    report: Report,
)
    requires
        result.lhs_src is Text,
        result.rhs_src is Text,
        report matches Report::Note(note) && note@ == unchanged_note_text(result),
    ensures
        (result.file_format is SupportedLanguage && result.lhs_src->Text_0@
            != result.rhs_src->Text_0@) ==> (report matches Report::Note(note) && note@
            == "No syntactic changes.\n"@),
        !(result.file_format is SupportedLanguage && result.lhs_src->Text_0@
            != result.rhs_src->Text_0@) ==> (report matches Report::Note(note) && note@
            == "No changes.\n"@),
{
}

} // verus!
