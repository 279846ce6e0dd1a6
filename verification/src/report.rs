//! What the command line reports about a comparison, and how it prepares
//! the inputs of one.

use vstd::prelude::*;
use vstd::string::*;

use crate::model::{DiffOptions, DiffResult, DisplayOptions, FileContent, FileFormat};
use crate::order::{
    bytes_le, bytes_le_exec, lemma_bytes_le_reflexive, lemma_bytes_le_total,
    lemma_bytes_le_transitive,
};
use vstd::multiset::Multiset;
use vstd::utf8::encode_utf8;
use crate::laws::{
    lemma_diffed_any_extra_info, lemma_rename_note_kept, lemma_sorted_by_whole_path,
    with_extra_info,
};
use crate::service::{diffed, is_bare, DiffEngine, DiffService};
use crate::size::{binary_size_text, format_binary_size};
use crate::text::{push_char, same_text, strip_cr, without_cr};

verus! {

/// Exit status when no change was found, or none was asked about.
pub const EXIT_SUCCESS: i32 = 0;

/// Exit status when changes were found and the caller asked to know.
pub const EXIT_FOUND_CHANGES: i32 = 1;

/// Exit status for arguments that cannot be used.
pub const EXIT_BAD_ARGUMENTS: i32 = 2;

/// The exit status of a run: changes are reported only when asked for.
pub fn exit_code(set_exit_code: bool, encountered_changes: bool) -> (code: i32)
    ensures
        code == (if set_exit_code && encountered_changes {
            EXIT_FOUND_CHANGES
        } else {
            EXIT_SUCCESS
        }),
{
    if set_exit_code && encountered_changes {
        EXIT_FOUND_CHANGES
    } else {
        EXIT_SUCCESS
    }
}

/// A result has a change worth reporting: differing bytes for a binary file,
/// syntactic changes for text.
pub open spec fn reportable<P, H>(result: DiffResult<P, H>) -> bool {
    if result.lhs_src is Binary || result.rhs_src is Binary {
        result.has_byte_changes is Some
    } else {
        result.has_syntactic_changes
    }
}

impl<P, H> DiffResult<P, H> {
    /// Whether this result has a change worth reporting.
    pub fn has_reportable_change(&self) -> (reportable_change: bool)
        ensures
            reportable_change == reportable(*self),
    {
        match (&self.lhs_src, &self.rhs_src) {
            (FileContent::Binary, _) | (_, FileContent::Binary) => self.has_byte_changes.is_some(),
            _ => self.has_syntactic_changes,
        }
    }
}

/// Whether any of `results` has a change worth reporting.
pub fn any_reportable_change<P, H>(results: &Vec<DiffResult<P, H>>) -> (found: bool)
    ensures
        found == exists|i: int| 0 <= i < results@.len() && reportable(#[trigger] results@[i]),
{
    let mut i: usize = 0;
    while i < results.len()
        invariant
            i <= results@.len(),
            forall|j: int| 0 <= j < i ==> !reportable(#[trigger] results@[j]),
        decreases results@.len() - i,
    {
        if results[i].has_reportable_change() {
            return true;
        }
        i = i + 1;
    }
    false
}

/// The bytes by which a result is sorted: those of its display path.
pub open spec fn path_key<P, H>(result: DiffResult<P, H>) -> Seq<u8> {
    encode_utf8(result.display_path@)
}

/// The results are in lexicographic order of their display paths.
pub open spec fn sorted_by_path<P, H>(results: Seq<DiffResult<P, H>>) -> bool {
    forall|i: int, j: int|
        0 <= i < j < results.len() ==> bytes_le(
            path_key(#[trigger] results[i]),
            path_key(#[trigger] results[j]),
        )
}

/// Where `item` goes in `sorted`: after every result whose path comes no
/// later than its own.
fn insertion_point<P, H>(sorted: &Vec<DiffResult<P, H>>, item: &DiffResult<P, H>) -> (pos: usize)
    ensures
        pos <= sorted@.len(),
        forall|k: int| 0 <= k < pos ==> bytes_le(path_key(#[trigger] sorted@[k]), path_key(*item)),
        pos < sorted@.len() ==> !bytes_le(path_key(sorted@[pos as int]), path_key(*item)),
{
    let key = item.display_path.as_str().as_bytes();
    let mut pos: usize = 0;
    while pos < sorted.len()
        invariant
            pos <= sorted@.len(),
            key@ == path_key(*item),
            forall|k: int| 0 <= k < pos ==> bytes_le(path_key(#[trigger] sorted@[k]), path_key(*item)),
        decreases sorted@.len() - pos,
    {
        let other = sorted[pos].display_path.as_str().as_bytes();
        if !bytes_le_exec(other, key) {
            return pos;
        }
        pos = pos + 1;
    }
    pos
}

/// The results in lexicographic order of their display paths; results with
/// the same path may come in any order.
pub fn sort_by_display_path<P, H>(results: Vec<DiffResult<P, H>>) -> (sorted: Vec<DiffResult<P, H>>)
    ensures
        sorted@.to_multiset() == results@.to_multiset(),
        sorted_by_path(sorted@),
        forall|i: int, j: int|
            0 <= i < j < sorted@.len() ==> bytes_le(
                encode_utf8(#[trigger] sorted@[i].display_path@),
                encode_utf8(#[trigger] sorted@[j].display_path@),
            ),
{
    broadcast use vstd::seq_lib::group_to_multiset_ensures;
    broadcast use vstd::multiset::group_multiset_axioms;

    let mut rest = results;
    let mut sorted: Vec<DiffResult<P, H>> = Vec::new();
    assert(sorted@.to_multiset() =~= Multiset::empty());
    assert(sorted@.to_multiset().add(rest@.to_multiset()) =~= results@.to_multiset());
    while rest.len() > 0
        invariant
            sorted@.to_multiset().add(rest@.to_multiset()) == results@.to_multiset(),
            sorted_by_path(sorted@),
        decreases rest@.len(),
    {
        let ghost before_rest = rest@;
        let ghost before = sorted@;
        let item = match rest.pop() {
            Some(item) => item,
            None => {
                assert(false);
                return sorted;
            },
        };
        proof {
            assert(before_rest =~= rest@.push(item));
        }
        let pos = insertion_point(&sorted, &item);
        sorted.insert(pos, item);
        proof {
            vstd::seq_lib::to_multiset_insert(before, pos as int, item);
            vstd::seq_lib::to_multiset_build(rest@, item);
            assert(sorted@.to_multiset() == before.to_multiset().insert(item));
            assert(before_rest.to_multiset() == rest@.to_multiset().insert(item));
            assert(sorted@.to_multiset().add(rest@.to_multiset()) =~= results@.to_multiset());
            let s = sorted@;
            before.insert_ensures(pos as int, item);
            assert forall|i: int, j: int| 0 <= i < j < s.len() implies bytes_le(
                path_key(#[trigger] s[i]),
                path_key(#[trigger] s[j]),
            ) by {
                let p = pos as int;
                if j < p {
                    assert(s[i] == before[i] && s[j] == before[j]);
                } else if j == p {
                    assert(s[i] == before[i]);
                } else if i > p {
                    assert(s[i] == before[i - 1] && s[j] == before[j - 1]);
                } else if i == p {
                    assert(s[j] == before[j - 1]);
                    lemma_bytes_le_total(path_key(before[p]), path_key(item));
                    if j - 1 > p {
                        assert(bytes_le(path_key(before[p]), path_key(before[j - 1])));
                    } else {
                        lemma_bytes_le_reflexive(path_key(before[p]));
                    }
                    lemma_bytes_le_transitive(path_key(item), path_key(before[p]), path_key(before[j - 1]));
                } else {
                    assert(s[i] == before[i] && s[j] == before[j - 1]);
                }
            }
        }
    }
    assert(rest@.to_multiset() =~= Multiset::empty());
    assert(sorted@.to_multiset() =~= results@.to_multiset());
    proof {
        lemma_sorted_by_whole_path(sorted@);
    }
    sorted
}

/// The warning given when both sides name the same path.
pub open spec fn same_path_text(is_dir: bool) -> Seq<char> {
    "You've specified the same "@ + (if is_dir {
        "directory"@
    } else {
        "file"@
    }) + " twice."@
}

/// The warning given when both sides name the same file or directory.
pub fn same_path_warning(is_dir: bool) -> (warning: String)
    ensures
        warning@ == same_path_text(is_dir),
{
    let mut warning = String::from_str("You've specified the same ");
    if is_dir {
        warning.append("directory");
    } else {
        warning.append("file");
    }
    warning.append(" twice.");
    warning
}

/// Whether two byte strings are equal.
pub fn same_bytes(lhs: &[u8], rhs: &[u8]) -> (equal: bool)
    ensures
        equal == (lhs@ == rhs@),
{
    if lhs.len() != rhs.len() {
        return false;
    }
    let mut i: usize = 0;
    while i < lhs.len()
        invariant
            lhs@.len() == rhs@.len(),
            i <= lhs@.len(),
            forall|j: int| 0 <= j < i ==> lhs@[j] == rhs@[j],
        decreases lhs@.len() - i,
    {
        if lhs[i] != rhs[i] {
            return false;
        }
        i = i + 1;
    }
    assert(lhs@ =~= rhs@);
    true
}

/// `result` tells only whether the bytes `lhs` and `rhs` of a binary file
/// differ, and their sizes when they do.
pub open spec fn binary_shape<P, H>(
    result: DiffResult<P, H>,
    display_path: &str,
    extra_info: Option<String>,
    lhs: Seq<u8>,
    rhs: Seq<u8>,
) -> bool {
    &&& result.display_path@ == display_path@
    &&& result.extra_info == extra_info
    &&& result.file_format == FileFormat::Binary
    &&& result.lhs_src is Binary
    &&& result.rhs_src is Binary
    &&& is_bare(result)
    &&& result.has_byte_changes == (if lhs == rhs {
        None
    } else {
        Some((lhs.len() as usize, rhs.len() as usize))
    })
    &&& !result.has_syntactic_changes
}

/// The result for two files of which at least one is binary: only whether
/// their bytes differ, and their sizes when they do.
pub fn binary_result<P, H>(
    display_path: &str,
    extra_info: Option<String>,
    lhs_bytes: &[u8],
    rhs_bytes: &[u8],
) -> (result: DiffResult<P, H>)
    ensures
        binary_shape(result, display_path, extra_info, lhs_bytes@, rhs_bytes@),
{
    let has_byte_changes = if same_bytes(lhs_bytes, rhs_bytes) {
        None
    } else {
        Some((lhs_bytes.len(), rhs_bytes.len()))
    };
    DiffResult {
        extra_info,
        display_path: display_path.to_owned(),
        file_format: FileFormat::Binary,
        lhs_src: FileContent::Binary,
        rhs_src: FileContent::Binary,
        lhs_positions: Vec::new(),
        rhs_positions: Vec::new(),
        hunks: Vec::new(),
        has_byte_changes,
        has_syntactic_changes: false,
    }
}

/// `s` with a newline added at the end unless it is empty or already ends
/// with one.
pub open spec fn with_final_newline(s: Seq<char>) -> Seq<char> {
    if s.len() == 0 || s.last() == '\n' {
        s
    } else {
        s.push('\n')
    }
}

/// The text that is compared for a file's source: carriage returns removed
/// when asked, and a final newline added when missing.
pub open spec fn prepared_source(src: Seq<char>, strip_cr: bool) -> Seq<char> {
    with_final_newline(if strip_cr { without_cr(src) } else { src })
}

/// Prepares a file's source for comparison.
pub fn prepare_source(src: String, strip: bool) -> (prepared: String)
    ensures
        prepared@ == prepared_source(src@, strip),
{
    let mut text = if strip {
        strip_cr(src.as_str())
    } else {
        src
    };
    let n = text.as_str().unicode_len();
    if n > 0 && text.as_str().get_char(n - 1) != '\n' {
        push_char(&mut text, '\n');
    }
    text
}

/// The note given when the file permissions differ.
pub open spec fn permissions_text(lhs: Seq<char>, rhs: Seq<char>) -> Seq<char> {
    "File permissions changed from "@ + lhs + " to "@ + rhs + "."@
}

/// The extra information shown about a file, given what was known before and
/// the permissions of both sides as shown to the user.
pub open spec fn with_permissions_note(
    extra_info: Option<Seq<char>>,
    lhs_permissions: Seq<char>,
    rhs_permissions: Seq<char>,
) -> Option<Seq<char>> {
    if lhs_permissions == rhs_permissions {
        extra_info
    } else {
        match extra_info {
            Some(info) => Some(info + "\n"@ + permissions_text(lhs_permissions, rhs_permissions)),
            None => Some(permissions_text(lhs_permissions, rhs_permissions)),
        }
    }
}

/// The view of an optional text.
pub open spec fn opt_view(s: Option<String>) -> Option<Seq<char>> {
    match s {
        Some(t) => Some(t@),
        None => None,
    }
}

/// Adds a note on changed permissions to `extra_info` when the two sides'
/// permissions, as shown to the user, differ.
pub fn add_permissions_note(
    extra_info: Option<String>,
    lhs_permissions: &str,
    rhs_permissions: &str,
) -> (info: Option<String>)
    ensures
        opt_view(info) == with_permissions_note(
            opt_view(extra_info),
            lhs_permissions@,
            rhs_permissions@,
        ),
{
    if same_text(lhs_permissions, rhs_permissions) {
        return extra_info;
    }
    let mut msg = String::from_str("File permissions changed from ");
    msg.append(lhs_permissions);
    msg.append(" to ");
    msg.append(rhs_permissions);
    msg.append(".");
    match extra_info {
        Some(info) => {
            let mut info = info;
            info.append("\n");
            info.append(msg.as_str());
            Some(info)
        },
        None => Some(msg),
    }
}

/// How one side of a conflict is named: its branch name in quotes, or the
/// given description.
pub open spec fn side_name_text(name: Option<Seq<char>>, fallback: Seq<char>) -> Seq<char> {
    match name {
        Some(n) => "'"@ + n + "'"@,
        None => fallback,
    }
}

/// Names one side of a conflict.
pub fn conflict_side_name(name: &Option<String>, fallback: &str) -> (text: String)
    ensures
        text@ == side_name_text(opt_view(*name), fallback@),
{
    match name {
        Some(n) => {
            let mut text = String::from_str("'");
            text.append(n.as_str());
            text.append("'");
            text
        },
        None => fallback.to_owned(),
    }
}

/// The note shown on a comparison of the two sides of a conflicted file.
pub open spec fn conflict_note_text(lhs_name: Option<Seq<char>>, rhs_name: Option<Seq<char>>) -> Seq<char> {
    "Showing the result of replacing every conflict in "@ + side_name_text(lhs_name, "the left file"@)
        + " with "@ + side_name_text(rhs_name, "the right file"@) + "."@
}

/// The note shown on a comparison of the two sides of a conflicted file,
/// given the branch names found in its markers.
pub fn conflict_note(lhs_name: &Option<String>, rhs_name: &Option<String>) -> (note: String)
    ensures
        note@ == conflict_note_text(opt_view(*lhs_name), opt_view(*rhs_name)),
{
    let lhs = conflict_side_name(lhs_name, "the left file");
    let rhs = conflict_side_name(rhs_name, "the right file");
    let mut note = String::from_str("Showing the result of replacing every conflict in ");
    note.append(lhs.as_str());
    note.append(" with ");
    note.append(rhs.as_str());
    note.append(".");
    note
}

/// The error given for a single file without conflict markers, given the
/// marker as it is shown.
pub open spec fn no_conflicts_text(marker: Seq<char>) -> Seq<char> {
    "Difftastic requires two paths, or a single file with conflict markers "@ + marker + ".\n"@
}

/// The error given for a single file without conflict markers.
pub fn no_conflicts_message(marker: &str) -> (message: String)
    ensures
        message@ == no_conflicts_text(marker@),
{
    let mut message = String::from_str(
        "Difftastic requires two paths, or a single file with conflict markers ",
    );
    message.append(marker);
    message.append(".\n");
    message
}

/// What to print for one result.
#[derive(Debug)]
pub enum Report {
    /// Nothing.
    Silent,
    /// The header, then this note.
    Note(String),
    /// The hunks, in the chosen layout.
    Hunks,
}

/// The note on a binary comparison, given the size texts of both sides.
pub open spec fn binary_note_text(
    has_byte_changes: Option<(usize, usize)>,
    lhs_size: Seq<char>,
    rhs_size: Seq<char>,
) -> Seq<char> {
    match has_byte_changes {
        Some((lhs_len, rhs_len)) => if lhs_len == 0 {
            "Binary file added ("@ + rhs_size + ").\n"@
        } else if rhs_len == 0 {
            "Binary file removed ("@ + lhs_size + ").\n"@
        } else {
            "Binary file modified (old: "@ + lhs_size + ", new: "@ + rhs_size + ").\n"@
        },
        None => "No changes.\n"@,
    }
}

/// The note on a binary comparison, given the texts of both sides' sizes.
pub fn binary_note_with_sizes(
    has_byte_changes: Option<(usize, usize)>,
    lhs_size: &str,
    rhs_size: &str,
) -> (note: String)
    ensures
        note@ == binary_note_text(has_byte_changes, lhs_size@, rhs_size@),
{
    match has_byte_changes {
        Some((lhs_len, rhs_len)) => {
            if lhs_len == 0 {
                let mut note = String::from_str("Binary file added (");
                note.append(rhs_size);
                note.append(").\n");
                note
            } else if rhs_len == 0 {
                let mut note = String::from_str("Binary file removed (");
                note.append(lhs_size);
                note.append(").\n");
                note
            } else {
                let mut note = String::from_str("Binary file modified (old: ");
                note.append(lhs_size);
                note.append(", new: ");
                note.append(rhs_size);
                note.append(").\n");
                note
            }
        },
        None => String::from_str("No changes.\n"),
    }
}

/// The sizes of both sides as shown, when the bytes differ.
pub open spec fn size_texts(has_byte_changes: Option<(usize, usize)>) -> (Seq<char>, Seq<char>) {
    match has_byte_changes {
        Some((l, r)) => (binary_size_text(l), binary_size_text(r)),
        None => (Seq::empty(), Seq::empty()),
    }
}

/// The note on a binary comparison.
pub fn binary_note(has_byte_changes: Option<(usize, usize)>) -> (note: String)
    ensures
        note@ == binary_note_text(
            has_byte_changes,
            size_texts(has_byte_changes).0,
            size_texts(has_byte_changes).1,
        ),
{
    match has_byte_changes {
        Some((lhs_len, rhs_len)) => {
            let lhs_size = format_binary_size(lhs_len);
            let rhs_size = format_binary_size(rhs_len);
            binary_note_with_sizes(has_byte_changes, lhs_size.as_str(), rhs_size.as_str())
        },
        None => binary_note_with_sizes(None, "", ""),
    }
}

/// Both sides of a text result hold the same text.
pub open spec fn same_sources<P, H>(result: DiffResult<P, H>) -> bool {
    match (result.lhs_src, result.rhs_src) {
        (FileContent::Text(l), FileContent::Text(r)) => l@ == r@,
        _ => false,
    }
}

/// The note on a text result without syntactic changes.
pub open spec fn unchanged_note_text<P, H>(result: DiffResult<P, H>) -> Seq<char> {
    if same_sources(result) {
        "No changes.\n"@
    } else if result.file_format is SupportedLanguage {
        "No syntactic changes.\n"@
    } else {
        "No changes.\n"@
    }
}

/// The note on a text result with changes but no hunks to show.
pub open spec fn changed_note_text<P, H>(result: DiffResult<P, H>) -> Seq<char> {
    if result.file_format is SupportedLanguage {
        "Has syntactic changes.\n"@
    } else {
        "Has changes.\n"@
    }
}

/// Both sides are text, or both are binary.
pub open spec fn sides_agree<P, H>(result: DiffResult<P, H>) -> bool {
    (result.lhs_src is Text && result.rhs_src is Text) || (result.lhs_src is Binary
        && result.rhs_src is Binary)
}

/// What to print for `result`. Unchanged files are mentioned only when
/// `print_unchanged` is set.
pub fn report<P, H>(result: &DiffResult<P, H>, print_unchanged: bool) -> (report: Report)
    requires
        sides_agree(*result),
    ensures
        result.lhs_src is Text ==> if !result.has_syntactic_changes {
            if print_unchanged {
                report matches Report::Note(note) && note@ == unchanged_note_text(*result)
            } else {
                report is Silent
            }
        } else if result.hunks@.len() == 0 {
            report matches Report::Note(note) && note@ == changed_note_text(*result)
        } else {
            report is Hunks
        },
        result.lhs_src is Binary ==> if print_unchanged || result.has_byte_changes is Some {
            report matches Report::Note(note) && note@ == binary_note_text(
                result.has_byte_changes,
                size_texts(result.has_byte_changes).0,
                size_texts(result.has_byte_changes).1,
            )
        } else {
            report is Silent
        },
        result.lhs_src is Text && !result.has_syntactic_changes && print_unchanged ==> (
        report matches Report::Note(note) && note@ == (if result.file_format is SupportedLanguage
            && result.lhs_src->Text_0@ != result.rhs_src->Text_0@ {
            "No syntactic changes.\n"@
        } else {
            "No changes.\n"@
        })),
        result.lhs_src is Text && result.has_syntactic_changes && result.hunks@.len() == 0 ==> (
        report matches Report::Note(note) && note@ == (if result.file_format is SupportedLanguage {
            "Has syntactic changes.\n"@
        } else {
            "Has changes.\n"@
        })),
{
    match (&result.lhs_src, &result.rhs_src) {
        (FileContent::Text(lhs_src), FileContent::Text(rhs_src)) => {
            if !result.has_syntactic_changes {
                if print_unchanged {
                    let note = if same_text(lhs_src.as_str(), rhs_src.as_str()) {
                        String::from_str("No changes.\n")
                    } else {
                        match result.file_format {
                            FileFormat::SupportedLanguage(_) => String::from_str(
                                "No syntactic changes.\n",
                            ),
                            _ => String::from_str("No changes.\n"),
                        }
                    };
                    return Report::Note(note);
                }
                return Report::Silent;
            }
            if result.hunks.len() == 0 {
                let note = match result.file_format {
                    FileFormat::SupportedLanguage(_) => String::from_str("Has syntactic changes.\n"),
                    _ => String::from_str("Has changes.\n"),
                };
                return Report::Note(note);
            }
            Report::Hunks
        },
        _ => {
            if print_unchanged || result.has_byte_changes.is_some() {
                Report::Note(binary_note(result.has_byte_changes))
            } else {
                Report::Silent
            }
        },
    }
}

impl<C> DiffService<C> {
    /// Compares two prepared sources and attaches `extra_info` to the result.
    pub fn diff_file_content<E: DiffEngine<Config = C>>(
        &mut self,
        engine: &E,
        display_path: &str,
        extra_info: Option<String>,
        lhs_src: &str,
        rhs_src: &str,
        display_options: &DisplayOptions,
        diff_options: &DiffOptions,
    ) -> (result: DiffResult<E::Position, E::Hunk>)
        ensures
            diffed(
                engine,
                result,
                old(self).configs(),
                final(self).configs(),
                lhs_src,
                rhs_src,
                display_path,
                None,
                *diff_options,
                *display_options,
            ),
            result.extra_info == extra_info,
    {
        let mut result = self.diff(
            engine,
            lhs_src,
            rhs_src,
            display_path,
            None,
            diff_options,
            display_options,
        );
        let ghost diffed_result = result;
        let ghost info = extra_info;
        result.extra_info = extra_info;
        proof {
            lemma_diffed_any_extra_info(
                engine,
                diffed_result,
                info,
                old(self).configs(),
                self.configs(),
                lhs_src,
                rhs_src,
                display_path,
                None,
                *diff_options,
                *display_options,
            );
            assert(result == with_extra_info(diffed_result, info));
        }
        result
    }
}

/// What a file's bytes were taken to be.
pub enum ProbableFileKind {
    /// Text, decoded.
    Text(String),
    /// Binary content.
    Binary,
}

/// The texts of the two sides that a file with conflict markers stands for,
/// with the branch names found in the markers.
pub struct ConflictFiles {
    pub lhs_name: Option<String>,
    pub rhs_name: Option<String>,
    pub lhs_content: String,
    pub rhs_content: String,
    pub num_conflicts: usize,
}

/// The extra information shown about a file: what was known before, with a
/// note on changed permissions when both sides' permissions are known.
pub open spec fn file_extra_info(
    renamed: Option<Seq<char>>,
    lhs_permissions: Option<&str>,
    rhs_permissions: Option<&str>,
) -> Option<Seq<char>> {
    match (lhs_permissions, rhs_permissions) {
        (Some(l), Some(r)) => with_permissions_note(renamed, l@, r@),
        _ => renamed,
    }
}

/// Whether a file is compared by its bytes alone: when it is to be treated
/// as binary, or either side is not text.
pub open spec fn takes_binary(
    lhs_kind: ProbableFileKind,
    rhs_kind: ProbableFileKind,
    assume_binary: bool,
) -> bool {
    assume_binary || !(lhs_kind is Text && rhs_kind is Text)
}

/// `result` compares the prepared texts `lhs` and `rhs` of a file, with
/// `extra_info` shown beside it.
pub open spec fn text_file_diffed<E: DiffEngine>(
    engine: &E,
    result: DiffResult<E::Position, E::Hunk>,
    before: Map<crate::model::Language, E::Config>,
    after: Map<crate::model::Language, E::Config>,
    lhs: &str,
    rhs: &str,
    lhs_text: Seq<char>,
    rhs_text: Seq<char>,
    display_path: &str,
    extra_info: Option<Seq<char>>,
    options: DiffOptions,
    display: DisplayOptions,
) -> bool {
    &&& lhs@ == prepared_source(lhs_text, options.strip_cr)
    &&& rhs@ == prepared_source(rhs_text, options.strip_cr)
    &&& diffed(engine, result, before, after, lhs, rhs, display_path, None, options, display)
    &&& opt_view(result.extra_info) == extra_info
}

impl<C> DiffService<C> {
    /// Compares two files, given their bytes and what they were taken to be:
    /// when either side is binary, or the file is to be treated as binary,
    /// only whether the bytes differ; otherwise the prepared texts, with a
    /// note on changed permissions.
    pub fn diff_file<E: DiffEngine<Config = C>>(
        &mut self,
        engine: &E,
        display_path: &str,
        renamed: Option<String>,
        lhs_bytes: &[u8],
        rhs_bytes: &[u8],
        lhs_kind: ProbableFileKind,
        rhs_kind: ProbableFileKind,
        assume_binary: bool,
        lhs_permissions: Option<&str>,
        rhs_permissions: Option<&str>,
        display_options: &DisplayOptions,
        diff_options: &DiffOptions,
    ) -> (result: DiffResult<E::Position, E::Hunk>)
        ensures
            !takes_binary(lhs_kind, rhs_kind, assume_binary) ==> exists|lhs: &str, rhs: &str|
                #[trigger] text_file_diffed(
                    engine,
                    result,
                    old(self).configs(),
                    final(self).configs(),
                    lhs,
                    rhs,
                    lhs_kind->Text_0@,
                    rhs_kind->Text_0@,
                    display_path,
                    file_extra_info(opt_view(renamed), lhs_permissions, rhs_permissions),
                    *diff_options,
                    *display_options,
                ),
            !takes_binary(lhs_kind, rhs_kind, assume_binary) ==> opt_view(result.extra_info) == (
            if lhs_permissions matches Some(l) && rhs_permissions matches Some(r) && l@ != r@ {
                Some(
                    match renamed {
                        Some(note) => note@ + "\n"@ + "File permissions changed from "@
                            + lhs_permissions.unwrap()@ + " to "@ + rhs_permissions.unwrap()@ + "."@,
                        None => "File permissions changed from "@ + lhs_permissions.unwrap()@
                            + " to "@ + rhs_permissions.unwrap()@ + "."@,
                    },
                )
            } else {
                opt_view(renamed)
            }),
            takes_binary(lhs_kind, rhs_kind, assume_binary) ==> binary_shape(
                result,
                display_path,
                renamed,
                lhs_bytes@,
                rhs_bytes@,
            ),
            takes_binary(lhs_kind, rhs_kind, assume_binary) ==> final(self).configs() == old(
                self,
            ).configs(),
    {
        let text_sides = if assume_binary {
            None
        } else {
            match (lhs_kind, rhs_kind) {
                (ProbableFileKind::Text(lhs_src), ProbableFileKind::Text(rhs_src)) => Some(
                    (lhs_src, rhs_src),
                ),
                _ => None,
            }
        };
        let (lhs_src, rhs_src) = match text_sides {
            Some(sides) => sides,
            None => {
                return binary_result(display_path, renamed, lhs_bytes, rhs_bytes);
            },
        };
        let ghost lhs_text = lhs_src@;
        let ghost rhs_text = rhs_src@;
        let lhs_src = prepare_source(lhs_src, diff_options.strip_cr);
        let rhs_src = prepare_source(rhs_src, diff_options.strip_cr);
        let extra_info = match (lhs_permissions, rhs_permissions) {
            (Some(lhs_perms), Some(rhs_perms)) => add_permissions_note(renamed, lhs_perms, rhs_perms),
            _ => renamed,
        };
        let lhs = lhs_src.as_str();
        let rhs = rhs_src.as_str();
        let result = self.diff_file_content(
            engine,
            display_path,
            extra_info,
            lhs,
            rhs,
            display_options,
            diff_options,
        );
        assert(text_file_diffed(engine, result, old(self).configs(), self.configs(), lhs, rhs,
            lhs_text, rhs_text, display_path, file_extra_info(opt_view(renamed), lhs_permissions,
            rhs_permissions), *diff_options, *display_options));
        proof {
            lemma_rename_note_kept(opt_view(renamed), lhs_permissions, rhs_permissions);
        }
        result
    }

    /// Compares the two sides of a file with conflict markers. Without any
    /// conflict there is nothing to compare, and the error says what was
    /// expected, showing `marker` for the conflict marker.
    pub fn diff_conflicts_file<E: DiffEngine<Config = C>>(
        &mut self,
        engine: &E,
        display_path: &str,
        conflict_files: &ConflictFiles,
        marker: &str,
        display_options: &DisplayOptions,
        diff_options: &DiffOptions,
    ) -> (outcome: Result<DiffResult<E::Position, E::Hunk>, String>)
        ensures
            conflict_files.num_conflicts == 0 <==> outcome is Err,
            outcome matches Err(message) ==> message@ == no_conflicts_text(marker@)
                && final(self).configs() == old(self).configs(),
            outcome matches Ok(result) ==> exists|lhs: &str, rhs: &str|
                #[trigger] conflict_sides_diffed(
                    engine,
                    result,
                    old(self).configs(),
                    final(self).configs(),
                    lhs,
                    rhs,
                    *conflict_files,
                    display_path,
                    *diff_options,
                    *display_options,
                ),
    {
        if conflict_files.num_conflicts == 0 {
            return Err(no_conflicts_message(marker));
        }
        let note = conflict_note(&conflict_files.lhs_name, &conflict_files.rhs_name);
        let lhs = conflict_files.lhs_content.as_str();
        let rhs = conflict_files.rhs_content.as_str();
        let result = self.diff_file_content(
            engine,
            display_path,
            Some(note),
            lhs,
            rhs,
            display_options,
            diff_options,
        );
        assert(conflict_sides_diffed(engine, result, old(self).configs(), self.configs(), lhs, rhs,
            *conflict_files, display_path, *diff_options, *display_options));
        Ok(result)
    }
}

/// `result` compares the two sides of a conflicted file, noting which
/// branches they come from.
pub open spec fn conflict_sides_diffed<E: DiffEngine>(
    engine: &E,
    result: DiffResult<E::Position, E::Hunk>,
    before: Map<crate::model::Language, E::Config>,
    after: Map<crate::model::Language, E::Config>,
    lhs: &str,
    rhs: &str,
    conflict_files: ConflictFiles,
    display_path: &str,
    options: DiffOptions,
    display: DisplayOptions,
) -> bool {
    &&& lhs@ == conflict_files.lhs_content@
    &&& rhs@ == conflict_files.rhs_content@
    &&& diffed(engine, result, before, after, lhs, rhs, display_path, None, options, display)
    &&& opt_view(result.extra_info) == Some(
        conflict_note_text(opt_view(conflict_files.lhs_name), opt_view(conflict_files.rhs_name)),
    )
}

} // verus!
