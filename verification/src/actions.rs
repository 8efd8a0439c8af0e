//! The four actions that change the tree: creating and deleting notes and
//! projects.
//!
//! Each action is decided here and carried out elsewhere: a function takes
//! what was asked for and what was found on disk, and says which operation
//! on the file system is to follow and what to tell the user.

use vstd::prelude::*;
use crate::path::{full_path_of, full_path_text, PathParts};
use crate::structs::Config;
use crate::text::{
    decimal, decimal_reads_back, decimal_text, is_whitespace, is_whitespace_char, name_listed,
    one_is_not_listed, trimmed, trimmed_is_empty_of_blank,
};
use vstd::string::group_string_axioms;

verus! {

broadcast use group_string_axioms;

/// The editor in which a new note is opened.
pub const EDITOR: &'static str = "nvim";

/// What the check of a proposed name found.
#[derive(Debug, Clone, Copy, PartialEq, Eq, Structural)]
pub enum NameCheck {
    Valid,
    /// The name holds a character that no name may hold.
    InvalidCharacter,
    /// Nothing is left of the name once the whitespace around it is gone.
    Empty,
}

/// The punctuation that no name may hold: path separators, quotes, and
/// what a shell reads.
pub open spec fn is_barred_punctuation(c: char) -> bool {
    ||| c == '/'
    ||| c == '\\'
    ||| c == '"'
    ||| c == '\''
    ||| c == '*'
    ||| c == ';'
    ||| c == '-'
    ||| c == '?'
    ||| c == '['
    ||| c == ']'
    ||| c == '('
    ||| c == ')'
    ||| c == '~'
    ||| c == '!'
    ||| c == '$'
    ||| c == '{'
    ||| c == '}'
    ||| c == '<'
    ||| c == '>'
    ||| c == '#'
    ||| c == '@'
    ||| c == '&'
    ||| c == '|'
}

/// The characters that no name may hold: every kind of whitespace, and the
/// barred punctuation.
pub open spec fn is_disallowed(c: char) -> bool {
    is_whitespace(c) || is_barred_punctuation(c)
}

/// Some character of the name is disallowed.
pub open spec fn has_disallowed(name: Seq<char>) -> bool {
    exists|i: int| 0 <= i < name.len() && is_disallowed(#[trigger] name[i])
}

/// The check of a proposed name: a disallowed character is reported first;
/// a name of which trimming leaves nothing is empty; any other name is
/// valid.
pub open spec fn name_check_of(name: Seq<char>) -> NameCheck {
    if has_disallowed(name) {
        NameCheck::InvalidCharacter
    } else if trimmed(name).len() == 0 {
        NameCheck::Empty
    } else {
        NameCheck::Valid
    }
}

/// Whether the character is one that no name may hold.
pub fn is_disallowed_char(c: char) -> (bad: bool)
    ensures
        bad == is_disallowed(c),
{
    is_whitespace_char(c) || c == '/' || c == '\\' || c == '"' || c == '\'' || c == '*' || c
        == ';' || c == '-' || c == '?' || c == '[' || c == ']' || c == '(' || c == ')' || c == '~'
        || c == '!' || c == '$' || c == '{' || c == '}' || c == '<' || c == '>' || c == '#' || c
        == '@' || c == '&' || c == '|'
}

/// Checks a proposed name for a note or a project.
pub fn validate_name(name: &str) -> (check: NameCheck)
    ensures
        check == name_check_of(name@),
{
    let mut empty = true;
    for c in it: name.chars()
        invariant
            it.seq() == name@,
            forall|j: int| 0 <= j < it.index() ==> !is_disallowed(#[trigger] name@[j]),
            empty == (it.index() == 0),
    {
        if is_disallowed_char(c) {
            return NameCheck::InvalidCharacter;
        }
        empty = false;
    }
    proof {
        names_without_whitespace(name@);
    }
    if empty {
        NameCheck::Empty
    } else {
        NameCheck::Valid
    }
}

/// Of a name that holds no disallowed character, trimming leaves nothing
/// exactly if the name has no character at all.
pub proof fn names_without_whitespace(name: Seq<char>)
    requires
        !has_disallowed(name),
    ensures
        trimmed(name).len() == 0 <==> name.len() == 0,
{
    trimmed_is_empty_of_blank(name);
    if name.len() > 0 {
        assert(!is_disallowed(name[0]));
    }
}

/// A name that holds whitespace of any kind, or barred punctuation, is
/// turned down for its characters; the only name that is turned down as
/// empty is the one without a character; so no name is valid of which
/// trimming leaves nothing.
pub proof fn valid_names_are_solid(name: Seq<char>)
    ensures
        (exists|i: int| 0 <= i < name.len() && is_whitespace(#[trigger] name[i]))
            ==> name_check_of(name) == NameCheck::InvalidCharacter,
        has_disallowed(name) <==> name_check_of(name) == NameCheck::InvalidCharacter,
        name_check_of(name) == NameCheck::Empty <==> name.len() == 0,
        trimmed(name).len() == 0 ==> name_check_of(name) != NameCheck::Valid,
{
    if exists|i: int| 0 <= i < name.len() && is_whitespace(#[trigger] name[i]) {
        let i = choose|i: int| 0 <= i < name.len() && is_whitespace(#[trigger] name[i]);
        assert(is_disallowed(name[i]));
    }
    if !has_disallowed(name) {
        names_without_whitespace(name);
    }
}

impl NameCheck {
    /// What to tell the user about a name that was turned down.
    pub open spec fn message_of(self) -> Option<Seq<char>> {
        match self {
            NameCheck::Valid => None,
            NameCheck::InvalidCharacter => Some("Name contains invalid character"@),
            NameCheck::Empty => Some("Name is length zero"@),
        }
    }

    /// What to tell the user about a name that was turned down.
    pub fn message(&self) -> (text: Option<String>)
        ensures
            text is Some <==> self.message_of() is Some,
            text matches Some(t) ==> Some(t@) == self.message_of(),
    {
        match self {
            NameCheck::Valid => None,
            NameCheck::InvalidCharacter => Some(
                String::from_str("Name contains invalid character"),
            ),
            NameCheck::Empty => Some(String::from_str("Name is length zero")),
        }
    }
}

/// An operation on the file system. Its path is counted from the root.
#[derive(Debug)]
pub enum FileOp {
    /// Nothing is to be touched.
    Nothing,
    /// An empty file is to be created.
    CreateFile(PathParts),
    /// A directory is to be created.
    CreateDirectory(PathParts),
    /// A single file is to be removed.
    RemoveFile(PathParts),
    /// A directory is to be removed with all that lies in it.
    RemoveTree(PathParts),
}

/// A `FileOp` with its path as a sequence of components.
pub enum FileOpView {
    Nothing,
    CreateFile(Seq<Seq<char>>),
    CreateDirectory(Seq<Seq<char>>),
    RemoveFile(Seq<Seq<char>>),
    RemoveTree(Seq<Seq<char>>),
}

impl View for FileOp {
    type V = FileOpView;

    open spec fn view(&self) -> FileOpView {
        match self {
            FileOp::Nothing => FileOpView::Nothing,
            FileOp::CreateFile(p) => FileOpView::CreateFile(p@),
            FileOp::CreateDirectory(p) => FileOpView::CreateDirectory(p@),
            FileOp::RemoveFile(p) => FileOpView::RemoveFile(p@),
            FileOp::RemoveTree(p) => FileOpView::RemoveTree(p@),
        }
    }
}

impl FileOp {
    /// Whether the catalog has to be built anew once this operation has
    /// been carried out: after every operation that touches the tree.
    pub fn needs_rebuild(&self) -> (needed: bool)
        ensures
            needed == !(self@ is Nothing),
    {
        match self {
            FileOp::Nothing => false,
            _ => true,
        }
    }
}

/// What an action comes to: the operation to carry out and what to tell the
/// user once it is done.
#[derive(Debug)]
pub struct Plan {
    pub op: FileOp,
    pub message: String,
}

/// What is put behind a note's name at the given attempt: nothing at the
/// first, then `_1`, `_2` and so on.
pub open spec fn suffix_of(attempt: nat) -> Seq<char> {
    if attempt == 0 {
        Seq::empty()
    } else {
        seq!['_'] + decimal(attempt)
    }
}

/// The file name tried for a note at the given attempt.
pub open spec fn note_file_name_of(name: Seq<char>, attempt: nat) -> Seq<char> {
    name + suffix_of(attempt) + seq!['.', 'm', 'd']
}

/// The first attempt, from `from` on, whose file name is not taken. The
/// search stops at attempt `taken.len()`: by then one more name has been
/// tried than can be taken.
pub open spec fn free_attempt(name: Seq<char>, taken: Seq<Seq<char>>, from: nat) -> nat
    decreases taken.len() - from,
{
    if from >= taken.len() || !taken.contains(note_file_name_of(name, from)) {
        from
    } else {
        free_attempt(name, taken, from + 1)
    }
}

/// The file name tried for a note at the given attempt.
pub fn note_file_name(name: &str, attempt: usize) -> (file_name: String)
    ensures
        file_name@ == note_file_name_of(name@, attempt as nat),
{
    let mut file_name = String::from_str(name);
    if attempt > 0 {
        file_name.append("_");
        file_name.append(decimal_text(attempt).as_str());
    }
    file_name.append(".md");
    proof {
        reveal_strlit("_");
        reveal_strlit(".md");
        assert("_"@ =~= seq!['_']);
        assert(".md"@ =~= seq!['.', 'm', 'd']);
        assert(file_name@ =~= note_file_name_of(name@, attempt as nat));
    }
    file_name
}

/// Two attempts never try the same file name.
pub proof fn attempts_differ(name: Seq<char>, a: nat, b: nat)
    requires
        a != b,
    ensures
        note_file_name_of(name, a) != note_file_name_of(name, b),
{
    let fa = note_file_name_of(name, a);
    let fb = note_file_name_of(name, b);
    decimal_reads_back(a);
    decimal_reads_back(b);
    if fa == fb {
        let n = name.len() as int;
        assert(suffix_of(a).len() == suffix_of(b).len()) by {
            assert(fa.len() == n + suffix_of(a).len() + 3);
            assert(fb.len() == n + suffix_of(b).len() + 3);
        }
        let m = suffix_of(a).len() as int;
        assert(suffix_of(a) =~= fa.subrange(n, n + m));
        assert(suffix_of(b) =~= fb.subrange(n, n + m));
        if a != 0 && b != 0 {
            assert(decimal(a) =~= suffix_of(a).subrange(1, m));
            assert(decimal(b) =~= suffix_of(b).subrange(1, m));
        }
        assert(false);
    }
}

/// Where every attempt before `from` is taken, the attempt that
/// `free_attempt` finds from there is the first free one of all: it is not
/// taken, and every attempt before it is.
pub proof fn free_attempt_is_first_free(name: Seq<char>, taken: Seq<Seq<char>>, from: nat)
    requires
        forall|j: nat| j < from ==> taken.contains(#[trigger] note_file_name_of(name, j)),
        from <= taken.len(),
    ensures
        from <= free_attempt(name, taken, from) <= taken.len(),
        !taken.contains(note_file_name_of(name, free_attempt(name, taken, from))),
        forall|j: nat|
            j < free_attempt(name, taken, from) ==> taken.contains(
                #[trigger] note_file_name_of(name, j),
            ),
    decreases taken.len() - from,
{
    if from >= taken.len() {
        if taken.contains(note_file_name_of(name, from)) {
            let f = |k: int| note_file_name_of(name, k as nat);
            assert forall|a: int, b: int| 0 <= a < b <= taken.len() implies #[trigger] f(a)
                != #[trigger] f(b) by {
                attempts_differ(name, a as nat, b as nat);
            }
            one_is_not_listed(taken, f);
            let k = choose|k: int| 0 <= k <= taken.len() && !taken.contains(#[trigger] f(k));
            assert(taken.contains(note_file_name_of(name, k as nat)));
            assert(false);
        }
    } else if taken.contains(note_file_name_of(name, from)) {
        assert forall|j: nat| j < from + 1 implies taken.contains(
            #[trigger] note_file_name_of(name, j),
        ) by {}
        free_attempt_is_first_free(name, taken, from + 1);
    }
}

/// Decides how a new note is created. The name is checked first. The note
/// becomes a file in the project's directory named after it, with the
/// ending `.md`; where a file of that name exists, `_1` is put behind the
/// name, then `_2`, until a name is found that is not taken. No file that
/// exists is written over.
///
/// `taken` holds the names of what lies in the project's directory.
pub fn create_new_note(orig_note_name: &str, project_path: &PathParts, taken: &Vec<String>) -> (plan:
    Result<Plan, NameCheck>)
    ensures
        name_check_of(orig_note_name@) != NameCheck::Valid ==> plan == Err::<Plan, NameCheck>(
            name_check_of(orig_note_name@),
        ),
        name_check_of(orig_note_name@) == NameCheck::Valid ==> plan is Ok && ({
            let attempt = free_attempt(orig_note_name@, taken.deep_view(), 0);
            let file_name = note_file_name_of(orig_note_name@, attempt);
            &&& !taken.deep_view().contains(file_name)
            &&& forall|j: nat|
                j < attempt ==> taken.deep_view().contains(
                    #[trigger] note_file_name_of(orig_note_name@, j),
                )
            &&& plan->Ok_0.op@ == FileOpView::CreateFile(project_path@.push(file_name))
            &&& plan->Ok_0.message@ == "New note created: "@ + file_name
        }),
{
    let check = validate_name(orig_note_name);
    if check != NameCheck::Valid {
        return Err(check);
    }
    let ghost name = orig_note_name@;
    let ghost names = taken.deep_view();
    let mut attempt: usize = 0;
    let mut file_name = note_file_name(orig_note_name, attempt);
    while attempt < taken.len() && name_listed(taken, &file_name)
        invariant
            name == orig_note_name@,
            names == taken.deep_view(),
            attempt <= taken.len(),
            file_name@ == note_file_name_of(name, attempt as nat),
            free_attempt(name, names, 0) == free_attempt(name, names, attempt as nat),
        decreases taken.len() - attempt,
    {
        attempt += 1;
        file_name = note_file_name(orig_note_name, attempt);
    }
    proof {
        free_attempt_is_first_free(name, names, 0);
    }
    let mut message = String::from_str("New note created: ");
    message.append(file_name.as_str());
    Ok(Plan { op: FileOp::CreateFile(project_path.child(file_name.as_str())), message })
}

/// Decides how a new project is created. The name is checked first. Where
/// a directory of that name exists under the root, nothing is touched and
/// the user is told so; else the directory is to be created.
pub fn create_new_project(project_name: &str, exists: bool) -> (plan: Result<Plan, NameCheck>)
    ensures
        name_check_of(project_name@) != NameCheck::Valid ==> plan == Err::<Plan, NameCheck>(
            name_check_of(project_name@),
        ),
        name_check_of(project_name@) == NameCheck::Valid ==> plan is Ok && ({
            if exists {
                &&& plan->Ok_0.op@ == FileOpView::Nothing
                &&& plan->Ok_0.message@ == project_name@ + " already exists!"@
            } else {
                &&& plan->Ok_0.op@ == FileOpView::CreateDirectory(seq![project_name@])
                &&& plan->Ok_0.message@ == "New project created: "@ + project_name@
            }
        }),
{
    let check = validate_name(project_name);
    if check != NameCheck::Valid {
        return Err(check);
    }
    if exists {
        let mut message = String::from_str(project_name);
        message.append(" already exists!");
        Ok(Plan { op: FileOp::Nothing, message })
    } else {
        let mut message = String::from_str("New project created: ");
        message.append(project_name);
        let path = PathParts::empty().child(project_name);
        assert(path@ =~= seq![project_name@]);
        Ok(Plan { op: FileOp::CreateDirectory(path), message })
    }
}

/// Decides how the entry at `relative_path` under the root is deleted: a
/// directory goes with all that lies in it, anything else as a single file.
/// The user is told the full path of what was deleted.
pub fn delete(config: &Config, relative_path: &PathParts, is_dir: bool) -> (plan: Plan)
    ensures
        plan.op@ == if is_dir {
            FileOpView::RemoveTree(relative_path@)
        } else {
            FileOpView::RemoveFile(relative_path@)
        },
        plan.message@ == full_path_of(config.root_dir@, relative_path@)
            + " successfully deleted"@,
{
    let mut message = full_path_text(config.root_dir.as_str(), relative_path);
    message.append(" successfully deleted");
    let op = if is_dir {
        FileOp::RemoveTree(relative_path.clone())
    } else {
        FileOp::RemoveFile(relative_path.clone())
    };
    Plan { op, message }
}

} // verus!
