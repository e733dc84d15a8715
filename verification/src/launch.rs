//! Opening a markdown file that was named on the command line.
//!
//! When the editor is started through "open with", the file's path is the
//! first argument after the program's own name. It is taken as a file to open
//! only where it is no flag and ends like a markdown file.

use vstd::prelude::*;

verus! {

/// An argument is a flag where it begins with a hyphen.
pub open spec fn is_flag(arg: Seq<char>) -> bool {
    arg.len() > 0 && arg[0] == '-'
}

/// `text` ends with `suffix`.
pub open spec fn ends_with(text: Seq<char>, suffix: Seq<char>) -> bool {
    suffix.len() <= text.len() && text.skip(text.len() - suffix.len()) == suffix
}

/// A path is taken for a markdown file by how it ends, letter case included.
pub open spec fn is_markdown_path(path: Seq<char>) -> bool {
    ends_with(path, ".md"@) || ends_with(path, ".markdown"@)
}

/// An argument names a file to open where it is no flag and a markdown path.
pub open spec fn names_markdown_file(arg: Seq<char>) -> bool {
    !is_flag(arg) && is_markdown_path(arg)
}

/// The arguments of a process, the program's own name first, ask for a file to
/// be opened where the second of them names a markdown file.
pub open spec fn opens_file(args: Seq<String>) -> bool {
    args.len() > 1 && names_markdown_file(args[1]@)
}

/// What is sent to the window, once, when the process was started on a file.
#[derive(Debug, Clone, PartialEq, Eq)]
pub struct OpenFileNotice {
    /// The label of the window that is told.
    pub window: String,
    /// The name of the event.
    pub event: String,
    /// The path of the file to open: the event's payload.
    pub path: String,
    /// How long to wait before sending, in milliseconds, so that the window is
    /// there to hear it.
    pub delay_ms: u64,
}

impl OpenFileNotice {
    /// The notice goes to the main window as an `open-file` event, half a
    /// second after the start.
    pub open spec fn carries(&self, path: Seq<char>) -> bool {
        &&& self.window@ == "main"@
        &&& self.event@ == "open-file"@
        &&& self.path@ == path
        &&& self.delay_ms == 500
    }
}

/// Whether `arg` begins with a hyphen.
pub fn starts_with_hyphen(arg: &str) -> (flag: bool)
    ensures
        flag == is_flag(arg@),
{
    !arg.is_empty() && arg.get_char(0) == '-'
}

/// Whether `text` ends with `suffix`, character by character.
pub fn has_suffix(text: &str, suffix: &str) -> (found: bool)
    ensures
        found == ends_with(text@, suffix@),
{
    let text_len = text.unicode_len();
    let suffix_len = suffix.unicode_len();
    if suffix_len > text_len {
        return false;
    }
    let start = text_len - suffix_len;
    let mut i: usize = 0;
    while i < suffix_len
        invariant
            text_len == text@.len(),
            suffix_len == suffix@.len(),
            suffix_len <= text_len,
            start == text_len - suffix_len,
            i <= suffix_len,
            forall|k: int| 0 <= k < i ==> text@[start + k] == suffix@[k],
        decreases suffix_len - i,
    {
        if text.get_char(start + i) != suffix.get_char(i) {
            assert(text@.skip(start as int)[i as int] != suffix@[i as int]);
            return false;
        }
        i += 1;
    }
    assert(text@.skip(start as int) =~= suffix@);
    true
}

/// Whether `arg` names a markdown file to open.
pub fn is_markdown_argument(arg: &str) -> (accepted: bool)
    ensures
        accepted == names_markdown_file(arg@),
{
    !starts_with_hyphen(arg) && (has_suffix(arg, ".md") || has_suffix(arg, ".markdown"))
}

/// The file that the process was asked to open, if any.
///
/// `args` are the process's arguments, the program's own name first. The
/// second argument is returned, exactly as given, where it names a markdown
/// file. There is no file where fewer than two arguments are given, where the
/// second is a flag, or where it does not end like a markdown file; later
/// arguments are not looked at.
pub fn get_cli_file_path(args: &[String]) -> (path: Option<String>)
    ensures
        path is Some <==> opens_file(args@),
        path matches Some(file) ==> file == args@[1],
{
    if args.len() > 1 && is_markdown_argument(args[1].as_str()) {
        Some(args[1].clone())
    } else {
        None
    }
}

/// What the process tells its window at startup.
///
/// Where the arguments ask for a file to be opened, one `open-file` notice
/// for the main window carries that file's path, to be sent half a second
/// after the start. Otherwise nothing is sent.
pub fn startup_notice(args: &[String]) -> (notice: Option<OpenFileNotice>)
    ensures
        notice is Some <==> opens_file(args@),
        notice matches Some(sent) ==> sent.carries(args@[1]@),
{
    match get_cli_file_path(args) {
        Some(path) => Some(
            OpenFileNotice {
                window: String::from_str("main"),
                event: String::from_str("open-file"),
                path,
                delay_ms: 500,
            },
        ),
        None => None,
    }
}

} // verus!
