//! Where the settings file lives.
//!
//! Reading the environment and the file system is the caller's part; the
//! library decides which base directory is used and which names are
//! adjoined to it.

use std::path::PathBuf;

use vstd::prelude::*;

verus! {

#[verifier::external_type_specification]
#[verifier::external_body]
pub struct ExPathBuf(PathBuf);

/// The directory of this application under the base directory.
pub const APP_DIR_NAME: &'static str = "fee-backcalc";

/// The settings file in the application's directory.
pub const CONFIG_FILE_NAME: &'static str = "config.json";

/// The text of a path: what `Path::to_string_lossy` of std gives for it.
pub uninterp spec fn path_text(path: PathBuf) -> Seq<char>;

/// Whether the text of a path starts with the Windows verbatim prefix `\\?\`.
pub open spec fn has_verbatim_prefix(text: Seq<char>) -> bool {
    &&& text.len() >= 4
    &&& text[0] == '\\'
    &&& text[1] == '\\'
    &&& text[2] == '?'
    &&& text[3] == '\\'
}

/// Whether `text` is the text of a path with the text `base` extended by
/// `component`: some leading text, then at most one character (the
/// separator that the platform puts between components, where one is
/// needed), then `component`. The leading text is `base` itself unless
/// `base` has the Windows verbatim prefix, in which case the platform
/// normalizes it first.
pub open spec fn adjoined(base: Seq<char>, component: Seq<char>, text: Seq<char>) -> bool {
    exists|lead: Seq<char>, separator: Seq<char>|
        {
            &&& separator.len() <= 1
            &&& text == lead + separator + component
            &&& !has_verbatim_prefix(base) ==> lead == base
        }
}

/// Whether `component` is one relative path component: not empty, not `.`
/// or `..`, and without a separator (`/` or `\`) or a drive colon.
pub open spec fn is_plain_component(component: Seq<char>) -> bool {
    &&& component.len() > 0
    &&& component != seq!['.']
    &&& component != seq!['.', '.']
    &&& forall|i: int|
        0 <= i < component.len() ==> #[trigger] component[i] != '/' && component[i] != '\\'
            && component[i] != ':'
}

/// Whether `c` separates path components on some platform: `/`, or `\` on
/// Windows.
pub open spec fn is_separator_char(c: char) -> bool {
    c == '/' || c == '\\'
}

/// Whether extending a path with the text `base` needs a separator before
/// the new component on every platform: `base` is not empty, has no
/// verbatim prefix, and ends neither in a separator nor in a drive colon.
pub open spec fn needs_separator(base: Seq<char>) -> bool {
    &&& base.len() > 0
    &&& !has_verbatim_prefix(base)
    &&& !is_separator_char(base.last())
    &&& base.last() != ':'
}

/// Whether `text` is `base`, exactly one separator, then `component`.
pub open spec fn separated(base: Seq<char>, component: Seq<char>, text: Seq<char>) -> bool {
    exists|separator: char| is_separator_char(separator) && text == base + seq![separator] + component
}

/// `Path::join` of std: `base` extended with the relative component
/// `component`. As `PathBuf::push` documents, a relative path extends the
/// path: the text of the result ends with the platform's separator where one
/// is needed, then `component`; before that stands the text of `base`,
/// except for a Windows verbatim `base`, which push normalizes first (what
/// that normalization gives is left unsaid). A separator is needed, and
/// exactly one is put (`/`, or `\` on Windows), when `base` is not empty
/// and ends neither in a separator nor in a drive colon; on the other ends
/// of `base` whether one is put depends on the platform, and is left
/// unsaid.
#[verifier::external_body]
fn path_join(base: &PathBuf, component: &str) -> (joined: PathBuf)
    requires
        is_plain_component(component@),
    ensures
        adjoined(path_text(*base), component@, path_text(joined)),
        needs_separator(path_text(*base)) ==> separated(
            path_text(*base),
            component@,
            path_text(joined),
        ),
{
    base.join(component)
}

/// `PathBuf::from` of std for a string: a path that holds the string as it
/// is, so its text is `text`.
#[verifier::external_body]
fn path_from_str(text: &str) -> (path: PathBuf)
    ensures
        path_text(path) == text@,
{
    PathBuf::from(text)
}

/// The directory under which the application keeps its files: the user's
/// application data directory when there is one (`app_data`), else the
/// current directory when it is known (`current_dir`), else `.`.
pub fn config_base_dir(app_data: Option<PathBuf>, current_dir: Option<PathBuf>) -> (base: PathBuf)
    ensures
        app_data matches Some(dir) ==> base == dir,
        app_data is None ==> (current_dir matches Some(dir) ==> base == dir),
        app_data is None && current_dir is None ==> path_text(base) == "."@,
{
    match app_data {
        Some(dir) => dir,
        None => match current_dir {
            Some(dir) => dir,
            None => {
                proof {
                    reveal_strlit(".");
                }
                path_from_str(".")
            },
        },
    }
}

/// The application's directory under `base_dir`: `base_dir` joined with
/// [`APP_DIR_NAME`].
pub fn config_dir(base_dir: &PathBuf) -> (dir: PathBuf)
    ensures
        adjoined(path_text(*base_dir), APP_DIR_NAME@, path_text(dir)),
        needs_separator(path_text(*base_dir)) ==> separated(
            path_text(*base_dir),
            APP_DIR_NAME@,
            path_text(dir),
        ),
{
    proof {
        reveal_strlit("fee-backcalc");
    }
    path_join(base_dir, APP_DIR_NAME)
}

/// The settings file under `base_dir`: the application's directory joined
/// with [`CONFIG_FILE_NAME`]. The directory's text ends in `fee-backcalc`,
/// so exactly one separator stands before `config.json` unless the
/// directory's text carries a verbatim prefix.
pub fn config_path(base_dir: &PathBuf) -> (path: PathBuf)
    ensures
        exists|dir_text: Seq<char>|
            {
                &&& adjoined(path_text(*base_dir), APP_DIR_NAME@, dir_text)
                &&& needs_separator(path_text(*base_dir)) ==> separated(
                    path_text(*base_dir),
                    APP_DIR_NAME@,
                    dir_text,
                )
                &&& adjoined(dir_text, CONFIG_FILE_NAME@, path_text(path))
                &&& !has_verbatim_prefix(dir_text) ==> separated(
                    dir_text,
                    CONFIG_FILE_NAME@,
                    path_text(path),
                )
            },
{
    let dir = config_dir(base_dir);
    proof {
        reveal_strlit("config.json");
        reveal_strlit("fee-backcalc");
        let d = path_text(dir);
        let (lead, separator) = choose|lead: Seq<char>, separator: Seq<char>|
            {
                &&& separator.len() <= 1
                &&& d == lead + separator + APP_DIR_NAME@
                &&& !has_verbatim_prefix(path_text(*base_dir)) ==> lead == path_text(*base_dir)
            };
        assert(d.len() > 0 && d.last() == 'c');
        assert(!has_verbatim_prefix(d) ==> needs_separator(d));
        assert(CONFIG_FILE_NAME@.len() == 11);
        assert(is_plain_component(CONFIG_FILE_NAME@));
    }
    let path = path_join(&dir, CONFIG_FILE_NAME);
    path
}

} // verus!
