//! How an argument vector is shown to the user: the script of a
//! `bash -lc <script>` style invocation, or the words shell-quoted and joined.

use vstd::prelude::*;

use crate::text::{chars_of, push_char, str_equal, string_from_chars, strings_view};

verus! {

/// The words joined by single spaces (`[String]::join(" ")`).
pub open spec fn space_join(words: Seq<Seq<char>>) -> Seq<char>
    decreases words.len(),
{
    if words.len() == 0 {
        Seq::empty()
    } else if words.len() == 1 {
        words[0]
    } else {
        space_join(words.drop_last()) + seq![' '] + words.last()
    }
}

/// Whether some word holds a NUL character.
pub open spec fn has_nul(words: Seq<Seq<char>>) -> bool {
    exists|i: int, j: int|
        0 <= i < words.len() && 0 <= j < words[i].len() && #[trigger] words[i][j] == '\0'
}

/// The words quoted for a POSIX shell where needed and joined by single
/// spaces, as `shlex::try_join` writes them.
pub uninterp spec fn shell_quoted_join(words: Seq<Seq<char>>) -> Seq<char>;

/// What follows the last `/` of a path (all of it when it has none).
pub open spec fn after_last_slash(path: Seq<char>) -> Seq<char>
    decreases path.len(),
{
    if path.len() == 0 {
        path
    } else if path.last() == '/' {
        Seq::empty()
    } else {
        after_last_slash(path.drop_last()).push(path.last())
    }
}

/// A path without the trailing `/` and `/.` that leave what it names unchanged
/// (a lone `/` is kept).
pub open spec fn trim_trailing_separators(path: Seq<char>) -> Seq<char>
    decreases path.len(),
{
    if path.len() > 1 && path.last() == '/' {
        trim_trailing_separators(path.drop_last())
    } else if path.len() > 1 && path.last() == '.' && path[path.len() - 2] == '/' {
        trim_trailing_separators(path.drop_last())
    } else {
        path
    }
}

/// The file name of a path, as `Path::file_name` gives it: its last
/// component after trailing separators and `.` are set aside; none when
/// that component is `..` or the path has no normal last component.
pub open spec fn path_file_name(path: Seq<char>) -> Option<Seq<char>> {
    let last = after_last_slash(trim_trailing_separators(path));
    if last.len() == 0 || last == "."@ || last == ".."@ {
        None
    } else {
        Some(last)
    }
}

/// The position of the last `.` of a file name, or -1 when it has none.
pub open spec fn last_dot(name: Seq<char>) -> int
    decreases name.len(),
{
    if name.len() == 0 {
        -1
    } else if name.last() == '.' {
        name.len() - 1
    } else {
        last_dot(name.drop_last())
    }
}

/// The stem of a path, as `Path::file_stem` gives it: its file name up to
/// the last `.`, or the whole file name when the only `.` opens it or there
/// is none.
pub open spec fn path_file_stem(path: Seq<char>) -> Option<Seq<char>> {
    match path_file_name(path) {
        Some(name) => Some(
            if last_dot(name) > 0 {
                name.take(last_dot(name))
            } else {
                name
            },
        ),
        None => None,
    }
}

/// Whether a path names a POSIX shell (bash, zsh or sh), the way a command's
/// shell is detected: the path is itself such a name, or else its stem
/// names one, the stem being examined in turn as long as it is a different
/// path from the one it came from (paths compare by their components, so
/// trailing separators do not count; a different stem is always shorter, see
/// `lemma_different_stem_is_shorter`).
pub open spec fn names_posix_shell(path: Seq<char>) -> bool
    decreases path.len(),
{
    if is_posix_shell_name(path) {
        true
    } else {
        match path_file_stem(path) {
            Some(stem) => stem.len() < path.len() && stem != trim_trailing_separators(path)
                && names_posix_shell(stem),
            None => false,
        }
    }
}

/// A character that `shlex` leaves unquoted: ASCII letters and digits and
/// `+ - . / : @ ] _`.
pub open spec fn shell_safe_char(c: char) -> bool {
    ||| c == '+' || c == '-' || c == '.' || c == '/' || c == ':' || c == '@' || c == ']' || c == '_'
    ||| '0' <= c <= '9'
    ||| 'A' <= c <= 'Z'
    ||| 'a' <= c <= 'z'
}

/// Words that need no quoting: each is non-empty and made of safe characters only.
pub open spec fn plain_words(words: Seq<Seq<char>>) -> bool {
    forall|i: int|
        0 <= i < words.len() ==> #[trigger] words[i].len() > 0 && forall|j: int|
            0 <= j < words[i].len() ==> shell_safe_char(#[trigger] words[i][j])
}

/// Words that need no quoting, joined by spaces, make a single line.
pub proof fn lemma_plain_join_single_line(words: Seq<Seq<char>>)
    requires
        plain_words(words),
    ensures
        !space_join(words).contains('\n'),
    decreases words.len(),
{
    if words.len() == 1 {
        assert(words[0].len() > 0);
        if space_join(words).contains('\n') {
            let i = choose|i: int| 0 <= i < words[0].len() && words[0][i] == '\n';
            assert(shell_safe_char(words[0][i]));
        }
    } else if words.len() > 1 {
        let init = words.drop_last();
        assert forall|i: int| 0 <= i < init.len() implies #[trigger] init[i].len() > 0 && forall|j: int|
            0 <= j < init[i].len() ==> shell_safe_char(#[trigger] init[i][j]) by {
            assert(init[i] == words[i]);
        }
        lemma_plain_join_single_line(init);
        let a = space_join(init);
        let last = words.last();
        assert(last == words[words.len() - 1]);
        let whole = space_join(words);
        assert(whole == a + seq![' '] + last);
        if whole.contains('\n') {
            let i = choose|i: int| 0 <= i < whole.len() && whole[i] == '\n';
            if i < a.len() {
                assert(a[i] == '\n');
            } else if i == a.len() {
                assert(whole[i] == ' ');
            } else {
                assert(last[i - a.len() - 1] == '\n');
                assert(shell_safe_char(last[i - a.len() - 1]));
            }
        }
    }
}

/// A POSIX shell by file name.
pub open spec fn is_posix_shell_name(name: Seq<char>) -> bool {
    name == "bash"@ || name == "zsh"@ || name == "sh"@
}

/// The script of `[shell, -lc|-c, script]` with a POSIX shell, if `argv` has that form.
pub open spec fn shell_script_of(argv: Seq<Seq<char>>) -> Option<Seq<char>> {
    if argv.len() == 3 && names_posix_shell(argv[0]) && (argv[1] == "-lc"@
        || argv[1] == "-c"@) {
        Some(argv[2])
    } else {
        None
    }
}

/// The words shell-quoted and joined, or, when quoting is refused (a word
/// holds NUL), simply joined by spaces.
pub open spec fn escaped_command(argv: Seq<Seq<char>>) -> Seq<char> {
    if has_nul(argv) {
        space_join(argv)
    } else {
        shell_quoted_join(argv)
    }
}

/// How a command is shown: its script when it is a shell `-lc` invocation,
/// otherwise its escaped words.
pub open spec fn command_display(argv: Seq<Seq<char>>) -> Seq<char> {
    match shell_script_of(argv) {
        Some(script) => script,
        None => escaped_command(argv),
    }
}

/// `shlex::try_join` over the words. The quoted text is named by
/// `shell_quoted_join`; the crate refuses (with `QuoteError::Nul`) exactly
/// when some word holds a NUL byte, which in UTF-8 is the character `'\0'`.
/// It joins the quoted words by single spaces, so no words give the empty
/// text, and a non-empty word of safe characters only is kept as it is.
#[verifier::external_body]
fn try_shell_join(words: &[String]) -> (joined: Option<String>)
    ensures
        joined is None <==> has_nul(strings_view(words@)),
        joined matches Some(s) ==> s@ == shell_quoted_join(strings_view(words@)),
        joined matches Some(s) ==> (words@.len() == 0 ==> s@.len() == 0),
        joined matches Some(s) ==> (plain_words(strings_view(words@)) ==> s@ == space_join(strings_view(words@))),
{
    shlex::try_join(words.iter().map(|w| w.as_str())).ok()
}

/// The words joined by single spaces.
pub fn join_with_spaces(words: &[String]) -> (s: String)
    ensures
        s@ == space_join(strings_view(words@)),
{
    let ghost ws = strings_view(words@);
    let mut s = String::new();
    let mut i: usize = 0;
    while i < words.len()
        invariant
            ws == strings_view(words@),
            i <= words.len(),
            s@ == space_join(ws.take(i as int)),
        decreases words.len() - i,
    {
        if i > 0 {
            push_char(&mut s, ' ');
        }
        s.append(words[i].as_str());
        assert(ws.take(i + 1).drop_last() =~= ws.take(i as int));
        i = i + 1;
    }
    assert(ws.take(words.len() as int) =~= ws);
    s
}

/// The length of `trim_trailing_separators(v)`, which is a prefix of `v`.
fn trimmed_len(v: &Vec<char>) -> (end: usize)
    ensures
        end <= v.len(),
        v@.take(end as int) == trim_trailing_separators(v@),
{
    let mut end = v.len();
    assert(v@.take(end as int) =~= v@);
    while (end > 1 && v[end - 1] == '/') || (end > 1 && v[end - 1] == '.' && v[end - 2] == '/')
        invariant
            end <= v.len(),
            trim_trailing_separators(v@.take(end as int)) == trim_trailing_separators(v@),
        decreases end,
    {
        assert(v@.take(end as int).drop_last() =~= v@.take(end - 1));
        end = end - 1;
    }
    end
}

/// Whether `s` is exactly `text`.
fn is_text(s: &str, text: &str) -> (b: bool)
    ensures
        b == (s@ == text@),
{
    str_equal(s, text)
}

/// The file name of `path`, as `Path::file_name` gives it.
pub fn file_name_of(path: &str) -> (name: Option<String>)
    ensures
        name matches Some(n) ==> path_file_name(path@) == Some(n@),
        name is None ==> path_file_name(path@) is None,
{
    let v = chars_of(path);
    let end = trimmed_len(&v);
    let ghost t = v@.take(end as int);
    let mut start: usize = 0;
    let mut i: usize = 0;
    while i < end
        invariant
            end <= v.len(),
            t == v@.take(end as int),
            start <= i <= end,
            after_last_slash(t.take(i as int)) == v@.subrange(start as int, i as int),
        decreases end - i,
    {
        assert(t.take(i + 1).drop_last() =~= t.take(i as int));
        assert(t.take(i + 1).last() == v@[i as int]);
        if v[i] == '/' {
            start = i + 1;
            assert(v@.subrange(start as int, (i + 1) as int) =~= Seq::<char>::empty());
        } else {
            assert(v@.subrange(start as int, (i + 1) as int) =~= v@.subrange(
                start as int,
                i as int,
            ).push(v@[i as int]));
        }
        i = i + 1;
    }
    assert(t.take(end as int) =~= t);
    let last = string_from_chars(&v, start, end);
    if last.as_str().is_empty() || is_text(last.as_str(), ".") || is_text(last.as_str(), "..") {
        None
    } else {
        Some(last)
    }
}

/// The stem of `path`, as `Path::file_stem` gives it.
pub fn file_stem_of(path: &str) -> (stem: Option<String>)
    ensures
        stem matches Some(s) ==> path_file_stem(path@) == Some(s@),
        stem is None ==> path_file_stem(path@) is None,
{
    let name = match file_name_of(path) {
        Some(name) => name,
        None => return None,
    };
    let v = chars_of(name.as_str());
    let mut found = false;
    let mut k: usize = 0;
    let mut i: usize = 0;
    while i < v.len()
        invariant
            v@ == name@,
            i <= v.len(),
            found ==> k < i && last_dot(v@.take(i as int)) == k,
            !found ==> last_dot(v@.take(i as int)) == -1,
        decreases v.len() - i,
    {
        assert(v@.take(i + 1).drop_last() =~= v@.take(i as int));
        if v[i] == '.' {
            found = true;
            k = i;
        }
        i = i + 1;
    }
    assert(v@.take(v.len() as int) =~= v@);
    if found && k > 0 {
        Some(string_from_chars(&v, 0, k))
    } else {
        Some(name)
    }
}

/// What follows the last `/` is a suffix of the path.
proof fn lemma_after_last_slash_suffix(p: Seq<char>)
    ensures
        after_last_slash(p).len() <= p.len(),
        after_last_slash(p) == p.skip(p.len() - after_last_slash(p).len()),
    decreases p.len(),
{
    if p.len() > 0 {
        lemma_after_last_slash_suffix(p.drop_last());
        if p.last() == '/' {
            assert(p.skip(p.len() as int) =~= Seq::<char>::empty());
        } else {
            let a = after_last_slash(p.drop_last());
            assert(p.skip(p.len() - (a.len() + 1)) =~= p.drop_last().skip(
                p.drop_last().len() - a.len(),
            ).push(p.last()));
        }
    }
}

proof fn lemma_trim_no_longer(path: Seq<char>)
    ensures
        trim_trailing_separators(path).len() <= path.len(),
    decreases path.len(),
{
    if path.len() > 1 && (path.last() == '/' || (path.last() == '.' && path[path.len() - 2] == '/')) {
        lemma_trim_no_longer(path.drop_last());
    }
}

proof fn lemma_last_dot_inside(name: Seq<char>)
    ensures
        -1 <= last_dot(name) < name.len(),
    decreases name.len(),
{
    if name.len() > 0 {
        lemma_last_dot_inside(name.drop_last());
    }
}

/// Law: a stem that differs from the (trimmed) path it came from is shorter
/// than that path, so examining stems in turn always ends.
pub proof fn lemma_different_stem_is_shorter(path: Seq<char>)
    ensures
        path_file_stem(path) matches Some(stem) ==> (stem != trim_trailing_separators(path)
            ==> stem.len() < path.len()),
{
    let t = trim_trailing_separators(path);
    lemma_trim_no_longer(path);
    lemma_after_last_slash_suffix(t);
    let name = after_last_slash(t);
    lemma_last_dot_inside(name);
    if path_file_stem(path) is Some {
        let stem = path_file_stem(path)->0;
        if stem != t && stem.len() >= path.len() {
            assert(name.len() == t.len());
            assert(t.skip(0) =~= t);
            assert(name == t);
            assert(last_dot(name) <= 0);
            assert(stem == name);
        }
    }
}

/// Whether `path` names a POSIX shell (see `names_posix_shell`).
pub fn names_posix_shell_path(path: &str) -> (b: bool)
    ensures
        b == names_posix_shell(path@),
    decreases path@.len(),
{
    if is_text(path, "bash") || is_text(path, "zsh") || is_text(path, "sh") {
        return true;
    }
    match file_stem_of(path) {
        Some(stem) => {
            let v = chars_of(path);
            let end = trimmed_len(&v);
            let trimmed = string_from_chars(&v, 0, end);
            assert(v@.subrange(0, end as int) =~= v@.take(end as int));
            if stem.as_str().unicode_len() < v.len() && !is_text(stem.as_str(), trimmed.as_str()) {
                names_posix_shell_path(stem.as_str())
            } else {
                false
            }
        },
        None => false,
    }
}

/// The script of a `[shell, -lc|-c, script]` invocation of a POSIX shell.
pub fn extract_shell_script(command: &[String]) -> (script: Option<String>)
    ensures
        script matches Some(s) ==> shell_script_of(strings_view(command@)) == Some(s@),
        script is None ==> shell_script_of(strings_view(command@)) is None,
{
    let ghost argv = strings_view(command@);
    if command.len() != 3 {
        return None;
    }
    let posix = names_posix_shell_path(command[0].as_str());
    let flag_ok = str_equal(command[1].as_str(), "-lc") || str_equal(command[1].as_str(), "-c");
    assert(argv[0] == command@[0]@ && argv[1] == command@[1]@ && argv[2] == command@[2]@);
    if posix && flag_ok {
        Some(command[2].clone())
    } else {
        None
    }
}

/// The words shell-quoted and joined; joined by plain spaces when quoting is refused.
pub fn escape_command(command: &[String]) -> (s: String)
    ensures
        s@ == escaped_command(strings_view(command@)),
        command@.len() == 0 ==> s@.len() == 0,
        plain_words(strings_view(command@)) ==> s@ == space_join(strings_view(command@)),
{
    match try_shell_join(command) {
        Some(s) => s,
        None => join_with_spaces(command),
    }
}

/// How a command is shown to the user: the script of a shell `-lc`
/// invocation, or its words escaped and joined.
pub fn strip_bash_lc_and_escape(command: &[String]) -> (s: String)
    ensures
        s@ == command_display(strings_view(command@)),
        command@.len() == 0 ==> s@.len() == 0,
        shell_script_of(strings_view(command@)) is None && plain_words(strings_view(command@))
            ==> s@ == space_join(strings_view(command@)),
        shell_script_of(strings_view(command@)) is None && !has_nul(strings_view(command@)) ==> s@
            == shell_quoted_join(strings_view(command@)),
        shell_script_of(strings_view(command@)) matches Some(script) ==> s@ == script,
{
    match extract_shell_script(command) {
        Some(script) => script,
        None => escape_command(command),
    }
}

} // verus!
