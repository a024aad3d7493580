//! Commands as approvals are remembered for them: a command that only wraps
//! a script in a shell is known by the script, so that an approval holds
//! whatever the path of the shell.
//!
//! Which programs are shells, and which scripts are plain sequences of
//! words, is decided by the shell parser of the program around this library.
//! Its answers are taken as they are; the rules on them are stated here.

use crate::search::{lemma_position_is, lemma_position_none, position};
use crate::text::{
    clone_texts, same_text, to_ascii_lowercase, to_ascii_lowercase_spec, trim, trim_spec,
};
use vstd::prelude::*;
use vstd::string::StrSliceExecFns;
use vstd::string::StringExecFns;

verus! {

/// The first word of a canonical command that stands for the text of a
/// shell script.
pub const CANONICAL_SHELL_SCRIPT_PREFIX: &'static str = "__code_shell_script__";

/// The first word of a canonical command that stands for the text of a
/// PowerShell script.
pub const CANONICAL_POWERSHELL_SCRIPT_PREFIX: &'static str = "__code_powershell_script__";

/// What a canonical command is.
#[derive(Clone, Copy, Debug, PartialEq, Eq, Structural)]
pub enum CanonicalApprovalCommandKind {
    /// A plain list of words that can be compared as it is.
    Argv,
    /// The text of a script that was run through a shell.
    ShellScript,
    /// The text of a script that was run through PowerShell.
    PowerShellScript,
}

/// The kind of a canonical command, by its first word.
pub open spec fn command_kind(canonical: Seq<Seq<char>>) -> CanonicalApprovalCommandKind {
    if canonical.len() > 0 && canonical[0] == CANONICAL_SHELL_SCRIPT_PREFIX@ {
        CanonicalApprovalCommandKind::ShellScript
    } else if canonical.len() > 0 && canonical[0] == CANONICAL_POWERSHELL_SCRIPT_PREFIX@ {
        CanonicalApprovalCommandKind::PowerShellScript
    } else {
        CanonicalApprovalCommandKind::Argv
    }
}

/// The words of a command as texts.
pub open spec fn words(command: &[String]) -> Seq<Seq<char>> {
    Seq::new(command@.len(), |i: int| command@[i]@)
}

pub fn canonical_approval_command_kind(canonical: &[String]) -> (kind: CanonicalApprovalCommandKind)
    ensures
        kind == command_kind(words(canonical)),
{
    if canonical.len() == 0 {
        return CanonicalApprovalCommandKind::Argv;
    }
    let first = canonical[0].as_str();
    if same_text(first, CANONICAL_SHELL_SCRIPT_PREFIX) {
        CanonicalApprovalCommandKind::ShellScript
    } else if same_text(first, CANONICAL_POWERSHELL_SCRIPT_PREFIX) {
        CanonicalApprovalCommandKind::PowerShellScript
    } else {
        CanonicalApprovalCommandKind::Argv
    }
}

// ---------------------------------------------------------------------
// Looking into a text
// ---------------------------------------------------------------------

/// Whether the pattern stands in the text at the place `i`.
pub open spec fn occurs_at(s: Seq<char>, p: Seq<char>, i: int) -> bool {
    0 <= i && i + p.len() <= s.len() && s.subrange(i, i + p.len()) == p
}

/// Whether the text begins with the pattern.
pub open spec fn starts_with_spec(s: Seq<char>, p: Seq<char>) -> bool {
    occurs_at(s, p, 0)
}

/// Whether `i` is the first place at which the pattern stands in the text.
pub open spec fn is_first_occurrence(s: Seq<char>, p: Seq<char>, i: int) -> bool {
    occurs_at(s, p, i) && forall|j: int| 0 <= j < i ==> !#[trigger] occurs_at(s, p, j)
}

/// The first place at which the pattern stands in the text.
pub open spec fn first_occurrence(s: Seq<char>, p: Seq<char>) -> Option<int> {
    if exists|i: int| is_first_occurrence(s, p, i) {
        Some(choose|i: int| is_first_occurrence(s, p, i))
    } else {
        None
    }
}

/// Whether `i` is the last place of the character in the text.
pub open spec fn is_last_index(s: Seq<char>, c: char, i: int) -> bool {
    &&& 0 <= i < s.len()
    &&& s[i] == c
    &&& forall|j: int| i < j < s.len() ==> #[trigger] s[j] != c
}

/// The last place of the character in the text.
pub open spec fn last_index_of(s: Seq<char>, c: char) -> Option<int> {
    if exists|i: int| is_last_index(s, c, i) {
        Some(choose|i: int| is_last_index(s, c, i))
    } else {
        None
    }
}

/// The property of being the character `c`.
pub open spec fn is_char(c: char) -> spec_fn(char) -> bool {
    |x: char| x == c
}

proof fn lemma_first_occurrence_is(s: Seq<char>, p: Seq<char>, i: int)
    requires
        is_first_occurrence(s, p, i),
    ensures
        first_occurrence(s, p) == Some(i),
{
    let k = choose|k: int| is_first_occurrence(s, p, k);
    if k < i {
        assert(!occurs_at(s, p, k));
    }
    if i < k {
        assert(!occurs_at(s, p, i));
    }
}

proof fn lemma_no_occurrence(s: Seq<char>, p: Seq<char>)
    requires
        forall|j: int| 0 <= j ==> !#[trigger] occurs_at(s, p, j),
    ensures
        first_occurrence(s, p) is None,
{
    if exists|i: int| is_first_occurrence(s, p, i) {
        let k = choose|k: int| is_first_occurrence(s, p, k);
        assert(occurs_at(s, p, k));
    }
}

proof fn lemma_last_index_is(s: Seq<char>, c: char, i: int)
    requires
        is_last_index(s, c, i),
    ensures
        last_index_of(s, c) == Some(i),
{
    let k = choose|k: int| is_last_index(s, c, k);
    if k < i {
        assert(s[i] != c);
    }
    if i < k {
        assert(s[k] != c);
    }
}

proof fn lemma_no_last_index(s: Seq<char>, c: char)
    requires
        forall|j: int| 0 <= j < s.len() ==> #[trigger] s[j] != c,
    ensures
        last_index_of(s, c) is None,
{
    if exists|i: int| is_last_index(s, c, i) {
        let k = choose|k: int| is_last_index(s, c, k);
        assert(s[k] != c);
    }
}

fn matches_at(s: &str, s_len: usize, p: &str, p_len: usize, i: usize) -> (found: bool)
    requires
        s_len == s@.len(),
        p_len == p@.len(),
        i + p_len <= s_len,
    ensures
        found == occurs_at(s@, p@, i as int),
{
    let mut k: usize = 0;
    while k < p_len
        invariant
            k <= p_len,
            s_len == s@.len(),
            p_len == p@.len(),
            i + p_len <= s_len,
            forall|j: int| 0 <= j < k ==> s@[i + j] == p@[j],
        decreases p_len - k,
    {
        if s.get_char(i + k) != p.get_char(k) {
            assert(s@.subrange(i as int, i + p_len)[k as int] == s@[i + k]);
            return false;
        }
        k = k + 1;
    }
    assert(s@.subrange(i as int, i + p_len) =~= p@);
    true
}

/// Whether the text begins with the pattern.
pub fn starts_with(s: &str, p: &str) -> (found: bool)
    ensures
        found == starts_with_spec(s@, p@),
{
    let s_len = s.unicode_len();
    let p_len = p.unicode_len();
    if p_len > s_len {
        return false;
    }
    matches_at(s, s_len, p, p_len, 0)
}

/// The first place at which the pattern stands in the text, counted in
/// characters.
pub fn find_first(s: &str, p: &str) -> (found: Option<usize>)
    ensures
        match found {
            Some(i) => first_occurrence(s@, p@) == Some(i as int),
            None => first_occurrence(s@, p@) is None,
        },
{
    let s_len = s.unicode_len();
    let p_len = p.unicode_len();
    if p_len > s_len {
        proof {
            lemma_no_occurrence(s@, p@);
        }
        return None;
    }
    let last = s_len - p_len;
    let mut i: usize = 0;
    while i < last
        invariant
            i <= last,
            last == s_len - p_len,
            s_len == s@.len(),
            p_len == p@.len(),
            forall|j: int| 0 <= j < i ==> !#[trigger] occurs_at(s@, p@, j),
        decreases last - i,
    {
        if matches_at(s, s_len, p, p_len, i) {
            proof {
                lemma_first_occurrence_is(s@, p@, i as int);
            }
            return Some(i);
        }
        i = i + 1;
    }
    if matches_at(s, s_len, p, p_len, last) {
        proof {
            lemma_first_occurrence_is(s@, p@, last as int);
        }
        return Some(last);
    }
    proof {
        lemma_no_occurrence(s@, p@);
    }
    None
}

/// The last place of the character in the text, counted in characters.
pub fn find_last_char(s: &str, c: char) -> (found: Option<usize>)
    ensures
        match found {
            Some(i) => last_index_of(s@, c) == Some(i as int),
            None => last_index_of(s@, c) is None,
        },
{
    let s_len = s.unicode_len();
    let mut i: usize = s_len;
    while i > 0
        invariant
            i <= s_len,
            s_len == s@.len(),
            forall|j: int| i <= j < s_len ==> #[trigger] s@[j] != c,
        decreases i,
    {
        i = i - 1;
        if s.get_char(i) == c {
            proof {
                lemma_last_index_is(s@, c, i as int);
            }
            return Some(i);
        }
    }
    proof {
        lemma_no_last_index(s@, c);
    }
    None
}

/// The first place of the character in the text, counted in characters.
pub fn find_first_char(s: &str, c: char) -> (found: Option<usize>)
    ensures
        match found {
            Some(i) => position(s@, is_char(c)) == Some(i as int),
            None => position(s@, is_char(c)) is None,
        },
{
    let s_len = s.unicode_len();
    let mut i: usize = 0;
    while i < s_len
        invariant
            i <= s_len,
            s_len == s@.len(),
            forall|j: int| 0 <= j < i ==> !is_char(c)(#[trigger] s@[j]),
        decreases s_len - i,
    {
        if s.get_char(i) == c {
            proof {
                lemma_position_is(s@, is_char(c), i as int);
            }
            return Some(i);
        }
        i = i + 1;
    }
    proof {
        lemma_position_none(s@, is_char(c));
    }
    None
}

// ---------------------------------------------------------------------
// Scripts that a shell is asked to run
// ---------------------------------------------------------------------

/// The script inside a wrapper that first sources a file and then runs
/// the script in parentheses: what stands between the first `&& (` and the
/// last `)`, without the white space at its ends. A text that is no such
/// wrapper has none.
pub open spec fn rc_source_inner(script: Seq<char>) -> Option<Seq<char>> {
    let trimmed = trim_spec(script);
    if !starts_with_spec(trimmed, "source "@) {
        None
    } else {
        match (first_occurrence(trimmed, "&& ("@), last_index_of(trimmed, ')')) {
            (Some(start), Some(end)) => if end <= start + "&& ("@.len() {
                None
            } else {
                Some(trim_spec(trimmed.subrange(start + "&& ("@.len(), end)))
            },
            _ => None,
        }
    }
}

/// The script that a command hands to a shell: the command has three
/// words, the first is a shell, the second is `-lc` or `-c`, and the third is
/// the script, which is taken without a wrapper that sources a file, and
/// without the white space at its ends.
pub open spec fn shell_wrapper_script(command: Seq<Seq<char>>, shell_like: bool) -> Option<
    Seq<char>,
> {
    if command.len() != 3 || !shell_like || !(command[1] == "-lc"@ || command[1] == "-c"@) {
        None
    } else {
        Some(
            match rc_source_inner(command[2]) {
                Some(inner) => inner,
                None => trim_spec(command[2]),
            },
        )
    }
}

pub fn strip_rc_source_wrapper(script: &str) -> (inner: Option<String>)
    ensures
        inner.deep_view() == rc_source_inner(script@),
{
    let trimmed_text = trim(script);
    let trimmed = trimmed_text.as_str();
    if !starts_with(trimmed, "source ") {
        return None;
    }
    let start = match find_first(trimmed, "&& (") {
        Some(start) => start,
        None => {
            return None;
        },
    };
    let opening = "&& (".unicode_len();
    let end = match find_last_char(trimmed, ')') {
        Some(end) => end,
        None => {
            return None;
        },
    };
    let length = trimmed.unicode_len();
    assert(occurs_at(trimmed@, "&& ("@, start as int));
    let inner_start = start + opening;
    if end <= inner_start {
        return None;
    }
    let inner = trimmed.substring_char(inner_start, end);
    Some(trim(inner))
}

pub fn extract_shell_wrapper_script(command: &[String], shell_like: bool) -> (script: Option<String>)
    ensures
        script.deep_view() == shell_wrapper_script(words(command), shell_like),
{
    if command.len() != 3 {
        return None;
    }
    let flag = command[1].as_str();
    if !shell_like || !(same_text(flag, "-lc") || same_text(flag, "-c")) {
        return None;
    }
    let script = command[2].as_str();
    match strip_rc_source_wrapper(script) {
        Some(inner) => Some(inner),
        None => Some(trim(script)),
    }
}

// ---------------------------------------------------------------------
// Scripts that PowerShell is asked to run
// ---------------------------------------------------------------------

/// The texts with a blank between each two.
pub open spec fn joined(args: Seq<Seq<char>>) -> Seq<char>
    decreases args.len(),
{
    if args.len() == 0 {
        Seq::empty()
    } else if args.len() == 1 {
        args[0]
    } else {
        joined(args.drop_last()) + " "@ + args.last()
    }
}

/// The arguments as one script: joined by blanks, without the white space
/// at the ends.
pub open spec fn arguments_as_script(args: Seq<Seq<char>>) -> Seq<char> {
    trim_spec(joined(args))
}

/// Whether the name, in lower case, is one of PowerShell's.
pub open spec fn powershell_name(name: Seq<char>) -> bool {
    let lower = to_ascii_lowercase_spec(name);
    lower == "powershell"@ || lower == "powershell.exe"@ || lower == "pwsh"@ || lower
        == "pwsh.exe"@
}

/// Whether the argument, in lower case, says that the script follows as
/// the next argument.
pub open spec fn is_command_flag(lower: Seq<char>) -> bool {
    lower == "-command"@ || lower == "/command"@ || lower == "-c"@
}

/// Whether the argument, in lower case, holds the script behind a colon.
pub open spec fn is_inline_command(lower: Seq<char>) -> bool {
    starts_with_spec(lower, "-command:"@) || starts_with_spec(lower, "/command:"@)
}

/// Whether the argument, in lower case, is a switch that is passed over.
pub open spec fn is_skipped_switch(lower: Seq<char>) -> bool {
    ||| lower == "-nologo"@
    ||| lower == "-noprofile"@
    ||| lower == "-noninteractive"@
    ||| lower == "-mta"@
    ||| lower == "-sta"@
    ||| starts_with_spec(lower, "-"@)
}

/// What stands behind the first colon of the text.
pub open spec fn after_first_colon(arg: Seq<char>) -> Option<Seq<char>> {
    match position(arg, is_char(':')) {
        Some(i) => Some(arg.subrange(i + 1, arg.len() as int)),
        None => None,
    }
}

/// The script among the arguments of PowerShell. The arguments are read
/// from the first on: behind `-Command`, `/Command` or `-c` the next
/// argument is the script; an argument that begins with `-Command:` or
/// `/Command:` holds the script behind the colon; other switches are passed
/// over; and from the first argument that is no switch on, the arguments
/// together are the script. The script is taken without the white space at
/// its ends. Case does not count in the switches.
pub open spec fn powershell_script(rest: Seq<Seq<char>>) -> Option<Seq<char>>
    decreases rest.len(),
{
    if rest.len() == 0 {
        None
    } else {
        let lower = to_ascii_lowercase_spec(rest[0]);
        if is_command_flag(lower) {
            if rest.len() > 1 {
                Some(trim_spec(rest[1]))
            } else {
                None
            }
        } else if is_inline_command(lower) {
            match after_first_colon(rest[0]) {
                Some(script) => Some(trim_spec(script)),
                None => None,
            }
        } else if is_skipped_switch(lower) {
            powershell_script(rest.drop_first())
        } else {
            Some(arguments_as_script(rest))
        }
    }
}

/// The script that a command hands to PowerShell: the first word is
/// PowerShell, and the script is found among the words that follow.
pub open spec fn powershell_wrapper_script(command: Seq<Seq<char>>, powershell: bool) -> Option<
    Seq<char>,
> {
    if command.len() < 2 || !powershell {
        None
    } else {
        powershell_script(command.subrange(1, command.len() as int))
    }
}

/// The arguments from the place `from` on as one script.
pub fn join_arguments_as_script(args: &[String], from: usize) -> (script: String)
    ensures
        from <= args@.len() ==> script@ == arguments_as_script(
            words(args).subrange(from as int, args@.len() as int),
        ),
        from > args@.len() ==> script@ == trim_spec(Seq::empty()),
{
    let mut out = String::new();
    if from > args.len() {
        return trim(out.as_str());
    }
    let mut i: usize = from;
    assert(words(args).subrange(from as int, from as int) =~= Seq::<Seq<char>>::empty());
    while i < args.len()
        invariant
            from <= i <= args@.len(),
            out@ == joined(words(args).subrange(from as int, i as int)),
        decreases args@.len() - i,
    {
        let ghost next = words(args).subrange(from as int, i + 1);
        proof {
            assert(next.drop_last() =~= words(args).subrange(from as int, i as int));
            assert(next.last() == args@[i as int]@);
        }
        if i > from {
            out.append(" ");
        } else {
            assert(next.len() == 1);
            assert(out@ =~= Seq::<char>::empty());
        }
        out.append(args[i].as_str());
        proof {
            if i == from {
                assert(out@ =~= next[0]);
            }
        }
        i = i + 1;
    }
    trim(out.as_str())
}

/// Whether the name is one of PowerShell's.
pub fn is_powershell_name(name: &str) -> (powershell: bool)
    ensures
        powershell == powershell_name(name@),
{
    let lower_text = to_ascii_lowercase(name);
    let lower = lower_text.as_str();
    same_text(lower, "powershell") || same_text(lower, "powershell.exe") || same_text(
        lower,
        "pwsh",
    ) || same_text(lower, "pwsh.exe")
}

/// `std::path::Path::file_name`: the last component of the path, as text,
/// if the path has one that is text. Where a path's components part depends
/// on the system, so nothing is claimed of the result.
#[verifier::external_body]
pub(crate) fn file_name_only(path: &str) -> (name: Option<String>) {
    std::path::Path::new(path).file_name().and_then(|s| s.to_str()).map(
        std::string::ToString::to_string,
    )
}

/// The name of the program that a command runs: the last component of its
/// first word. A command without words runs none.
pub fn executable_name(command: &[String]) -> (name: Option<String>)
    ensures
        command@.len() == 0 ==> name is None,
{
    if command.len() == 0 {
        None
    } else {
        file_name_only(command[0].as_str())
    }
}

/// Whether the program is PowerShell, by the last component of its path
/// or, where the path has none, by the path itself.
pub fn is_powershell_executable(exe: &str) -> (powershell: bool)
    ensures
        exists|name: Option<Seq<char>>| powershell == #[trigger] program_is_powershell(name, exe@),
{
    let name = file_name_only(exe);
    let powershell = match &name {
        Some(name) => is_powershell_name(name.as_str()),
        None => is_powershell_name(exe),
    };
    assert(powershell == program_is_powershell(name.deep_view(), exe@));
    powershell
}

/// Whether a program with this path and this last component is PowerShell.
pub open spec fn program_is_powershell(name: Option<Seq<char>>, exe: Seq<char>) -> bool {
    powershell_name(
        match name {
            Some(name) => name,
            None => exe,
        },
    )
}

fn powershell_script_from(command: &[String], start: usize) -> (script: Option<String>)
    requires
        start <= command@.len(),
    ensures
        script.deep_view() == powershell_script(
            words(command).subrange(start as int, command@.len() as int),
        ),
{
    let ghost all = words(command);
    let ghost n = command@.len() as int;
    let mut idx: usize = start;
    while idx < command.len()
        invariant
            start <= idx <= command@.len(),
            all == words(command),
            n == command@.len(),
            powershell_script(all.subrange(start as int, n)) == powershell_script(
                all.subrange(idx as int, n),
            ),
        decreases command@.len() - idx,
    {
        let ghost rest = all.subrange(idx as int, n);
        proof {
            assert(rest[0] == command@[idx as int]@);
            assert(rest.drop_first() =~= all.subrange(idx + 1, n));
        }
        let arg = command[idx].as_str();
        let lower_text = to_ascii_lowercase(arg);
        let lower = lower_text.as_str();
        if same_text(lower, "-command") || same_text(lower, "/command") || same_text(lower, "-c") {
            if idx + 1 < command.len() {
                assert(rest[1] == command@[idx + 1]@);
                return Some(trim(command[idx + 1].as_str()));
            } else {
                return None;
            }
        }
        if starts_with(lower, "-command:") || starts_with(lower, "/command:") {
            return match find_first_char(arg, ':') {
                Some(colon) => {
                    let length = arg.unicode_len();
                    Some(trim(arg.substring_char(colon + 1, length)))
                },
                None => None,
            };
        }
        if same_text(lower, "-nologo") || same_text(lower, "-noprofile") || same_text(
            lower,
            "-noninteractive",
        ) || same_text(lower, "-mta") || same_text(lower, "-sta") || starts_with(lower, "-") {
            idx = idx + 1;
            continue ;
        }
        return Some(join_arguments_as_script(command, idx));
    }
    assert(all.subrange(idx as int, n) =~= Seq::<Seq<char>>::empty());
    None
}

pub fn extract_powershell_script(command: &[String], powershell: bool) -> (script: Option<String>)
    ensures
        script.deep_view() == powershell_wrapper_script(words(command), powershell),
{
    if command.len() < 2 || !powershell {
        return None;
    }
    powershell_script_from(command, 1)
}

// ---------------------------------------------------------------------
// Canonical commands
// ---------------------------------------------------------------------

/// What is known of a command from outside: whether its first word is a
/// shell, the name of the program that it runs, and, where it hands a script
/// to a shell, the plain commands that the script consists of, if it
/// consists of such only.
#[derive(Debug, PartialEq, Eq)]
pub struct CommandFacts {
    pub shell_like: bool,
    pub executable_name: Option<String>,
    pub plain_commands: Option<Vec<Vec<String>>>,
}

pub struct CommandFactsView {
    pub shell_like: bool,
    pub executable_name: Option<Seq<char>>,
    pub plain_commands: Option<Seq<Seq<Seq<char>>>>,
}

impl View for CommandFacts {
    type V = CommandFactsView;

    open spec fn view(&self) -> CommandFactsView {
        CommandFactsView {
            shell_like: self.shell_like,
            executable_name: self.executable_name.deep_view(),
            plain_commands: self.plain_commands.deep_view(),
        }
    }
}

/// Whether the command runs PowerShell.
pub open spec fn runs_powershell(command: Seq<Seq<char>>, facts: CommandFactsView) -> bool {
    command.len() > 0 && program_is_powershell(facts.executable_name, command[0])
}

/// The command as approvals are remembered for it.
///
/// A command that hands a shell a script of one plain command is that
/// command. A command that hands a shell another script is the mark of a
/// shell script, the shell's flag and the script. A command that hands
/// PowerShell a script is the mark of a PowerShell script and the script.
/// Every other command is itself.
pub open spec fn canonical_command(command: Seq<Seq<char>>, facts: CommandFactsView) -> Seq<
    Seq<char>,
> {
    match shell_wrapper_script(command, facts.shell_like) {
        Some(script) => match facts.plain_commands {
            Some(commands) if commands.len() == 1 => commands[0],
            _ => seq![CANONICAL_SHELL_SCRIPT_PREFIX@, command[1], script],
        },
        None => match powershell_wrapper_script(command, runs_powershell(command, facts)) {
            Some(script) => seq![CANONICAL_POWERSHELL_SCRIPT_PREFIX@, script],
            None => command,
        },
    }
}

/// The word at the place, or the empty word where there is none.
pub open spec fn word_or_empty(command: Seq<Seq<char>>, i: int) -> Seq<char> {
    if 0 <= i < command.len() {
        command[i]
    } else {
        Seq::empty()
    }
}

/// The name of the program, or the given one where the program has none.
pub open spec fn program_or(facts: CommandFactsView, default: Seq<char>) -> Seq<char> {
    match facts.executable_name {
        Some(name) => name,
        None => default,
    }
}

/// The command as it is written down for later: a plain command as it is;
/// a script with the name of the shell in place of the shell's path, so that
/// no path of the machine is kept.
pub open spec fn persisted_command(command: Seq<Seq<char>>, facts: CommandFactsView) -> Seq<
    Seq<char>,
> {
    let canonical = canonical_command(command, facts);
    match command_kind(canonical) {
        CanonicalApprovalCommandKind::Argv => canonical,
        CanonicalApprovalCommandKind::ShellScript => seq![
            program_or(facts, "bash"@),
            word_or_empty(canonical, 1),
            word_or_empty(canonical, 2),
        ],
        CanonicalApprovalCommandKind::PowerShellScript => seq![
            program_or(facts, "pwsh"@),
            "-Command"@,
            word_or_empty(canonical, 1),
        ],
    }
}

/// A copy of the words.
pub fn clone_words(command: &[String]) -> (copy: Vec<String>)
    ensures
        copy.deep_view() == words(command),
{
    let mut copy: Vec<String> = Vec::new();
    let mut i: usize = 0;
    while i < command.len()
        invariant
            i <= command@.len(),
            copy@.len() == i,
            forall|j: int| 0 <= j < i ==> (#[trigger] copy@[j])@ == command@[j]@,
        decreases command@.len() - i,
    {
        copy.push(command[i].clone());
        i = i + 1;
    }
    assert(copy.deep_view() =~= words(command));
    copy
}

/// The word at the place, or the empty word.
fn word_at(command: &Vec<String>, i: usize) -> (word: String)
    ensures
        word@ == word_or_empty(command.deep_view(), i as int),
{
    if i < command.len() {
        assert(command.deep_view()[i as int] == command@[i as int]@);
        command[i].clone()
    } else {
        String::new()
    }
}

/// Canonicalizes the words of a command for the matching of approvals, by
/// what is known of the command from outside.
pub fn canonicalize_command_for_approval(command: &[String], facts: &CommandFacts) -> (canonical:
    Vec<String>)
    ensures
        canonical.deep_view() == canonical_command(words(command), facts@),
{
    match extract_shell_wrapper_script(command, facts.shell_like) {
        Some(script) => {
            match &facts.plain_commands {
                Some(commands) => {
                    if commands.len() == 1 {
                        let single = clone_texts(&commands[0]);
                        assert(facts@.plain_commands->0[0] == commands@[0].deep_view());
                        return single;
                    }
                },
                None => {},
            }
            let mut canonical: Vec<String> = Vec::new();
            canonical.push(CANONICAL_SHELL_SCRIPT_PREFIX.to_owned());
            canonical.push(command[1].clone());
            canonical.push(script);
            assert(canonical.deep_view() =~= seq![
                CANONICAL_SHELL_SCRIPT_PREFIX@,
                words(command)[1],
                script@,
            ]);
            canonical
        },
        None => {
            let powershell = command.len() > 0 && match &facts.executable_name {
                Some(name) => is_powershell_name(name.as_str()),
                None => is_powershell_name(command[0].as_str()),
            };
            match extract_powershell_script(command, powershell) {
                Some(script) => {
                    let mut canonical: Vec<String> = Vec::new();
                    canonical.push(CANONICAL_POWERSHELL_SCRIPT_PREFIX.to_owned());
                    canonical.push(script);
                    assert(canonical.deep_view() =~= seq![
                        CANONICAL_POWERSHELL_SCRIPT_PREFIX@,
                        script@,
                    ]);
                    canonical
                },
                None => clone_words(command),
            }
        },
    }
}

/// The words of a command as they are written down for later.
pub fn normalize_command_for_persistence(command: &[String], facts: &CommandFacts) -> (persisted:
    Vec<String>)
    ensures
        persisted.deep_view() == persisted_command(words(command), facts@),
{
    let canonical = canonicalize_command_for_approval(command, facts);
    let canonical_words = canonical.as_slice();
    assert(words(canonical_words) =~= canonical.deep_view());
    match canonical_approval_command_kind(canonical_words) {
        CanonicalApprovalCommandKind::Argv => canonical,
        CanonicalApprovalCommandKind::ShellScript => {
            let mode = word_at(&canonical, 1);
            let script = word_at(&canonical, 2);
            let shell = match &facts.executable_name {
                Some(name) => name.clone(),
                None => "bash".to_owned(),
            };
            let mut persisted: Vec<String> = Vec::new();
            persisted.push(shell);
            persisted.push(mode);
            persisted.push(script);
            assert(persisted.deep_view() =~= seq![shell@, mode@, script@]);
            persisted
        },
        CanonicalApprovalCommandKind::PowerShellScript => {
            let script = word_at(&canonical, 1);
            let shell = match &facts.executable_name {
                Some(name) => name.clone(),
                None => "pwsh".to_owned(),
            };
            let mut persisted: Vec<String> = Vec::new();
            persisted.push(shell);
            persisted.push("-Command".to_owned());
            persisted.push(script);
            assert(persisted.deep_view() =~= seq![shell@, "-Command"@, script@]);
            persisted
        },
    }
}

/// A command that is no wrapper of a shell or of PowerShell is canonical
/// as it is, and a canonical plain command is written down as it is.
pub proof fn lemma_plain_command_is_kept(command: Seq<Seq<char>>, facts: CommandFactsView)
    requires
        !facts.shell_like,
        !runs_powershell(command, facts),
    ensures
        canonical_command(command, facts) == command,
        command_kind(command) == CanonicalApprovalCommandKind::Argv ==> persisted_command(
            command,
            facts,
        ) == command,
{
}

/// Two commands that hand the same script with the same flag, `-lc` or
/// `-c`, to a shell are canonical alike, whatever the paths of their shells, where the script
/// reads as the same plain commands.
pub proof fn lemma_shell_path_does_not_count(
    first: Seq<Seq<char>>,
    second: Seq<Seq<char>>,
    first_facts: CommandFactsView,
    second_facts: CommandFactsView,
)
    requires
        first.len() == 3,
        second.len() == 3,
        first[1] == "-lc"@ || first[1] == "-c"@,
        first[1] == second[1],
        first[2] == second[2],
        first_facts.shell_like,
        second_facts.shell_like,
        first_facts.plain_commands == second_facts.plain_commands,
    ensures
        canonical_command(first, first_facts) == canonical_command(second, second_facts),
{
}

} // verus!
