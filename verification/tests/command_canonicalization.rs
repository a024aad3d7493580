use code_credentials::command_canonicalization::{
    canonical_approval_command_kind, canonicalize_command_for_approval, executable_name,
    extract_powershell_script, extract_shell_wrapper_script, find_first, find_first_char,
    find_last_char, is_powershell_executable, is_powershell_name, join_arguments_as_script,
    normalize_command_for_persistence, starts_with, strip_rc_source_wrapper,
    CanonicalApprovalCommandKind, CommandFacts,
};

fn command(words: &[&str]) -> Vec<String> {
    words.iter().map(|word| word.to_string()).collect()
}

/// What the program's shell parser says of the command: whether its first
/// word is a shell, and the plain commands of its script.
fn facts(command: &[String], shell_like: bool, plain: Option<Vec<Vec<String>>>) -> CommandFacts {
    CommandFacts { shell_like, executable_name: executable_name(command), plain_commands: plain }
}

fn one_plain_command(words: &[&str]) -> Option<Vec<Vec<String>>> {
    Some(vec![command(words)])
}

#[test]
fn canonicalizes_word_only_shell_scripts_to_inner_command() {
    let command_a = vec![
        "/bin/bash".to_string(),
        "-lc".to_string(),
        "cargo test -p code-core".to_string(),
    ];
    let command_b = vec![
        "bash".to_string(),
        "-lc".to_string(),
        "cargo   test   -p code-core".to_string(),
    ];
    let plain = one_plain_command(&["cargo", "test", "-p", "code-core"]);
    let facts_a = facts(&command_a, true, plain.clone());
    let facts_b = facts(&command_b, true, plain);

    assert_eq!(
        canonicalize_command_for_approval(&command_a, &facts_a),
        vec![
            "cargo".to_string(),
            "test".to_string(),
            "-p".to_string(),
            "code-core".to_string(),
        ]
    );
    assert_eq!(
        canonicalize_command_for_approval(&command_a, &facts_a),
        canonicalize_command_for_approval(&command_b, &facts_b)
    );
}

#[test]
fn canonicalizes_shell_scripts_wrapped_in_rc_source_to_inner_command() {
    let script = "source /tmp/.bashrc && (cargo test -p code-core)";
    let command = vec!["bash".to_string(), "-lc".to_string(), script.to_string()];
    assert_eq!(
        extract_shell_wrapper_script(&command, true).as_deref(),
        Some("cargo test -p code-core")
    );
    let facts = facts(&command, true, one_plain_command(&["cargo", "test", "-p", "code-core"]));

    assert_eq!(
        canonicalize_command_for_approval(&command, &facts),
        vec![
            "cargo".to_string(),
            "test".to_string(),
            "-p".to_string(),
            "code-core".to_string(),
        ]
    );
}

#[test]
fn canonicalizes_heredoc_scripts_to_stable_script_key() {
    let script = "python3 <<'PY'\nprint('hello')\nPY";
    let command_a = vec![
        "/bin/zsh".to_string(),
        "-lc".to_string(),
        script.to_string(),
    ];
    let command_b = vec!["zsh".to_string(), "-lc".to_string(), script.to_string()];
    let facts_a = facts(&command_a, true, None);
    let facts_b = facts(&command_b, true, None);

    assert_eq!(
        canonicalize_command_for_approval(&command_a, &facts_a),
        vec![
            "__code_shell_script__".to_string(),
            "-lc".to_string(),
            script.to_string(),
        ]
    );
    assert_eq!(
        canonicalize_command_for_approval(&command_a, &facts_a),
        canonicalize_command_for_approval(&command_b, &facts_b)
    );
}

#[test]
fn canonicalizes_powershell_wrappers_to_stable_script_key() {
    let script = "Write-Host hi";
    let command_a = vec![
        "powershell.exe".to_string(),
        "-NoProfile".to_string(),
        "-Command".to_string(),
        script.to_string(),
    ];
    let command_b = vec![
        "pwsh".to_string(),
        "-Command".to_string(),
        script.to_string(),
    ];
    let facts_a = facts(&command_a, false, None);
    let facts_b = facts(&command_b, false, None);

    assert_eq!(
        canonicalize_command_for_approval(&command_a, &facts_a),
        vec!["__code_powershell_script__".to_string(), script.to_string(),]
    );
    assert_eq!(
        canonicalize_command_for_approval(&command_a, &facts_a),
        canonicalize_command_for_approval(&command_b, &facts_b)
    );
}

#[test]
fn preserves_non_shell_commands() {
    let command = vec!["cargo".to_string(), "fmt".to_string()];
    let facts = facts(&command, false, None);
    assert_eq!(canonicalize_command_for_approval(&command, &facts), command);
}

#[test]
fn normalizes_shell_commands_for_persistence_without_rc_paths() {
    let script = "source /Users/me/.bashrc && (cargo test -p code-core)";
    let command = vec![
        "/bin/bash".to_string(),
        "-lc".to_string(),
        script.to_string(),
    ];
    let facts = facts(&command, true, one_plain_command(&["cargo", "test", "-p", "code-core"]));
    assert_eq!(
        normalize_command_for_persistence(&command, &facts),
        vec![
            "cargo".to_string(),
            "test".to_string(),
            "-p".to_string(),
            "code-core".to_string(),
        ]
    );
}

#[test]
fn normalizes_complex_shell_scripts_to_shell_wrapper_for_persistence() {
    let script = "source /Users/me/.bashrc && (python3 <<'PY'\nprint('hi')\nPY)";
    let command = vec![
        "/bin/bash".to_string(),
        "-lc".to_string(),
        script.to_string(),
    ];
    let facts = facts(&command, true, None);

    assert_eq!(
        normalize_command_for_persistence(&command, &facts),
        vec![
            "bash".to_string(),
            "-lc".to_string(),
            "python3 <<'PY'\nprint('hi')\nPY".to_string(),
        ]
    );
}

#[test]
fn kind_is_read_from_the_first_word() {
    assert_eq!(
        canonical_approval_command_kind(&command(&["__code_shell_script__", "-lc", "ls | wc"])),
        CanonicalApprovalCommandKind::ShellScript
    );
    assert_eq!(
        canonical_approval_command_kind(&command(&["__code_powershell_script__", "Write-Host hi"])),
        CanonicalApprovalCommandKind::PowerShellScript
    );
    assert_eq!(
        canonical_approval_command_kind(&command(&["cargo", "fmt"])),
        CanonicalApprovalCommandKind::Argv
    );
    assert_eq!(
        canonical_approval_command_kind(&command(&["cargo", "__code_shell_script__"])),
        CanonicalApprovalCommandKind::Argv
    );
    assert_eq!(canonical_approval_command_kind(&[]), CanonicalApprovalCommandKind::Argv);
}

#[test]
fn text_is_searched_by_characters() {
    assert!(starts_with("source x", "source "));
    assert!(!starts_with("sourc", "source "));
    assert!(starts_with("anything", ""));
    assert_eq!(find_first("a && (b) && (c)", "&& ("), Some(2));
    assert_eq!(find_first("é && (b)", "&& ("), Some(2));
    assert_eq!(find_first("abc", "abcd"), None);
    assert_eq!(find_first("abc", "c"), Some(2));
    assert_eq!(find_first("abc", ""), Some(0));
    assert_eq!(find_last_char("(a) (b)", ')'), Some(6));
    assert_eq!(find_last_char("é)", ')'), Some(1));
    assert_eq!(find_last_char("abc", ')'), None);
    assert_eq!(find_first_char("-Command:a:b", ':'), Some(8));
    assert_eq!(find_first_char("abc", ':'), None);
}

#[test]
fn rc_source_wrapper_is_stripped_only_where_it_is_one() {
    assert_eq!(
        strip_rc_source_wrapper("  source ~/.zshrc && ( ls -la )  ").as_deref(),
        Some("ls -la")
    );
    assert_eq!(
        strip_rc_source_wrapper("source a && (echo (x))").as_deref(),
        Some("echo (x)")
    );
    assert_eq!(strip_rc_source_wrapper("ls && (pwd)"), None);
    assert_eq!(strip_rc_source_wrapper("source a && ls"), None);
    assert_eq!(strip_rc_source_wrapper("source a) && (ls"), None);
    assert_eq!(strip_rc_source_wrapper("source a && ()"), None);
    assert_eq!(strip_rc_source_wrapper("source a && ( )").as_deref(), Some(""));
}

#[test]
fn shell_wrapper_needs_a_shell_a_flag_and_a_script() {
    let wrapped = command(&["sh", "-c", "  ls  "]);
    assert_eq!(extract_shell_wrapper_script(&wrapped, true).as_deref(), Some("ls"));
    assert_eq!(extract_shell_wrapper_script(&wrapped, false), None);
    assert_eq!(extract_shell_wrapper_script(&command(&["sh", "-x", "ls"]), true), None);
    assert_eq!(extract_shell_wrapper_script(&command(&["sh", "-c"]), true), None);
    assert_eq!(extract_shell_wrapper_script(&command(&["sh", "-c", "ls", "x"]), true), None);

    // Several plain commands stay a script.
    let two = command(&["bash", "-lc", "ls && pwd"]);
    let facts = facts(&two, true, Some(vec![command(&["ls"]), command(&["pwd"])]));
    assert_eq!(
        canonicalize_command_for_approval(&two, &facts),
        command(&["__code_shell_script__", "-lc", "ls && pwd"])
    );
}

#[test]
fn powershell_script_is_found_among_the_arguments() {
    let script = |words: &[&str]| extract_powershell_script(&command(words), true);
    assert_eq!(script(&["pwsh", "-Command", "  Get-Item .  "]).as_deref(), Some("Get-Item ."));
    assert_eq!(script(&["pwsh", "/COMMAND", "x"]).as_deref(), Some("x"));
    assert_eq!(script(&["pwsh", "-c", "x"]).as_deref(), Some("x"));
    assert_eq!(script(&["pwsh", "-Command"]), None);
    assert_eq!(script(&["pwsh", "-Command: Write-Host a:b "]).as_deref(), Some("Write-Host a:b"));
    assert_eq!(script(&["pwsh", "/command:dir"]).as_deref(), Some("dir"));
    assert_eq!(script(&["pwsh", "-NoLogo", "-Sta", "-Unknown", "dir", "-Force"]).as_deref(), Some("dir -Force"));
    assert_eq!(script(&["pwsh", "-NoLogo", "-NoProfile"]), None);
    assert_eq!(script(&["pwsh"]), None);
    assert_eq!(script(&[]), None);
    assert_eq!(extract_powershell_script(&command(&["pwsh", "-c", "x"]), false), None);
    assert_eq!(join_arguments_as_script(&command(&[" a", "b ", "c"]), 0), "a b  c");
    assert_eq!(join_arguments_as_script(&command(&["a", "b"]), 1), "b");
    assert_eq!(join_arguments_as_script(&command(&["a"]), 1), "");
}

#[test]
fn powershell_is_known_by_its_name() {
    assert!(is_powershell_name("PowerShell.EXE"));
    assert!(is_powershell_name("pwsh"));
    assert!(!is_powershell_name("pwsh7"));
    assert!(is_powershell_executable("/usr/bin/pwsh"));
    assert!(is_powershell_executable("powershell"));
    assert!(!is_powershell_executable("/usr/bin/bash"));
    assert_eq!(executable_name(&command(&["/bin/zsh", "-lc"])).as_deref(), Some("zsh"));
    assert_eq!(executable_name(&[]), None);
}

#[test]
fn powershell_script_is_written_down_with_the_name_of_the_shell() {
    let wrapped = command(&["/opt/ms/PowerShell.exe", "-NoProfile", "-Command", "Write-Host hi"]);
    let facts = facts(&wrapped, false, None);
    assert_eq!(
        normalize_command_for_persistence(&wrapped, &facts),
        command(&["PowerShell.exe", "-Command", "Write-Host hi"])
    );
    let plain = command(&["cargo", "fmt"]);
    assert_eq!(normalize_command_for_persistence(&plain, &self::facts(&plain, false, None)), plain);
}
