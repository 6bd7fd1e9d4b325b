use prun::args::Invocation;
use prun::args::UsageError;
use prun::args::parse_invocation;
use prun::bytes::ascii_lower;
use prun::bytes::bytes_eq;
use prun::bytes::copy_bytes;
use prun::bytes::extend_bytes;

fn argv(parts: &[&str]) -> Vec<Vec<u8>> {
    parts.iter().map(|p| p.as_bytes().to_vec()).collect()
}

#[test]
fn run_invocation_is_parsed() {
    let args = argv(&["prun", "run", "alpine", "/bin/sh", "-c", "true"]);
    match parse_invocation(&args) {
        Invocation::Run { image, command } => {
            assert_eq!(image, b"alpine".to_vec());
            assert_eq!(
                command,
                vec![b"/bin/sh".to_vec(), b"-c".to_vec(), b"true".to_vec()]
            );
        }
        _ => panic!("expected a run invocation"),
    }
}

#[test]
fn exec_invocation_is_parsed() {
    let args = argv(&["prun", "exec", "/bin/echo", "hi"]);
    match parse_invocation(&args) {
        Invocation::Exec { command } => {
            assert_eq!(command, vec![b"/bin/echo".to_vec(), b"hi".to_vec()]);
        }
        _ => panic!("expected an exec invocation"),
    }
}

#[test]
fn subcommand_word_is_case_insensitive() {
    let args = argv(&["prun", "RUN", "img", "/bin/true"]);
    assert!(matches!(
        parse_invocation(&args),
        Invocation::Run { .. }
    ));
    let args = argv(&["prun", "Exec", "/bin/true"]);
    assert!(matches!(parse_invocation(&args), Invocation::Exec { .. }));
}

#[test]
fn missing_subcommand_is_rejected() {
    let args = argv(&["prun"]);
    assert!(matches!(
        parse_invocation(&args),
        Invocation::Usage { error: UsageError::MissingSubcommand }
    ));
}

#[test]
fn run_without_command_is_rejected() {
    let args = argv(&["prun", "run", "alpine"]);
    assert!(matches!(
        parse_invocation(&args),
        Invocation::Usage { error: UsageError::MissingRunArgs }
    ));
}

#[test]
fn exec_without_command_is_rejected() {
    let args = argv(&["prun", "exec"]);
    assert!(matches!(
        parse_invocation(&args),
        Invocation::Usage { error: UsageError::MissingExecArgs }
    ));
}

#[test]
fn unknown_subcommand_is_rejected() {
    let args = argv(&["prun", "frobnicate", "x"]);
    assert!(matches!(
        parse_invocation(&args),
        Invocation::Usage { error: UsageError::UnknownSubcommand }
    ));
}

#[test]
fn ascii_lower_folds_letters_only() {
    let src = b"RuN-09/Az".to_vec();
    assert_eq!(ascii_lower(&src), b"run-09/az".to_vec());
}

#[test]
fn bytes_eq_compares_contents() {
    assert!(bytes_eq(&b"abc".to_vec(), &b"abc".to_vec()));
    assert!(!bytes_eq(&b"abc".to_vec(), &b"abd".to_vec()));
    assert!(!bytes_eq(&b"abc".to_vec(), &b"ab".to_vec()));
    assert!(bytes_eq(&Vec::new(), &Vec::new()));
}

#[test]
fn copy_and_extend_preserve_contents() {
    let a = b"alpha".to_vec();
    assert_eq!(copy_bytes(&a), a);
    let mut out = b"al".to_vec();
    extend_bytes(&mut out, &b"pha".to_vec());
    assert_eq!(out, a);
}
