use vstd::prelude::*;
use vstd::string::*;

use crate::error::VerifierError;
use crate::toolchain::ToolchainPaths;

verus! {

/// A process to start: the program, its arguments, the working directory
/// (`None`: the caller's own) and the environment variables to set.
#[derive(Clone, Debug, PartialEq, Eq)]
pub struct CommandSpec {
    pub program: String,
    pub args: Vec<String>,
    pub cwd: Option<String>,
    pub env: Vec<(String, String)>,
}

/// The compiler wrapper run in the contract directory, told where the other
/// three executables are through `NARGO`, `TRANSPILER` and `BB`.
pub fn compile_command(tc: &ToolchainPaths, source_dir: &str) -> (r: CommandSpec)
    ensures
        r.program@ == tc.aztec_nargo@,
        r.args.deep_view() == seq!["compile"@],
        r.cwd matches Some(d) && d@ == source_dir@,
        r.env.deep_view() == seq![
            ("NARGO"@, tc.nargo@),
            ("TRANSPILER"@, tc.transpiler@),
            ("BB"@, tc.bb@),
        ],
{
    let mut args: Vec<String> = Vec::new();
    args.push(String::from_str("compile"));
    let mut env: Vec<(String, String)> = Vec::new();
    env.push((String::from_str("NARGO"), tc.nargo.clone()));
    env.push((String::from_str("TRANSPILER"), tc.transpiler.clone()));
    env.push((String::from_str("BB"), tc.bb.clone()));
    let r = CommandSpec {
        program: tc.aztec_nargo.clone(),
        args,
        cwd: Some(source_dir.to_owned()),
        env,
    };
    assert(r.args.deep_view() =~= seq!["compile"@]);
    assert(r.env.deep_view() =~= seq![
        ("NARGO"@, tc.nargo@),
        ("TRANSPILER"@, tc.transpiler@),
        ("BB"@, tc.bb@),
    ]);
    r
}

/// Classifies how the compiler wrapper ended: exit code zero is success,
/// anything else (or no exit code at all) is `CompilationFailed` carrying it.
pub fn compile_outcome(exit_code: Option<i32>) -> (r: Result<(), VerifierError>)
    ensures
        exit_code == Some(0i32) ==> r is Ok,
        exit_code != Some(0i32) ==> (r matches Err(VerifierError::CompilationFailed { exit_code: c })
            && c == exit_code),
{
    match exit_code {
        Some(0) => Ok(()),
        _ => Err(VerifierError::CompilationFailed { exit_code }),
    }
}

/// The external class-id verifier run on an artifact against a deployed
/// contract.
pub fn verifier_command(artifact: &str, address: &str, network: &str) -> (r: CommandSpec)
    ensures
        r.program@ == "node"@,
        r.args.deep_view() == seq![
            "scripts/verify_class_id.mjs"@,
            "--artifact"@,
            artifact@,
            "--address"@,
            address@,
            "--network"@,
            network@,
        ],
        r.cwd is None,
        r.env@.len() == 0,
{
    let mut args: Vec<String> = Vec::new();
    args.push(String::from_str("scripts/verify_class_id.mjs"));
    args.push(String::from_str("--artifact"));
    args.push(artifact.to_owned());
    args.push(String::from_str("--address"));
    args.push(address.to_owned());
    args.push(String::from_str("--network"));
    args.push(network.to_owned());
    let r = CommandSpec { program: String::from_str("node"), args, cwd: None, env: Vec::new() };
    assert(r.args.deep_view() =~= seq![
        "scripts/verify_class_id.mjs"@,
        "--artifact"@,
        artifact@,
        "--address"@,
        address@,
        "--network"@,
        network@,
    ]);
    r
}

/// Characters that a POSIX shell would not take literally in a word.
pub open spec fn is_shell_special(c: char) -> bool {
    c == ' ' || c == '\t' || c == '\n' || c == '\'' || c == '"' || c == '\\' || c == '$' || c
        == '`' || c == '*' || c == '?' || c == '[' || c == ']' || c == '{' || c == '}' || c == ';'
        || c == '&' || c == '|' || c == '(' || c == ')' || c == '<' || c == '>' || c == '#' || c
        == '~' || c == '!'
}

pub open spec fn needs_quotes(a: Seq<char>) -> bool {
    a.len() == 0 || exists|i: int| 0 <= i < a.len() && #[trigger] is_shell_special(a[i])
}

/// The text of `a` for use inside single quotes: each `'` becomes `'\''`.
pub open spec fn escape_single_quotes(a: Seq<char>) -> Seq<char>
    decreases a.len(),
{
    if a.len() == 0 {
        Seq::empty()
    } else if a.last() == '\'' {
        escape_single_quotes(a.drop_last()) + seq!['\'', '\\', '\'', '\'']
    } else {
        escape_single_quotes(a.drop_last()).push(a.last())
    }
}

/// `a` as one shell word: unchanged when it is safe, single-quoted otherwise.
pub open spec fn shell_word(a: Seq<char>) -> Seq<char> {
    if needs_quotes(a) {
        seq!['\''] + escape_single_quotes(a) + seq!['\'']
    } else {
        a
    }
}

/// Each argument, as a shell word, preceded by a space.
pub open spec fn spaced_args(args: Seq<Seq<char>>) -> Seq<char>
    decreases args.len(),
{
    if args.len() == 0 {
        Seq::empty()
    } else {
        spaced_args(args.drop_last()) + " "@ + shell_word(args.last())
    }
}

/// The text of a command line that a shell runs as the given program with
/// the given arguments.
pub open spec fn command_text(program: Seq<char>, args: Seq<Seq<char>>) -> Seq<char> {
    shell_word(program) + spaced_args(args)
}

fn is_shell_special_char(c: char) -> (r: bool)
    ensures
        r == is_shell_special(c),
{
    c == ' ' || c == '\t' || c == '\n' || c == '\'' || c == '"' || c == '\\' || c == '$' || c
        == '`' || c == '*' || c == '?' || c == '[' || c == ']' || c == '{' || c == '}' || c == ';'
        || c == '&' || c == '|' || c == '(' || c == ')' || c == '<' || c == '>' || c == '#' || c
        == '~' || c == '!'
}

pub fn shell_word_of(a: &str) -> (r: String)
    ensures
        r@ == shell_word(a@),
{
    let n = a.unicode_len();
    let mut special = n == 0;
    let mut escaped = String::new();
    let mut i: usize = 0;
    proof {
        reveal_strlit("'\\''");
        reveal_strlit("'");
    }
    while i < n
        invariant
            i <= n,
            n == a@.len(),
            special == (n == 0 || exists|j: int| 0 <= j < i && #[trigger] is_shell_special(a@[j])),
            escaped@ == escape_single_quotes(a@.subrange(0, i as int)),
            !special ==> escaped@ == a@.subrange(0, i as int),
            "'\\''"@ == seq!['\'', '\\', '\'', '\''],
        decreases n - i,
    {
        let c = a.get_char(i);
        assert(a@.subrange(0, i + 1).drop_last() == a@.subrange(0, i as int));
        if is_shell_special_char(c) {
            special = true;
        }
        if c == '\'' {
            escaped.append("'\\''");
        } else {
            escaped.append(a.substring_char(i, i + 1));
            assert(a@.subrange(i as int, i + 1) == seq![c]);
        }
        i = i + 1;
    }
    assert(a@.subrange(0, n as int) == a@);
    if special {
        let r = String::from_str("'").concat(escaped.as_str()).concat("'");
        assert(r@ == seq!['\''] + escape_single_quotes(a@) + seq!['\'']);
        r
    } else {
        escaped
    }
}

/// The command as one line of text, to be rerun by hand in a shell.
pub fn command_line(cmd: &CommandSpec) -> (r: String)
    ensures
        r@ == command_text(cmd.program@, cmd.args.deep_view()),
{
    let mut out = shell_word_of(cmd.program.as_str());
    let mut i: usize = 0;
    while i < cmd.args.len()
        invariant
            i <= cmd.args@.len(),
            out@ == shell_word(cmd.program@) + spaced_args(cmd.args.deep_view().take(i as int)),
        decreases cmd.args@.len() - i,
    {
        let ghost all = cmd.args.deep_view();
        assert(all.take(i + 1).drop_last() == all.take(i as int));
        out.append(" ");
        let w = shell_word_of(cmd.args[i].as_str());
        out.append(w.as_str());
        i = i + 1;
    }
    assert(cmd.args.deep_view().take(cmd.args@.len() as int) == cmd.args.deep_view());
    out
}

/// Classifies how the verifier ended (`None`: it could not be started).
/// Failure carries the command line so that it can be rerun by hand.
pub fn verification_outcome(exit_code: Option<i32>, cmd: &CommandSpec) -> (r: Result<
    (),
    VerifierError,
>)
    ensures
        exit_code == Some(0i32) ==> r is Ok,
        exit_code != Some(0i32) ==> (r matches Err(
            VerifierError::VerificationFailed { command_line: l },
        ) && l@ == command_text(cmd.program@, cmd.args.deep_view())),
{
    match exit_code {
        Some(0) => Ok(()),
        _ => Err(VerifierError::VerificationFailed { command_line: command_line(cmd) }),
    }
}

} // verus!
