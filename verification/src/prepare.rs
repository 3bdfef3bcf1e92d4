//! Command preparer: turns a raw command string plus an optional explicit
//! shell into a concrete (executable, argument-list) pair, with no OS
//! interaction.

use vstd::prelude::*;

verus! {

/// A command ready to be spawned: the executable to invoke and its arguments,
/// in order.
#[derive(Clone, Debug)]
pub struct PreparedCommand {
    pub executable: String,
    pub arguments: Vec<String>,
}

/// Why one invocation failed. Each variant carries the context a caller
/// reports: the offending command text for a parse failure, the platform's
/// description for the others.
#[derive(Clone, Debug, PartialEq, Eq)]
pub enum CommandError {
    /// The command text could not be tokenized as shell words.
    Parse { command: String },
    /// The operating system refused to create the process.
    Spawn { detail: String },
    /// Waiting for the child process failed.
    Wait { detail: String },
    /// The platform timing query failed after a successful wait.
    Timing { detail: String },
}

/// What `shell_words::split` yields for a command string: `None` when the
/// string cannot be tokenized (an unmatched quote), otherwise the POSIX shell
/// words in order.
pub uninterp spec fn shell_split(command: Seq<char>) -> Option<Seq<Seq<char>>>;

#[verifier::external_type_specification]
#[verifier::external_body]
pub struct ExParseError(shell_words::ParseError);

/// Relies on `shell_words::split`: it tokenizes a command line by POSIX shell
/// word-splitting rules, errs exactly when the input has an unmatched quote,
/// its result depends on the characters alone, and an empty string splits
/// into no words.
#[verifier::external_body]
fn split_words(command: &str) -> (r: Result<Vec<String>, shell_words::ParseError>)
    ensures
        r matches Ok(words) ==> shell_split(command@) == Some(words.deep_view()),
        r is Err ==> shell_split(command@) is None,
        command@.len() == 0 ==> r is Ok,
        command@.len() == 0 ==> (r matches Ok(words) ==> words@.len() == 0),
{
    shell_words::split(command)
}

/// What preparing a command yields, as a value: the executable's characters
/// and the argument texts, `Ok(None)` for the empty command, `Err(())` for a
/// tokenization failure.
pub open spec fn spec_prepare(
    command: Seq<char>,
    shell: Seq<char>,
    shell_flag: Seq<char>,
) -> Result<Option<(Seq<char>, Seq<Seq<char>>)>, ()> {
    if shell.len() > 0 {
        Ok(Some((shell, seq![shell_flag, command])))
    } else {
        match shell_split(command) {
            Some(words) => if words.len() == 0 {
                Ok(None)
            } else {
                Ok(Some((words[0], words.drop_first())))
            },
            None => Err(()),
        }
    }
}

/// Resolves a raw command string and an optional explicit shell into a
/// command to spawn.
///
/// With a non-empty `shell`, the shell itself is the executable and the whole
/// command string passes through unparsed as the single argument after
/// `shell_flag`. With an empty `shell`, the command string is tokenized as
/// POSIX shell words: the first word is the executable and the rest are the
/// arguments; no words at all means there is no command to run, and an
/// unmatched quote is a parse error naming the offending text.
pub fn prepare(command: &str, shell: &str, shell_flag: &str) -> (r: Result<
    Option<PreparedCommand>,
    CommandError,
>)
    ensures
        match r {
            Ok(Some(pc)) => spec_prepare(command@, shell@, shell_flag@) == Ok::<_, ()>(
                Some((pc.executable@, pc.arguments.deep_view())),
            ),
            Ok(None) => spec_prepare(command@, shell@, shell_flag@) == Ok::<
                Option<(Seq<char>, Seq<Seq<char>>)>,
                (),
            >(None),
            Err(e) => spec_prepare(command@, shell@, shell_flag@) == Err::<
                Option<(Seq<char>, Seq<Seq<char>>)>,
                (),
            >(()) && (e matches CommandError::Parse { command: c } && c@ == command@),
        },
{
    if shell.is_empty() {
        match split_words(command) {
            Ok(words) => {
                if words.len() == 0 {
                    assert(words.deep_view() =~= Seq::<Seq<char>>::empty());
                    Ok(None)
                } else {
                    let mut arguments = words;
                    let ghost pre: Seq<String> = arguments@;
                    let ghost all: Seq<Seq<char>> = arguments.deep_view();
                    let executable = arguments.remove(0);
                    proof {
                        assert(executable@ == all[0]);
                        assert(arguments.deep_view() =~= all.drop_first()) by {
                            assert forall|i: int| 0 <= i < arguments@.len() implies
                                arguments.deep_view()[i] == all.drop_first()[i] by {
                                assert(arguments@[i] == pre.remove(0)[i]);
                                assert(pre.remove(0)[i] == pre[i + 1]);
                            }
                        }
                    }
                    Ok(Some(PreparedCommand { executable, arguments }))
                }
            },
            Err(_) => Err(CommandError::Parse { command: command.to_owned() }),
        }
    } else {
        let arguments = vec![shell_flag.to_owned(), command.to_owned()];
        proof {
            assert(arguments.deep_view() =~= seq![shell_flag@, command@]);
        }
        Ok(Some(PreparedCommand { executable: shell.to_owned(), arguments }))
    }
}

/// Preparing a command is deterministic: two outcomes of preparing the same
/// command, shell and flag agree.
pub proof fn lemma_prepare_deterministic(
    command: Seq<char>,
    shell: Seq<char>,
    shell_flag: Seq<char>,
    r1: Result<Option<(Seq<char>, Seq<Seq<char>>)>, ()>,
    r2: Result<Option<(Seq<char>, Seq<Seq<char>>)>, ()>,
)
    requires
        r1 == spec_prepare(command, shell, shell_flag),
        r2 == spec_prepare(command, shell, shell_flag),
    ensures
        r1 == r2,
{
}

} // verus!
