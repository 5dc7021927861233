//! The classifier: a command line in, the interpreter's share and the
//! program's share out.

use crate::error::{Failure, LaunchError};
use crate::grammar;
use crate::grammar::{Mode, Parsed, Token};
use crate::resolve::{find_config, find_toml, Filesystem};
use crate::text::{contains_char, same_text};
use vstd::prelude::*;

verus! {

/// What the interpreter is asked to run.
#[derive(Debug, PartialEq)]
pub enum InvocationType {
    /// Nothing was named: the interpreter starts its prompt.
    Interactive,
    /// A module, by its dotted name.
    Module(String),
    /// Source text given on the command line.
    Command(String),
    /// A script, by its path.
    File(String),
}

impl View for InvocationType {
    type V = Mode;

    open spec fn view(&self) -> Mode {
        match self {
            InvocationType::Interactive => Mode::Interactive,
            InvocationType::Module(module) => Mode::Module(module@),
            InvocationType::Command(source) => Mode::Command(source@),
            InvocationType::File(path) => Mode::File(path@),
        }
    }
}

impl InvocationType {
    /// The script that is run, as it was named on the command line, where a
    /// script is run.
    pub fn script(&self) -> (name: Option<&String>)
        ensures
            match name {
                Some(path) => self@ == Mode::File(path@),
                None => !(self@ is File),
            },
    {
        match self {
            InvocationType::File(path) => Some(path),
            _ => None,
        }
    }
}

/// One reading of the token at the front of the command line.
#[derive(Debug, PartialEq)]
pub enum PythonArg {
    /// A cluster of one-letter flags.
    SingleChars(String),
    /// A flag that begins with two dashes.
    LongArg(String),
    /// `-m`, with the module it names.
    Module(String),
    /// `-c`, with the source text it carries.
    Command(String),
    /// The script to run.
    File(String),
    /// A token that the interpreter itself must reject.
    Error,
}

impl View for PythonArg {
    type V = Token;

    open spec fn view(&self) -> Token {
        match self {
            PythonArg::SingleChars(cluster) => Token::SingleChars(cluster@),
            PythonArg::LongArg(flag) => Token::LongArg(flag@),
            PythonArg::Module(module) => Token::Module(module@),
            PythonArg::Command(source) => Token::Command(source@),
            PythonArg::File(path) => Token::File(path@),
            PythonArg::Error => Token::Error,
        }
    }
}

impl PythonArg {
    /// Whether this token asks the interpreter for its help or version text.
    pub fn shows_banner(&self) -> (shown: bool)
        ensures
            shown == grammar::shows_banner(self@),
    {
        match self {
            PythonArg::SingleChars(cluster) => contains_char(cluster.as_str(), 'h'),
            PythonArg::LongArg(flag) => same_text(flag.as_str(), "--help") || same_text(
                flag.as_str(),
                "--version",
            ),
            _ => false,
        }
    }
}

/// A classified command line.
#[derive(Debug, PartialEq)]
pub struct Rpy {
    /// The tokens that the interpreter consumes, in order.
    pub python_args: Vec<String>,
    /// The tokens that are handed on to the program, in order.
    pub command_args: Vec<String>,
    /// What is to be run.
    pub invocation_type: InvocationType,
    /// Whether the launcher announces itself before it hands over.
    pub print_banner: bool,
}

impl View for Rpy {
    type V = Parsed;

    open spec fn view(&self) -> Parsed {
        Parsed {
            python_args: self.python_args.deep_view(),
            command_args: self.command_args.deep_view(),
            invocation_type: self.invocation_type@,
            print_banner: self.print_banner,
        }
    }
}

/// Appends the tokens of `from` to `out`, in order.
pub(crate) fn append_tokens<'a>(out: &mut Vec<&'a String>, from: &'a Vec<String>)
    ensures
        final(out).deep_view() == old(out).deep_view() + from.deep_view(),
{
    let ghost before = out.deep_view();
    let mut i: usize = 0;
    while i < from.len()
        invariant
            i <= from.len(),
            out.len() == before.len() + i,
            forall|j: int| 0 <= j < before.len() ==> (#[trigger] out[j])@ == before[j],
            forall|j: int| 0 <= j < i ==> (#[trigger] out[before.len() + j])@ == from[j]@,
        decreases from.len() - i,
    {
        out.push(&from[i]);
        i = i + 1;
    }
    proof {
        let joined = before + from.deep_view();
        assert(out.deep_view().len() == joined.len());
        assert forall|j: int| 0 <= j < joined.len() implies out.deep_view()[j] == joined[j] by {
            assert(out.deep_view()[j] == out[j]@);
            if j >= before.len() {
                assert(out[before.len() + (j - before.len())]@ == from[j - before.len()]@);
            }
        }
        assert(out.deep_view() =~= joined);
    }
}

impl Rpy {
    /// Classifies a command line: the tokens up to the one that settles what
    /// is to be run go to the interpreter, the tokens behind it go to the
    /// program, and neither share is reordered.
    pub fn parse(options: Vec<String>) -> (parsed: Rpy)
        ensures
            parsed@ == grammar::classify(options.deep_view()),
            parsed@.python_args + parsed@.command_args == options.deep_view(),
    {
        let ghost args = options.deep_view();
        proof {
            grammar::lemma_round_trip(args);
        }
        let mut python_args = options;
        let total = python_args.len();
        let mut done: usize = 0;
        let mut invocation_type: Option<InvocationType> = None;
        let mut print_banner = false;
        proof {
            grammar::lemma_classify_start(args);
        }
        while invocation_type.is_none() && done < total
            invariant
                python_args.deep_view() == args,
                total == args.len(),
                done <= total,
                match invocation_type {
                    None => grammar::classify(args) == grammar::classify_after(
                        args,
                        done as int,
                        print_banner,
                    ),
                    Some(mode) => grammar::classify(args) == (Parsed {
                        python_args: args.take(done as int),
                        command_args: args.skip(done as int),
                        invocation_type: mode@,
                        print_banner,
                    }),
                },
            decreases total - done,
        {
            let next_arg = if done + 1 < total {
                Some(&python_args[done + 1])
            } else {
                None
            };
            let (token, wanted) = Self::parse_args(&python_args[done], next_arg);
            let used = if wanted > total - done {
                total - done
            } else {
                wanted
            };
            proof {
                let tail = args.skip(done as int);
                assert(tail[0] == python_args[done as int]@);
                assert(grammar::lookahead(tail) == next_arg.deep_view());
                grammar::lemma_classify_step(args, done as int, print_banner);
            }
            match token {
                PythonArg::Module(module) => {
                    invocation_type = Some(InvocationType::Module(module));
                },
                PythonArg::Command(source) => {
                    invocation_type = Some(InvocationType::Command(source));
                },
                PythonArg::File(path) => {
                    invocation_type = Some(InvocationType::File(path));
                },
                PythonArg::SingleChars(_) | PythonArg::LongArg(_) => {
                    print_banner = print_banner || token.shows_banner();
                },
                PythonArg::Error => {
                    invocation_type = Some(InvocationType::Interactive);
                },
            }
            done = done + used;
        }
        proof {
            if invocation_type is None {
                grammar::lemma_classify_done(args, print_banner);
                assert(args.take(done as int) =~= args);
                assert(args.skip(done as int) =~= Seq::empty());
            }
        }
        let command_args = python_args.split_off(done);
        proof {
            assert(python_args.deep_view() =~= args.take(done as int));
            assert(command_args.deep_view() =~= args.skip(done as int));
        }
        let invocation_type = match invocation_type {
            Some(mode) => mode,
            None => InvocationType::Interactive,
        };
        Rpy { python_args, command_args, invocation_type, print_banner }
    }

    /// The configuration file for this launch: the nearest one at or above
    /// the directory of the script, where a script is run, and at or above
    /// the working directory in every other mode.
    pub fn find_toml(&self, fs: &Filesystem) -> (found: Result<String, LaunchError>)
        ensures
            match found {
                Ok(file) => find_config(self@.invocation_type, fs@) == Ok::<Seq<char>, Failure>(
                    file@,
                ),
                Err(failure) => find_config(self@.invocation_type, fs@) == Err::<
                    Seq<char>,
                    Failure,
                >(failure@),
            },
    {
        find_toml(&self.invocation_type, fs)
    }

    /// The command line for the interpreter: its own tokens, then the
    /// program's.
    pub fn make_args(&self) -> (args: Vec<&String>)
        ensures
            args.deep_view() == self.python_args.deep_view() + self.command_args.deep_view(),
    {
        let mut args: Vec<&String> = Vec::new();
        assert(args.deep_view() =~= Seq::empty());
        append_tokens(&mut args, &self.python_args);
        append_tokens(&mut args, &self.command_args);
        assert(Seq::<Seq<char>>::empty() + self.python_args.deep_view()
            =~= self.python_args.deep_view());
        args
    }

    /// How many tokens the long flag `arg` takes up.
    pub fn long_arg_count(arg: &String) -> (count: usize)
        ensures
            count == grammar::long_arg_count(arg@),
    {
        if same_text(arg.as_str(), "--check-hash-based-pycs") {
            2
        } else {
            1
        }
    }

    /// How many tokens the cluster of one-letter flags `arg` takes up.
    pub fn short_arg_count(arg: &String) -> (count: usize)
        ensures
            count == grammar::short_arg_count(arg@),
    {
        let len = arg.as_str().unicode_len();
        if len == 0 {
            return 1;
        }
        let last = arg.as_str().get_char(len - 1);
        if last == 'W' || last == 'X' {
            2
        } else {
            1
        }
    }

    /// The value of `-c` or `-m`: what follows the letter inside `arg`, else
    /// the token behind it.
    fn attached_or_next(arg: &String, len: usize, next_arg: Option<&String>) -> (value: Option<
        (String, usize),
    >)
        requires
            len == arg@.len(),
        ensures
            match value {
                Some((text, count)) => grammar::attached_or_next(arg@, next_arg.deep_view()) == Some(
                    (text@, count as nat),
                ),
                None => grammar::attached_or_next(arg@, next_arg.deep_view()) is None,
            },
    {
        if len > 2 {
            let tail = arg.as_str().substring_char(2, len);
            Some((tail.to_owned(), 1))
        } else {
            match next_arg {
                Some(next) => Some((next.clone(), 2)),
                None => None,
            }
        }
    }

    /// Reads the token `arg`, with `next_arg` the token behind it if there is
    /// one, and says how many tokens the reading takes up.
    pub fn parse_args(arg: &String, next_arg: Option<&String>) -> (reading: (PythonArg, usize))
        ensures
            reading.0@ == grammar::token_of(arg@, next_arg.deep_view()).0,
            reading.1 == grammar::token_of(arg@, next_arg.deep_view()).1,
            1 <= reading.1 <= 2,
    {
        let len = arg.as_str().unicode_len();
        if len == 0 || arg.as_str().get_char(0) != '-' || same_text(arg.as_str(), "-") {
            return (PythonArg::File(arg.clone()), 1);
        }
        proof {
            reveal_strlit("-");
            if len == 1 {
                assert(arg@ =~= "-"@);
            }
        }
        if same_text(arg.as_str(), "--") {
            return (PythonArg::Error, 1);
        }
        let second = arg.as_str().get_char(1);
        if second == '-' {
            (PythonArg::LongArg(arg.clone()), Self::long_arg_count(arg))
        } else if second == 'c' {
            match Self::attached_or_next(arg, len, next_arg) {
                Some((source, count)) => (PythonArg::Command(source), count),
                None => (PythonArg::Error, 1),
            }
        } else if second == 'm' {
            match Self::attached_or_next(arg, len, next_arg) {
                Some((module, count)) => (PythonArg::Module(module), count),
                None => (PythonArg::Error, 1),
            }
        } else {
            (PythonArg::SingleChars(arg.clone()), Self::short_arg_count(arg))
        }
    }
}

} // verus!
