//! The argument grammar, as mathematics.
//!
//! A command line is a sequence of tokens and a token is a sequence of
//! characters. [`token_of`] reads one token the way the interpreter would,
//! and [`classify`] reads a whole command line from left to right until it
//! knows what is to be run. The executable classifier is specified against
//! these two functions, and the laws at the end of the file are proved of
//! them.

use vstd::prelude::*;

verus! {

/// What is to be run.
pub enum Mode {
    /// Nothing was named: the interpreter starts its prompt.
    Interactive,
    /// A module, by its dotted name.
    Module(Seq<char>),
    /// Source text given on the command line.
    Command(Seq<char>),
    /// A script, by its path.
    File(Seq<char>),
}

/// One reading of the token at the front of the command line.
pub enum Token {
    /// A cluster of one-letter flags, such as `-i` or `-iX`.
    SingleChars(Seq<char>),
    /// A flag that begins with two dashes.
    LongArg(Seq<char>),
    /// `-m`, with the module it names.
    Module(Seq<char>),
    /// `-c`, with the source text it carries.
    Command(Seq<char>),
    /// The script to run.
    File(Seq<char>),
    /// A token that the interpreter itself must reject.
    Error,
}

/// A classified command line.
pub struct Parsed {
    /// The tokens that the interpreter consumes, in order.
    pub python_args: Seq<Seq<char>>,
    /// The tokens that are handed on to the program, in order.
    pub command_args: Seq<Seq<char>>,
    /// What is to be run.
    pub invocation_type: Mode,
    /// Whether the launcher announces itself before it hands over.
    pub print_banner: bool,
}

/// A script path: any token that does not begin with a dash, and the lone
/// dash, which stands for standard input.
pub open spec fn names_file(arg: Seq<char>) -> bool {
    arg.len() == 0 || arg[0] != '-' || arg == "-"@
}

/// The long flags that are followed by a value token.
pub open spec fn long_flag_takes_value(flag: Seq<char>) -> bool {
    flag == "--check-hash-based-pycs"@
}

/// The letters that, at the end of a cluster, are followed by a value token.
pub open spec fn short_flag_takes_value(letter: char) -> bool {
    letter == 'W' || letter == 'X'
}

/// The long flags on which the launcher announces itself.
pub open spec fn long_flag_shows_banner(flag: Seq<char>) -> bool {
    flag == "--help"@ || flag == "--version"@
}

/// How many tokens a long flag takes up.
pub open spec fn long_arg_count(flag: Seq<char>) -> nat {
    if long_flag_takes_value(flag) {
        2
    } else {
        1
    }
}

/// How many tokens a cluster of one-letter flags takes up.
pub open spec fn short_arg_count(cluster: Seq<char>) -> nat {
    if cluster.len() > 0 && short_flag_takes_value(cluster.last()) {
        2
    } else {
        1
    }
}

/// The value of `-c` or `-m` and the number of tokens it takes up: what
/// follows the letter in the same token, else the next token. `None` when
/// there is neither.
pub open spec fn attached_or_next(arg: Seq<char>, next: Option<Seq<char>>) -> Option<
    (Seq<char>, nat),
> {
    if arg.len() > 2 {
        Some((arg.skip(2), 1))
    } else {
        match next {
            Some(value) => Some((value, 2)),
            None => None,
        }
    }
}

/// Reads the token `arg`, with `next` the token behind it if there is one.
/// The number says how many tokens the reading takes up, one or two.
pub open spec fn token_of(arg: Seq<char>, next: Option<Seq<char>>) -> (Token, nat) {
    if names_file(arg) {
        (Token::File(arg), 1)
    } else if arg == "--"@ {
        (Token::Error, 1)
    } else if arg[1] == '-' {
        (Token::LongArg(arg), long_arg_count(arg))
    } else if arg[1] == 'c' {
        match attached_or_next(arg, next) {
            Some((source, count)) => (Token::Command(source), count),
            None => (Token::Error, 1),
        }
    } else if arg[1] == 'm' {
        match attached_or_next(arg, next) {
            Some((module, count)) => (Token::Module(module), count),
            None => (Token::Error, 1),
        }
    } else {
        (Token::SingleChars(arg), short_arg_count(arg))
    }
}

/// The mode that a token settles. A flag settles none; a token that the
/// interpreter must reject leaves it to the interpreter to say so.
pub open spec fn settles(token: Token) -> Option<Mode> {
    match token {
        Token::Module(module) => Some(Mode::Module(module)),
        Token::Command(source) => Some(Mode::Command(source)),
        Token::File(path) => Some(Mode::File(path)),
        Token::Error => Some(Mode::Interactive),
        Token::SingleChars(_) => None,
        Token::LongArg(_) => None,
    }
}

/// Whether a token asks the interpreter for its help or version text.
pub open spec fn shows_banner(token: Token) -> bool {
    match token {
        Token::SingleChars(cluster) => cluster.contains('h'),
        Token::LongArg(flag) => long_flag_shows_banner(flag),
        _ => false,
    }
}

/// The token behind the first one.
pub open spec fn lookahead(args: Seq<Seq<char>>) -> Option<Seq<char>> {
    if args.len() > 1 {
        Some(args[1])
    } else {
        None
    }
}

/// How many tokens the reading at the front of `args` takes up: as many as
/// the token asks for, as far as they are there. A flag that wants a value
/// and stands last takes up itself alone.
pub open spec fn consumed(args: Seq<Seq<char>>) -> int
    recommends
        args.len() > 0,
{
    if token_of(args[0], lookahead(args)).1 >= 2 && args.len() >= 2 {
        2
    } else {
        1
    }
}

/// Classifies a command line. Tokens are read from the left and go to the
/// interpreter until one of them settles the mode; the tokens behind it go
/// to the program untouched. Only tokens read before the mode is settled
/// can raise the banner.
pub open spec fn classify(args: Seq<Seq<char>>) -> Parsed
    decreases args.len(),
{
    if args.len() == 0 {
        Parsed {
            python_args: Seq::empty(),
            command_args: Seq::empty(),
            invocation_type: Mode::Interactive,
            print_banner: false,
        }
    } else {
        let token = token_of(args[0], lookahead(args)).0;
        let used = consumed(args);
        match settles(token) {
            Some(mode) => Parsed {
                python_args: args.take(used),
                command_args: args.skip(used),
                invocation_type: mode,
                print_banner: false,
            },
            None => {
                let rest = classify(args.skip(used));
                Parsed {
                    python_args: args.take(used) + rest.python_args,
                    command_args: rest.command_args,
                    invocation_type: rest.invocation_type,
                    print_banner: shows_banner(token) || rest.print_banner,
                }
            },
        }
    }
}

/// The classification of `args` when its first `done` tokens were read as
/// flags, of which one raised the banner if `banner` holds.
pub open spec fn classify_after(args: Seq<Seq<char>>, done: int, banner: bool) -> Parsed
    recommends
        0 <= done <= args.len(),
{
    let rest = classify(args.skip(done));
    Parsed {
        python_args: args.take(done) + rest.python_args,
        command_args: rest.command_args,
        invocation_type: rest.invocation_type,
        print_banner: banner || rest.print_banner,
    }
}

/// Nothing is read yet: the classification is still to be made in full.
pub proof fn lemma_classify_start(args: Seq<Seq<char>>)
    ensures
        classify_after(args, 0, false) == classify(args),
{
    assert(args.skip(0) =~= args);
    assert(args.take(0) + classify(args).python_args =~= classify(args).python_args);
}

/// Reading on from `done` tokens: where the next token is a flag, the
/// classification is that after the flag; where it settles the mode, the
/// command line is cut behind it.
pub proof fn lemma_classify_step(args: Seq<Seq<char>>, done: int, banner: bool)
    requires
        0 <= done < args.len(),
    ensures
        ({
            let tail = args.skip(done);
            let token = token_of(tail[0], lookahead(tail)).0;
            let used = consumed(tail);
            &&& 1 <= used <= 2
            &&& done + used <= args.len()
            &&& match settles(token) {
                Some(mode) => classify_after(args, done, banner) == (Parsed {
                    python_args: args.take(done + used),
                    command_args: args.skip(done + used),
                    invocation_type: mode,
                    print_banner: banner,
                }),
                None => classify_after(args, done, banner) == classify_after(
                    args,
                    done + used,
                    banner || shows_banner(token),
                ),
            }
        }),
{
    let tail = args.skip(done);
    let used = consumed(tail);
    assert(args.take(done) + tail.take(used) =~= args.take(done + used));
    assert(tail.skip(used) =~= args.skip(done + used));
    let rest = classify(tail.skip(used));
    assert((args.take(done) + tail.take(used)) + rest.python_args
        =~= args.take(done) + (tail.take(used) + rest.python_args));
}

/// Nothing is left to read: the whole command line went to the interpreter.
pub proof fn lemma_classify_done(args: Seq<Seq<char>>, banner: bool)
    ensures
        classify_after(args, args.len() as int, banner) == (Parsed {
            python_args: args,
            command_args: Seq::empty(),
            invocation_type: Mode::Interactive,
            print_banner: banner,
        }),
{
    let n = args.len() as int;
    assert(args.skip(n) =~= Seq::empty());
    assert(args.take(n) + Seq::<Seq<char>>::empty() =~= args);
}

/// Classification loses nothing and moves nothing: the interpreter's tokens
/// followed by the program's tokens are the command line as it was given.
pub proof fn lemma_round_trip(args: Seq<Seq<char>>)
    ensures
        classify(args).python_args + classify(args).command_args == args,
    decreases args.len(),
{
    if args.len() > 0 {
        let token = token_of(args[0], lookahead(args)).0;
        let used = consumed(args);
        if settles(token) is None {
            let rest = classify(args.skip(used));
            lemma_round_trip(args.skip(used));
            assert((args.take(used) + rest.python_args) + rest.command_args
                =~= args.take(used) + (rest.python_args + rest.command_args));
        }
        assert(args.take(used) + args.skip(used) =~= args);
    } else {
        assert(Seq::<Seq<char>>::empty() + Seq::<Seq<char>>::empty() =~= args);
    }
}

/// A lone token that is not empty and does not begin with a dash is the
/// script: it goes to the interpreter, and nothing goes to the program.
pub proof fn lemma_single_name_is_file(name: Seq<char>)
    requires
        name.len() > 0,
        name[0] != '-',
    ensures
        classify(seq![name]) == (Parsed {
            python_args: seq![name],
            command_args: Seq::empty(),
            invocation_type: Mode::File(name),
            print_banner: false,
        }),
{
    let args = seq![name];
    assert(args.take(1) =~= args);
    assert(args.skip(1) =~= Seq::empty());
}

/// Once a module, a command or a script is settled, the tokens behind it
/// are never read: put any other tokens in their place, and the
/// interpreter's tokens, the mode and the banner stay as they are.
pub proof fn lemma_program_tokens_unread(args: Seq<Seq<char>>, other: Seq<Seq<char>>)
    requires
        classify(args).invocation_type != Mode::Interactive,
    ensures
        classify(classify(args).python_args + other) == (Parsed {
            python_args: classify(args).python_args,
            command_args: other,
            invocation_type: classify(args).invocation_type,
            print_banner: classify(args).print_banner,
        }),
    decreases args.len(),
{
    if args.len() > 0 {
        let token = token_of(args[0], lookahead(args)).0;
        let used = consumed(args);
        let front = classify(args).python_args;
        let swapped = front + other;
        match settles(token) {
            Some(mode) => {
                lemma_token_needs_lookahead(args[0], lookahead(args), lookahead(swapped));
                assert(swapped.take(used) =~= front);
                assert(swapped.skip(used) =~= other);
            },
            None => {
                let rest = classify(args.skip(used));
                lemma_program_tokens_unread(args.skip(used), other);
                lemma_settled_takes_tokens(args.skip(used));
                lemma_flag_ignores_lookahead(args[0], lookahead(args), lookahead(swapped));
                assert(swapped.take(used) =~= args.take(used));
                assert(swapped.skip(used) =~= rest.python_args + other);
            },
        }
    }
}

/// Where a script is run, its path is the last of the interpreter's tokens:
/// on the command line that the interpreter gets it stands directly before
/// the program's tokens.
pub proof fn lemma_script_precedes_program(args: Seq<Seq<char>>)
    requires
        classify(args).invocation_type is File,
    ensures
        classify(args).python_args.len() > 0,
        classify(args).invocation_type == Mode::File(classify(args).python_args.last()),
    decreases args.len(),
{
    if args.len() > 0 {
        let token = token_of(args[0], lookahead(args)).0;
        let used = consumed(args);
        if settles(token) is None {
            lemma_script_precedes_program(args.skip(used));
        }
    }
}

/// A reading that settles a module, a command or a script takes up at least
/// one token.
pub proof fn lemma_settled_takes_tokens(args: Seq<Seq<char>>)
    requires
        classify(args).invocation_type != Mode::Interactive,
    ensures
        classify(args).python_args.len() > 0,
{
}

/// Whether a token is a flag, and which, does not depend on the token
/// behind it.
pub proof fn lemma_flag_ignores_lookahead(
    arg: Seq<char>,
    next: Option<Seq<char>>,
    other: Option<Seq<char>>,
)
    requires
        settles(token_of(arg, next).0) is None,
    ensures
        token_of(arg, other) == token_of(arg, next),
{
}

/// A token reads the one behind it only to take it as its value: with the
/// same value behind it, or with none needed, the reading is the same.
pub proof fn lemma_token_needs_lookahead(
    arg: Seq<char>,
    next: Option<Seq<char>>,
    other: Option<Seq<char>>,
)
    requires
        token_of(arg, next).1 == 2 ==> other == next,
        settles(token_of(arg, next).0) is Some,
        settles(token_of(arg, next).0) != Some(Mode::Interactive),
    ensures
        token_of(arg, other) == token_of(arg, next),
{
}

} // verus!
