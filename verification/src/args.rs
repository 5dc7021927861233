//! The split of a command line alone, for callers that have no use for the
//! banner.

pub use crate::rpy::InvocationType;

use crate::error::{Failure, LaunchError};
use crate::grammar;
use crate::resolve::{find_config, find_toml, Filesystem};
use crate::rpy::{append_tokens, Rpy};
use vstd::prelude::*;

verus! {

/// A command line, split into the interpreter's share and the program's.
#[derive(Debug, PartialEq)]
pub struct Opts {
    /// The tokens that the interpreter consumes, in order.
    pub python_args: Vec<String>,
    /// The tokens that are handed on to the program, in order.
    pub command_args: Vec<String>,
    /// What is to be run.
    pub invocation_type: InvocationType,
}

impl Opts {
    /// Splits a command line as [`Rpy::parse`] does.
    pub fn parse(options: Vec<String>) -> (opts: Opts)
        ensures
            opts.python_args.deep_view() == grammar::classify(
                options.deep_view(),
            ).python_args,
            opts.command_args.deep_view() == grammar::classify(
                options.deep_view(),
            ).command_args,
            opts.invocation_type@ == grammar::classify(options.deep_view()).invocation_type,
            opts.python_args.deep_view() + opts.command_args.deep_view()
                == options.deep_view(),
    {
        let parsed = Rpy::parse(options);
        Opts {
            python_args: parsed.python_args,
            command_args: parsed.command_args,
            invocation_type: parsed.invocation_type,
        }
    }

    /// The configuration file for this launch, as [`Rpy::find_toml`] finds
    /// it.
    pub fn find_toml(&self, fs: &Filesystem) -> (found: Result<String, LaunchError>)
        ensures
            match found {
                Ok(file) => find_config(self.invocation_type@, fs@) == Ok::<Seq<char>, Failure>(
                    file@,
                ),
                Err(failure) => find_config(self.invocation_type@, fs@) == Err::<
                    Seq<char>,
                    Failure,
                >(failure@),
            },
    {
        find_toml(&self.invocation_type, fs)
    }

    /// The command line for the interpreter: its own tokens, then the
    /// program's.
    pub fn make_args(&self) -> (args: Vec<&String>)
        ensures
            args.deep_view() == self.python_args.deep_view() + self.command_args.deep_view(),
    {
        let mut args: Vec<&String> = Vec::new();
        assert(args.deep_view() =~= Seq::empty());
        append_tokens(&mut args, &self.python_args);
        append_tokens(&mut args, &self.command_args);
        assert(Seq::<Seq<char>>::empty() + self.python_args.deep_view()
            =~= self.python_args.deep_view());
        args
    }
}

} // verus!
