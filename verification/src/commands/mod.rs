//! The subcommands. `read` and `write` hand their work to the `anchorscope`
//! binary: the library plans each invocation as the list of arguments that
//! the binary is given, and starting the process is the caller's part.
//! `search` is the sliding-bisection search.

pub mod read;
pub mod search;
pub mod write;

use vstd::prelude::*;

verus! {

/// The arguments `flag value` when a value is given, none otherwise.
pub open spec fn optional_flag(flag: Seq<char>, value: Option<Seq<char>>) -> Seq<Seq<char>> {
    match value {
        Some(v) => seq![flag, v],
        None => Seq::empty(),
    }
}

/// The arguments with which every invocation of the binary starts: the
/// subcommand alone.
pub fn build_command(subcommand: &str) -> (args: Vec<String>)
    ensures
        args.deep_view() == seq![subcommand@],
{
    let mut args: Vec<String> = Vec::new();
    args.push(subcommand.to_owned());
    proof {
        assert(args.deep_view() =~= seq![subcommand@]);
    }
    args
}

/// Appends `flag value` to `args` when a value is given.
pub fn push_optional_flag(args: &mut Vec<String>, flag: &str, value: Option<&str>)
    ensures
        final(args).deep_view() == old(args).deep_view() + optional_flag(
            flag@,
            value.deep_view(),
        ),
{
    match value {
        Some(v) => {
            push_arg(args, flag);
            push_arg(args, v);
        },
        None => {
            assert(old(args).deep_view() + optional_flag(flag@, value.deep_view()) =~= old(
                args,
            ).deep_view());
        },
    }
}

/// Appends one argument to `args`.
pub fn push_arg(args: &mut Vec<String>, arg: &str)
    ensures
        final(args).deep_view() == old(args).deep_view().push(arg@),
{
    args.push(arg.to_owned());
    proof {
        assert(args.deep_view() =~= old(args).deep_view().push(arg@));
    }
}

} // verus!
