//! The command-line collaborator: declaring the argument grammar and
//! parsing the argument tokens through `clap`.
//!
//! The library does not interpret flag syntax itself; it declares one
//! `--name` flag (plus an optional one-letter short flag) per projected
//! field, hands the tokens to `clap`, and reads the received strings back
//! through a small trusted surface.  A `clap::Command` is modelled by the
//! ordered list of arguments it declares; what parsing yields for a
//! declared grammar and a token vector is a function of the two alone and
//! is given a name, `cli_parse_model`, so that the pipeline's contracts
//! can speak of the parse of the actual arguments.

use vstd::prelude::*;

verus! {

#[verifier::external_type_specification]
#[verifier::external_body]
pub struct ExClapCommand(clap::Command);

#[verifier::external_type_specification]
#[verifier::external_body]
pub struct ExClapArg(clap::Arg);

#[verifier::external_type_specification]
#[verifier::external_body]
pub struct ExClapArgMatches(clap::ArgMatches);

/// The identifier a built argument declares.
pub uninterp spec fn arg_id(a: clap::Arg) -> Seq<char>;

/// The short flag a built argument declares.
pub uninterp spec fn arg_short(a: clap::Arg) -> Option<char>;

/// The arguments a command declares, in the order they were added: each
/// with its identifier and its short flag.
pub uninterp spec fn cmd_args_list(c: clap::Command) -> Seq<(Seq<char>, Option<char>)>;

/// The command was built through this module's wrappers with pairwise
/// distinct identifiers, long flags and short flags, so parsing it cannot
/// trip the builder's internal conflict checks, and its parse outcome is
/// fixed by its declared argument list.
pub uninterp spec fn cmd_ok(c: clap::Command) -> bool;

/// The declared argument list that a parsed `clap::ArgMatches` came from.
pub uninterp spec fn matches_decl(m: clap::ArgMatches) -> Seq<(Seq<char>, Option<char>)>;

/// The string value that parsed matches hold for an argument identifier.
pub uninterp spec fn matches_value(m: clap::ArgMatches, id: Seq<char>) -> Option<Seq<char>>;

/// What `clap::Command::try_get_matches_from` yields for a declared
/// grammar (the ordered list of value-taking `--name`/short flags that
/// this module's wrappers build) and a token vector whose first token is
/// the binary name: one received string or nothing per declared argument,
/// in declaration order — or no answer at all when the grammar rejects
/// the tokens.  The outcome is a function of the grammar and the tokens
/// alone.
pub uninterp spec fn cli_parse_model(
    decl: Seq<(Seq<char>, Option<char>)>,
    args: Seq<Seq<char>>,
) -> Option<Seq<Option<Seq<char>>>>;

/// Relies on `clap::Command::new`, `Command::disable_help_flag` and
/// `Command::disable_version_flag`: a fresh command declares no arguments
/// once both automatic flags are disabled, so the declared arguments are
/// exactly what `cmd_arg` adds.  The builder would otherwise inject a
/// `-V`/`--version` argument into every command, which asserts at parse
/// time when no version string is set, and would collide with a declared
/// field of that name or short flag.
#[verifier::external_body]
pub(crate) fn cmd_new(name: &str) -> (c: clap::Command)
    ensures
        cmd_ok(c),
        cmd_args_list(c) == Seq::<(Seq<char>, Option<char>)>::empty(),
{
    clap::Command::new(name.to_string()).disable_help_flag(true).disable_version_flag(true)
}

/// Relies on `clap::Arg::new` and `Arg::long`: one argument that takes a
/// value, whose identifier and long flag are both the given name — kept
/// equal so that distinct identifiers give distinct long flags.  A name
/// with a leading `-` is excluded: the builder strips it from the long
/// flag, which could fuse two distinct identifiers into one flag.
#[verifier::external_body]
pub(crate) fn arg_flag(name: &str) -> (a: clap::Arg)
    requires
        name@.len() > 0,
        name@[0] != '-',
    ensures
        arg_id(a) == name@,
        arg_short(a) == None::<char>,
{
    clap::Arg::new(name.to_string()).long(name.to_string())
}

/// Relies on `clap::Arg::short`; the builder rejects `-`, which the
/// precondition excludes.
#[verifier::external_body]
pub(crate) fn arg_with_short(a: clap::Arg, s: char) -> (r: clap::Arg)
    requires
        s != '-',
    ensures
        arg_id(r) == arg_id(a),
        arg_short(r) == Some(s),
{
    a.short(s)
}

/// Relies on `clap::Command::arg`: it appends one argument to the
/// command's declared list.  The preconditions keep identifiers, long
/// flags and short flags pairwise distinct, so parsing cannot trip the
/// builder's conflict checks.
#[verifier::external_body]
pub(crate) fn cmd_arg(c: clap::Command, a: clap::Arg) -> (r: clap::Command)
    requires
        cmd_ok(c),
        arg_id(a).len() > 0,
        arg_id(a)[0] != '-',
        forall|k: int|
            0 <= k < cmd_args_list(c).len() ==> (#[trigger] cmd_args_list(c)[k]).0 != arg_id(a),
        arg_short(a) matches Some(s) ==> forall|k: int|
            0 <= k < cmd_args_list(c).len() ==> (#[trigger] cmd_args_list(c)[k]).1 != Some(s),
    ensures
        cmd_ok(r),
        cmd_args_list(r) == cmd_args_list(c).push((arg_id(a), arg_short(a))),
{
    c.arg(a)
}

/// Relies on `clap::Command::try_get_matches_from`: parse the argument
/// tokens against the declared grammar (the first token is the binary
/// name).  It succeeds exactly when the grammar accepts the tokens —
/// `cli_parse_model` names that outcome — and the matches then hold, for
/// each declared argument, exactly the model's received string.  On
/// failure the rendered usage/error text is returned; its wording is not
/// modelled.
#[verifier::external_body]
pub(crate) fn cmd_try_parse(c: clap::Command, args: Vec<String>) -> (r: Result<
    clap::ArgMatches,
    String,
>)
    requires
        cmd_ok(c),
    ensures
        (r is Ok) == (cli_parse_model(cmd_args_list(c), args.deep_view()) is Some),
        r matches Ok(m) ==> {
            &&& matches_decl(m) == cmd_args_list(c)
            &&& cli_parse_model(cmd_args_list(c), args.deep_view())->Some_0.len()
                == cmd_args_list(c).len()
            &&& forall|k: int|
                0 <= k < cmd_args_list(c).len() ==> matches_value(
                    m,
                    (#[trigger] cmd_args_list(c)[k]).0,
                ) == cli_parse_model(cmd_args_list(c), args.deep_view())->Some_0[k]
        },
{
    c.try_get_matches_from(args).map_err(|e| e.to_string())
}

/// Relies on `clap::ArgMatches::get_one::<String>`: the string an
/// argument received, a pure function of the parsed matches and the
/// identifier.  It panics on an identifier the grammar never declared,
/// which the precondition excludes; arguments declared by this module's
/// wrappers store plain strings, so the typed read cannot fail.
#[verifier::external_body]
pub(crate) fn matches_get(m: &clap::ArgMatches, id: &str) -> (r: Option<String>)
    requires
        exists|k: int|
            0 <= k < matches_decl(*m).len() && (#[trigger] matches_decl(*m)[k]).0 == id@,
    ensures
        r.deep_view() == matches_value(*m, id@),
{
    m.get_one::<String>(id).cloned()
}

} // verus!
