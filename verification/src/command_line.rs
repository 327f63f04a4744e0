//! The command line of the server: which arguments it defines, and their
//! values as clap's parser finds them in the process arguments.
//!
//! The parser itself is clap's and is not verified here. What is verified is
//! that the definitions handed to it are free of the conflicts on which clap
//! aborts, and that the values handed on are the ones the parser matched.

use crate::text::text_of;
use clap::{App, Arg, ArgMatches};
use vstd::prelude::*;

verus! {

/// The name of the program in its help text.
pub const APP_NAME: &'static str = "Execution Engine Server";

/// The name of the socket argument.
pub const ARG_SOCKET: &'static str = "socket";

/// The help text of the socket argument.
pub const ARG_SOCKET_HELP: &'static str = "socket file";

/// The name and long form of the log level option.
pub const ARG_LOG_LEVEL: &'static str = "loglevel";

/// The name of the log level option's value.
pub const ARG_LOG_LEVEL_VALUE: &'static str = "LOGLEVEL";

/// The help text of the log level option.
pub const ARG_LOG_LEVEL_HELP: &'static str = "[ fatal | error | warning | info | debug ]";

/// The name and long form of the data directory option.
pub const ARG_DATA_DIR: &'static str = "data-dir";

/// The short form of the data directory option.
pub const ARG_DATA_DIR_SHORT: &'static str = "d";

/// The name of the data directory option's value.
pub const ARG_DATA_DIR_VALUE: &'static str = "DIR";

/// The help text of the data directory option.
pub const ARG_DATA_DIR_HELP: &'static str = "Sets the data directory";

/// clap's `App`: a parser under construction, holding argument definitions.
#[verifier::external_type_specification]
#[verifier::external_body]
pub struct ExApp<'a, 'b>(App<'a, 'b>) where 'a: 'b;

/// clap's `ArgMatches`: the arguments that a parse matched, with their values.
#[verifier::external_type_specification]
#[verifier::external_body]
pub struct ExArgMatches<'a>(ArgMatches<'a>);

/// clap's `Error`: why a command line was turned down, with the text to show.
#[verifier::external_type_specification]
#[verifier::external_body]
pub struct ExClapError(clap::Error);

/// What the parser reads of one argument definition.
pub ghost struct ArgumentDefinition {
    /// The name under which the value is looked up after parsing.
    pub name: Seq<char>,
    /// The character after a single dash, for an option that has one.
    pub short: Option<char>,
    /// The word after a double dash, for an option.
    pub long: Option<Seq<char>>,
    /// Whether a command line without this argument is turned down.
    pub required: bool,
    /// The position, counted from 1, for an argument given by position.
    pub index: Option<nat>,
}

/// The definitions that an `App` made by `new_parser` holds, as the parser
/// keeps them: first the options, in the order in which they were added, and
/// after them the arguments given by position, by ascending position. The
/// parser keeps no record of when a positional argument was added among the
/// options, and this sequence holds none.
pub uninterp spec fn defined_arguments(app: App<'static, 'static>) -> Seq<ArgumentDefinition>;

/// The arguments that matched with a value, each by its name with the first
/// value it was given, as text.
pub uninterp spec fn matched_values(matches: ArgMatches<'static>) -> Map<Seq<char>, Seq<char>>;

/// What clap's parser makes of process arguments under the given definitions:
/// the matched values, or `None` where it turns the command line down (also
/// when help or the version is asked for).
pub uninterp spec fn parse_outcome(definitions: Seq<ArgumentDefinition>, args: Seq<Seq<char>>) -> Option<Map<Seq<char>, Seq<char>>>;

/// How many of the definitions are given by position.
spec fn positional_count(definitions: Seq<ArgumentDefinition>) -> nat
    decreases definitions.len(),
{
    if definitions.len() == 0 {
        0
    } else {
        positional_count(definitions.drop_last()) + if definitions.last().index is Some {
            1nat
        } else {
            0nat
        }
    }
}

/// No definition has this name yet.
spec fn name_is_free(definitions: Seq<ArgumentDefinition>, name: Seq<char>) -> bool {
    forall|i: int| 0 <= i < definitions.len() ==> (#[trigger] definitions[i]).name != name
}

/// No definition has this long form yet.
spec fn long_is_free(definitions: Seq<ArgumentDefinition>, long: Seq<char>) -> bool {
    forall|i: int| 0 <= i < definitions.len() ==> (#[trigger] definitions[i]).long != Some(long)
}

/// No definition has this short form yet; no short form is always free.
spec fn short_is_free(definitions: Seq<ArgumentDefinition>, short: Option<char>) -> bool {
    short is Some ==> forall|i: int|
        0 <= i < definitions.len() ==> (#[trigger] definitions[i]).short != short
}

/// Every position that is taken lies before this one, so this one is free.
spec fn positions_below(definitions: Seq<ArgumentDefinition>, index: nat) -> bool {
    forall|i: int|
        0 <= i < definitions.len() ==> ((#[trigger] definitions[i]).index matches Some(k) ==> k
            < index)
}

/// The positions are 1, 2, .. without a gap or a repeat, and no required
/// positional argument follows one that is not required.
spec fn positionals_in_order(definitions: Seq<ArgumentDefinition>) -> bool {
    &&& forall|i: int|
        0 <= i < definitions.len() ==> ((#[trigger] definitions[i]).index matches Some(k) ==> 1 <= k
            <= positional_count(definitions))
    &&& forall|i: int, j: int|
        0 <= i < definitions.len() && 0 <= j < definitions.len() && i != j && (
        #[trigger] definitions[i]).index is Some ==> definitions[i].index != (
        #[trigger] definitions[j]).index
    &&& forall|i: int, j: int|
        0 <= i < definitions.len() && 0 <= j < definitions.len() ==> ((
        #[trigger] definitions[i]).index matches Some(a) && (
        #[trigger] definitions[j]).index matches Some(b) && a < b && definitions[j].required
            ==> definitions[i].required)
}

/// The short form that clap keeps of the text given for it: its first
/// character, none for an empty text.
spec fn short_form(text: Seq<char>) -> Option<char> {
    if text.len() == 0 {
        None
    } else {
        Some(text[0])
    }
}

/// The text does not begin with a dash, which clap would strip.
spec fn no_leading_dash(text: Seq<char>) -> bool {
    text.len() == 0 || text[0] != '-'
}

/// Calls `App::new`: a parser with the given program name and no argument
/// definition of its own.
#[verifier::external_body]
fn new_parser(name: &'static str) -> (app: App<'static, 'static>)
    ensures
        defined_arguments(app) == Seq::<ArgumentDefinition>::empty(),
{
    App::new(name)
}

/// Calls `App::arg` with an `Arg` made by `Arg::with_name`, `short`, `long`,
/// `value_name`, `help`, `takes_value(true)` and `required`: an option that
/// takes one value. Where debug assertions are on, clap panics on a name,
/// long form or short form that is already in use, and on a positional
/// argument that sits where the next one without a position would go;
/// `requires` leaves those out. An empty `short` gives the option no
/// short form. Options are added only while no positional argument is
/// defined: the option is then the last of the options, and so the last of
/// all that the parser holds.
#[verifier::external_body]
fn with_option(
    app: App<'static, 'static>,
    name: &'static str,
    short: &'static str,
    long: &'static str,
    value_name: &'static str,
    help: &'static str,
    required: bool,
) -> (extended: App<'static, 'static>)
    requires
        no_leading_dash(short@),
        long@.len() > 0,
        no_leading_dash(long@),
        name_is_free(defined_arguments(app), name@),
        long_is_free(defined_arguments(app), long@),
        short_is_free(defined_arguments(app), short_form(short@)),
        positional_count(defined_arguments(app)) == 0,
    ensures
        defined_arguments(extended) == defined_arguments(app).push(
            ArgumentDefinition {
                name: name@,
                short: short_form(short@),
                long: Some(long@),
                required,
                index: None,
            },
        ),
{
    app.arg(
        Arg::with_name(name).short(short).long(long).value_name(value_name).help(help).takes_value(
            true,
        ).required(required),
    )
}

/// Calls `App::arg` with an `Arg` made by `Arg::with_name`, `help`, `index`
/// and `required`: an argument given by position. Where debug assertions are
/// on, clap panics on a name or a position that is already in use, and it
/// reserves room for every position up to this one; `requires` leaves those
/// out and bounds the position. The position is the one after those already
/// defined: the argument is then the last by position, and so the last of
/// all that the parser holds.
#[verifier::external_body]
fn with_positional(
    app: App<'static, 'static>,
    name: &'static str,
    help: &'static str,
    index: u64,
    required: bool,
) -> (extended: App<'static, 'static>)
    requires
        index == positional_count(defined_arguments(app)) + 1,
        index <= defined_arguments(app).len() + 1,
        name_is_free(defined_arguments(app), name@),
        positions_below(defined_arguments(app), index as nat),
    ensures
        defined_arguments(extended) == defined_arguments(app).push(
            ArgumentDefinition {
                name: name@,
                short: None,
                long: None,
                required,
                index: Some(index as nat),
            },
        ),
{
    app.arg(Arg::with_name(name).help(help).index(index).required(required))
}

/// Calls `App::get_matches_from_safe`, which parses without reading the
/// environment, printing or exiting. The first of `args` is taken as the
/// program's name. Whether the command line is accepted, and the values
/// matched, depend on the definitions and on `args` alone. Where debug
/// assertions are on, clap panics on positions with a gap and on a required
/// positional argument after one that is not required; `requires` leaves
/// those out.
#[verifier::external_body]
fn parse(app: App<'static, 'static>, args: &Vec<String>) -> (outcome: Result<
    ArgMatches<'static>,
    clap::Error,
>)
    requires
        positionals_in_order(defined_arguments(app)),
    ensures
        match outcome {
            Ok(matches) => parse_outcome(defined_arguments(app), args.deep_view()) == Some(
                matched_values(matches),
            ),
            Err(_) => parse_outcome(defined_arguments(app), args.deep_view()) is None,
        },
{
    app.get_matches_from_safe(args)
}

/// Calls `ArgMatches::value_of_lossy`: the first value of the argument of
/// that name, or `None` where it did not match with a value. On values that
/// are valid UTF-8, as all that come from strings are, it gives what
/// `ArgMatches::value_of` gives, and unlike that it panics on no value.
#[verifier::external_body]
fn first_value(matches: &ArgMatches<'static>, name: &str) -> (value: Option<String>)
    ensures
        match value {
            Some(text) => matched_values(*matches).contains_key(name@) && matched_values(
                *matches,
            )[name@] == text@,
            None => !matched_values(*matches).contains_key(name@),
        },
{
    match matches.value_of_lossy(name) {
        Some(text) => Some(text.into_owned()),
        None => None,
    }
}

/// The values of the three arguments as the parser matched them, before any
/// of the server's own rules is applied.
pub struct Arguments {
    /// The positional socket path.
    pub socket: Option<String>,
    /// The token after `--loglevel`.
    pub log_level: Option<String>,
    /// The directory after `-d` or `--data-dir`.
    pub data_dir: Option<String>,
}

/// The value matched under a name, if any.
pub open spec fn value_at(values: Map<Seq<char>, Seq<char>>, name: Seq<char>) -> Option<
    Seq<char>,
> {
    if values.contains_key(name) {
        Some(values[name])
    } else {
        None
    }
}

/// The required option `--loglevel <LOGLEVEL>`.
pub open spec fn log_level_definition() -> ArgumentDefinition {
    ArgumentDefinition {
        name: ARG_LOG_LEVEL@,
        short: None,
        long: Some(ARG_LOG_LEVEL@),
        required: true,
        index: None,
    }
}

/// The optional option `-d <DIR>`, `--data-dir <DIR>`.
pub open spec fn data_dir_definition() -> ArgumentDefinition {
    ArgumentDefinition {
        name: ARG_DATA_DIR@,
        short: Some('d'),
        long: Some(ARG_DATA_DIR@),
        required: false,
        index: None,
    }
}

/// The required socket path, the first argument given by position.
pub open spec fn socket_definition() -> ArgumentDefinition {
    ArgumentDefinition {
        name: ARG_SOCKET@,
        short: None,
        long: None,
        required: true,
        index: Some(1),
    }
}

/// The server's command line: the log level, the data directory and the
/// socket, and nothing else.
pub open spec fn command_line() -> Seq<ArgumentDefinition> {
    seq![log_level_definition(), data_dir_definition(), socket_definition()]
}

/// What the literals used for the definitions hold.
proof fn lemma_definition_texts()
    ensures
        "loglevel"@.len() == 8,
        "loglevel"@[0] == 'l',
        "data-dir"@.len() == 8,
        "data-dir"@[0] == 'd',
        "socket"@.len() == 6,
        "d"@.len() == 1,
        "d"@[0] == 'd',
        ""@.len() == 0,
{
    reveal_strlit("loglevel");
    reveal_strlit("data-dir");
    reveal_strlit("socket");
    reveal_strlit("d");
    reveal_strlit("");
}

/// Parses the process arguments, the program's name first, against the
/// server's command line. The result is `Ok` exactly where clap's parser
/// accepts them, and then holds, for each of the three arguments, the value
/// that the parser matched.
pub fn get_args(args: &Vec<String>) -> (outcome: Result<Arguments, clap::Error>)
    ensures
        match parse_outcome(command_line(), args.deep_view()) {
            Some(values) => outcome matches Ok(arguments) && text_of(arguments.socket) == value_at(
                values,
                ARG_SOCKET@,
            ) && text_of(arguments.log_level) == value_at(values, ARG_LOG_LEVEL@) && text_of(
                arguments.data_dir,
            ) == value_at(values, ARG_DATA_DIR@),
            None => outcome is Err,
        },
{
    proof {
        lemma_definition_texts();
        reveal_with_fuel(positional_count, 4);
    }
    let app = new_parser(APP_NAME);
    let app = with_option(
        app,
        ARG_LOG_LEVEL,
        "",
        ARG_LOG_LEVEL,
        ARG_LOG_LEVEL_VALUE,
        ARG_LOG_LEVEL_HELP,
        true,
    );
    let app = with_option(
        app,
        ARG_DATA_DIR,
        ARG_DATA_DIR_SHORT,
        ARG_DATA_DIR,
        ARG_DATA_DIR_VALUE,
        ARG_DATA_DIR_HELP,
        false,
    );
    let app = with_positional(app, ARG_SOCKET, ARG_SOCKET_HELP, 1, true);
    proof {
        assert(defined_arguments(app) =~= command_line());
    }
    match parse(app, args) {
        Ok(matches) => Ok(
            Arguments {
                socket: first_value(&matches, ARG_SOCKET),
                log_level: first_value(&matches, ARG_LOG_LEVEL),
                data_dir: first_value(&matches, ARG_DATA_DIR),
            },
        ),
        Err(error) => Err(error),
    }
}

} // verus!
