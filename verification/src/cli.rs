//! The command line's vocabulary: the targets that can be selected and the
//! commands that can be given.

use vstd::prelude::*;
use crate::model::agrees;
use crate::text::{find_char, first_index_of, starts_with, str_eq, trim, trimmed};

verus! {

/// The ORM whose source text is emitted.
#[derive(Clone, Copy, Debug, PartialEq, Eq, Structural)]
pub enum OrmType {
    /// Table declarations with read and insert structs.
    Diesel,
    /// One self-contained entity model per type.
    SeaOrm,
}

impl Default for OrmType {
    fn default() -> (orm: Self)
        ensures
            orm == OrmType::Diesel,
    {
        OrmType::Diesel
    }
}

/// The storage engine whose types and DDL are targeted.
#[derive(Clone, Copy, Debug, PartialEq, Eq, Structural)]
pub enum DatabaseType {
    /// File-based engine with integer keys.
    Sqlite,
    /// Engine with native UUID keys.
    Postgres,
    /// Engine with unsigned integer keys.
    Mysql,
}

impl Default for DatabaseType {
    fn default() -> (db: Self)
        ensures
            db == DatabaseType::Sqlite,
    {
        DatabaseType::Sqlite
    }
}

/// A command of the command line.
#[derive(Debug)]
pub enum Commands {
    /// Starts a project: fetches the schema, saves the settings, generates.
    Init {
        /// The GraphQL endpoint.
        url: String,
        /// The ORM to emit for.
        orm: OrmType,
        /// The storage engine to emit for.
        db: DatabaseType,
        /// The directory that receives the artifacts.
        output: String,
        /// Headers to send to the endpoint: name and value.
        headers: Vec<(String, String)>,
    },
    /// Generates from saved settings.
    Generate {
        /// The settings file; found by itself if absent.
        config: Option<String>,
        /// The output directory, overriding the settings.
        output: Option<String>,
    },
}

/// The command line: a command, if any, and how talkative to be.
#[derive(Debug)]
pub struct Cli {
    pub command: Option<Commands>,
    pub verbose: u8,
}

/// Model of a `Commands`.
pub enum CommandsView {
    Init {
        url: Seq<char>,
        orm: OrmType,
        db: DatabaseType,
        output: Seq<char>,
        headers: Seq<(Seq<char>, Seq<char>)>,
    },
    Generate { config: Option<Seq<char>>, output: Option<Seq<char>> },
}

impl DeepView for Commands {
    type V = CommandsView;

    open spec fn deep_view(&self) -> CommandsView {
        match self {
            Commands::Init { url, orm, db, output, headers } => CommandsView::Init {
                url: url@,
                orm: *orm,
                db: *db,
                output: output@,
                headers: headers.deep_view(),
            },
            Commands::Generate { config, output } => CommandsView::Generate {
                config: config.deep_view(),
                output: output.deep_view(),
            },
        }
    }
}

impl View for Commands {
    type V = CommandsView;

    open spec fn view(&self) -> CommandsView {
        self.deep_view()
    }
}

/// Model of a `Cli`.
pub struct CliView {
    pub command: Option<CommandsView>,
    pub verbose: u8,
}

impl DeepView for Cli {
    type V = CliView;

    open spec fn deep_view(&self) -> CliView {
        CliView { command: self.command.deep_view(), verbose: self.verbose }
    }
}

impl View for Cli {
    type V = CliView;

    open spec fn view(&self) -> CliView {
        self.deep_view()
    }
}

/// The header that a `key:value` argument stands for: what is before the
/// first colon and what is after it, both without surrounding whitespace
/// and neither empty.
pub open spec fn header_of(s: Seq<char>) -> Option<(Seq<char>, Seq<char>)> {
    let colon = first_index_of(s, ':') as int;
    if colon < s.len() && trimmed(s.subrange(0, colon)).len() > 0 && trimmed(
        s.subrange(colon + 1, s.len() as int),
    ).len() > 0 {
        Some((trimmed(s.subrange(0, colon)), trimmed(s.subrange(colon + 1, s.len() as int))))
    } else {
        None
    }
}

/// Why a `key:value` argument is no header.
pub open spec fn header_error(s: Seq<char>) -> Seq<char> {
    let colon = first_index_of(s, ':') as int;
    if colon >= s.len() {
        "Invalid header format '"@ + s
            + "'. Headers must be in 'key:value' format.\nExample: --header 'Authorization:Bearer token123'"@
    } else if trimmed(s.subrange(0, colon)).len() == 0 {
        "Header key cannot be empty. Format: 'key:value'"@
    } else {
        "Header value cannot be empty. Format: 'key:value'"@
    }
}

/// Parses a header given as `key:value`.
pub fn parse_header(s: &str) -> (header: Result<(String, String), String>)
    ensures
        match header {
            Ok(pair) => header_of(s@) == Some(pair.deep_view()),
            Err(message) => header_of(s@).is_none() && message@ == header_error(s@),
        },
{
    let n: usize = s.unicode_len();
    let colon: usize = find_char(s, ':');
    if colon >= n {
        let mut message = String::from_str("Invalid header format '");
        message.append(s);
        message.append(
            "'. Headers must be in 'key:value' format.\nExample: --header 'Authorization:Bearer token123'",
        );
        return Err(message);
    }
    let key = trim(s.substring_char(0, colon));
    let value = trim(s.substring_char(colon + 1, n));
    if key.unicode_len() == 0 {
        return Err(String::from_str("Header key cannot be empty. Format: 'key:value'"));
    }
    if value.unicode_len() == 0 {
        return Err(String::from_str("Header value cannot be empty. Format: 'key:value'"));
    }
    Ok((String::from_str(key), String::from_str(value)))
}

/// Why a command line was not accepted.
#[derive(Debug)]
pub enum CliError {
    /// Help was asked for.
    HelpRequested,
    /// The version was asked for.
    VersionRequested,
    /// An argument that is neither a known option nor a known command.
    UnknownArgument(String),
    /// An option that needs a value and has none.
    MissingValue(String),
    /// An option that takes one value and is given twice.
    DuplicateArgument(String),
    /// A value that the option does not accept.
    InvalidValue { argument: String, value: String },
    /// A header that is not of the form `key:value`; the text says why.
    InvalidHeader(String),
    /// A required option that is absent.
    MissingArgument(String),
}

/// Model of a `CliError`.
pub enum CliErrorView {
    HelpRequested,
    VersionRequested,
    UnknownArgument(Seq<char>),
    MissingValue(Seq<char>),
    DuplicateArgument(Seq<char>),
    InvalidValue { argument: Seq<char>, value: Seq<char> },
    InvalidHeader(Seq<char>),
    MissingArgument(Seq<char>),
}

impl DeepView for CliError {
    type V = CliErrorView;

    open spec fn deep_view(&self) -> CliErrorView {
        match self {
            CliError::HelpRequested => CliErrorView::HelpRequested,
            CliError::VersionRequested => CliErrorView::VersionRequested,
            CliError::UnknownArgument(argument) => CliErrorView::UnknownArgument(argument@),
            CliError::MissingValue(argument) => CliErrorView::MissingValue(argument@),
            CliError::DuplicateArgument(argument) => CliErrorView::DuplicateArgument(argument@),
            CliError::InvalidValue { argument, value } => CliErrorView::InvalidValue {
                argument: argument@,
                value: value@,
            },
            CliError::InvalidHeader(message) => CliErrorView::InvalidHeader(message@),
            CliError::MissingArgument(argument) => CliErrorView::MissingArgument(argument@),
        }
    }
}

impl View for CliError {
    type V = CliErrorView;

    open spec fn view(&self) -> CliErrorView {
        self.deep_view()
    }
}

/// Whether an argument is a long option that carries its value after `=`.
pub open spec fn has_inline_value(arg: Seq<char>) -> bool {
    "--"@.is_prefix_of(arg) && first_index_of(arg, '=') < arg.len()
}

/// The option that an argument names: what stands before `=` in a long
/// option that carries its value, else the whole argument.
pub open spec fn option_name(arg: Seq<char>) -> Seq<char> {
    if has_inline_value(arg) {
        arg.subrange(0, first_index_of(arg, '=') as int)
    } else {
        arg
    }
}

/// The value of the option at `i` and the place of the next argument: what
/// stands after `=`, else the following argument unless that begins with a
/// dash.
pub open spec fn option_value(args: Seq<Seq<char>>, i: int) -> Option<(Seq<char>, int)> {
    if has_inline_value(args[i]) {
        Some((args[i].subrange(first_index_of(args[i], '=') as int + 1, args[i].len() as int), i + 1))
    } else if i + 1 < args.len() && !"-"@.is_prefix_of(args[i + 1]) {
        Some((args[i + 1], i + 2))
    } else {
        None
    }
}

/// Whether an argument asks for help.
pub open spec fn asks_help(arg: Seq<char>) -> bool {
    arg == "-h"@ || arg == "--help"@
}

/// The backend that a value of `--orm` names.
pub open spec fn orm_named(value: Seq<char>) -> Option<OrmType> {
    if value == "diesel"@ {
        Some(OrmType::Diesel)
    } else if value == "sea-orm"@ {
        Some(OrmType::SeaOrm)
    } else {
        None
    }
}

/// The engine that a value of `--db` names.
pub open spec fn db_named(value: Seq<char>) -> Option<DatabaseType> {
    if value == "sqlite"@ {
        Some(DatabaseType::Sqlite)
    } else if value == "postgres"@ {
        Some(DatabaseType::Postgres)
    } else if value == "mysql"@ {
        Some(DatabaseType::Mysql)
    } else {
        None
    }
}

/// What has been read of an `init` command.
pub struct InitArgs {
    pub url: Option<String>,
    pub orm: Option<OrmType>,
    pub db: Option<DatabaseType>,
    pub output: Option<String>,
    pub headers: Vec<(String, String)>,
}

/// Model of `InitArgs`.
pub struct InitArgsView {
    pub url: Option<Seq<char>>,
    pub orm: Option<OrmType>,
    pub db: Option<DatabaseType>,
    pub output: Option<Seq<char>>,
    pub headers: Seq<(Seq<char>, Seq<char>)>,
}

impl DeepView for InitArgs {
    type V = InitArgsView;

    open spec fn deep_view(&self) -> InitArgsView {
        InitArgsView {
            url: self.url.deep_view(),
            orm: self.orm,
            db: self.db,
            output: self.output.deep_view(),
            headers: self.headers.deep_view(),
        }
    }
}

impl View for InitArgs {
    type V = InitArgsView;

    open spec fn view(&self) -> InitArgsView {
        self.deep_view()
    }
}

/// Whether `name` is an option of `init`.
pub open spec fn is_init_option(name: Seq<char>) -> bool {
    name == "--url"@ || name == "-u"@ || name == "--orm"@ || name == "-o"@ || name == "--db"@
        || name == "-d"@ || name == "--output"@ || name == "--headers"@ || name == "-H"@
}

/// What has been read of an `init` command after the option `name` is given
/// `value`. An option other than the headers may be given once; a backend,
/// an engine and a header must be well formed.
pub open spec fn init_with(state: InitArgsView, name: Seq<char>, value: Seq<char>) -> Result<
    InitArgsView,
    CliErrorView,
> {
    if name == "--url"@ || name == "-u"@ {
        if state.url is Some {
            Err(CliErrorView::DuplicateArgument(name))
        } else {
            Ok(InitArgsView { url: Some(value), ..state })
        }
    } else if name == "--orm"@ || name == "-o"@ {
        if state.orm is Some {
            Err(CliErrorView::DuplicateArgument(name))
        } else {
            match orm_named(value) {
                Some(orm) => Ok(InitArgsView { orm: Some(orm), ..state }),
                None => Err(CliErrorView::InvalidValue { argument: name, value }),
            }
        }
    } else if name == "--db"@ || name == "-d"@ {
        if state.db is Some {
            Err(CliErrorView::DuplicateArgument(name))
        } else {
            match db_named(value) {
                Some(db) => Ok(InitArgsView { db: Some(db), ..state }),
                None => Err(CliErrorView::InvalidValue { argument: name, value }),
            }
        }
    } else if name == "--output"@ {
        if state.output is Some {
            Err(CliErrorView::DuplicateArgument(name))
        } else {
            Ok(InitArgsView { output: Some(value), ..state })
        }
    } else {
        match header_of(value) {
            Some(header) => Ok(InitArgsView { headers: state.headers.push(header), ..state }),
            None => Err(CliErrorView::InvalidHeader(header_error(value))),
        }
    }
}

/// What is read of an `init` command from the arguments at `i` and after.
pub open spec fn parse_init(args: Seq<Seq<char>>, i: int, state: InitArgsView) -> Result<
    InitArgsView,
    CliErrorView,
>
    decreases args.len() - i,
{
    if i < 0 || i >= args.len() {
        Ok(state)
    } else if asks_help(args[i]) {
        Err(CliErrorView::HelpRequested)
    } else if !is_init_option(option_name(args[i])) {
        Err(CliErrorView::UnknownArgument(args[i]))
    } else {
        match option_value(args, i) {
            None => Err(CliErrorView::MissingValue(option_name(args[i]))),
            Some((value, next)) => match init_with(state, option_name(args[i]), value) {
                Err(error) => Err(error),
                Ok(after) => parse_init(args, next, after),
            },
        }
    }
}

/// The `init` command that the options read stand for: the endpoint is
/// required, the rest has defaults.
pub open spec fn init_command(state: InitArgsView) -> Result<CommandsView, CliErrorView> {
    match state.url {
        None => Err(CliErrorView::MissingArgument("--url <URL>"@)),
        Some(url) => Ok(
            CommandsView::Init {
                url,
                orm: match state.orm {
                    Some(orm) => orm,
                    None => OrmType::Diesel,
                },
                db: match state.db {
                    Some(db) => db,
                    None => DatabaseType::Sqlite,
                },
                output: match state.output {
                    Some(output) => output,
                    None => "./generated"@,
                },
                headers: state.headers,
            },
        ),
    }
}

/// What has been read of a `generate` command after the option `name` is
/// given `value`. Each option may be given once.
pub open spec fn generate_with(
    config: Option<Seq<char>>,
    output: Option<Seq<char>>,
    name: Seq<char>,
    value: Seq<char>,
) -> Result<(Option<Seq<char>>, Option<Seq<char>>), CliErrorView> {
    if name == "--config"@ || name == "-c"@ {
        if config is Some {
            Err(CliErrorView::DuplicateArgument(name))
        } else {
            Ok((Some(value), output))
        }
    } else {
        if output is Some {
            Err(CliErrorView::DuplicateArgument(name))
        } else {
            Ok((config, Some(value)))
        }
    }
}

/// Whether `name` is an option of `generate`.
pub open spec fn is_generate_option(name: Seq<char>) -> bool {
    name == "--config"@ || name == "-c"@ || name == "--output"@ || name == "-o"@
}

/// The `generate` command that the arguments at `i` and after stand for.
pub open spec fn parse_generate(
    args: Seq<Seq<char>>,
    i: int,
    config: Option<Seq<char>>,
    output: Option<Seq<char>>,
) -> Result<CommandsView, CliErrorView>
    decreases args.len() - i,
{
    if i < 0 || i >= args.len() {
        Ok(CommandsView::Generate { config, output })
    } else if asks_help(args[i]) {
        Err(CliErrorView::HelpRequested)
    } else if !is_generate_option(option_name(args[i])) {
        Err(CliErrorView::UnknownArgument(args[i]))
    } else {
        match option_value(args, i) {
            None => Err(CliErrorView::MissingValue(option_name(args[i]))),
            Some((value, next)) => match generate_with(
                config,
                output,
                option_name(args[i]),
                value,
            ) {
                Err(error) => Err(error),
                Ok(after) => parse_generate(args, next, after.0, after.1),
            },
        }
    }
}

/// How often an argument asks for more output: once for `--verbose`, once
/// for every `v` of `-v`, `-vv` and so on; not at all for anything else.
pub open spec fn verbosity_of(arg: Seq<char>) -> nat {
    if arg == "--verbose"@ {
        1
    } else if arg.len() >= 2 && arg[0] == '-' && forall|k: int|
        1 <= k < arg.len() ==> arg[k] == 'v' {
        (arg.len() - 1) as nat
    } else {
        0
    }
}

/// A count that stops at the largest `u8`.
pub open spec fn capped(count: int) -> u8 {
    if count > 255 {
        255
    } else {
        count as u8
    }
}

/// The command line that the arguments at `i` and after stand for, where
/// `verbose` has been counted so far. Verbosity flags come before the
/// command; the command takes everything after its name.
pub open spec fn parse_from(args: Seq<Seq<char>>, i: int, verbose: u8) -> Result<
    CliView,
    CliErrorView,
>
    decreases args.len() - i,
{
    if i < 0 || i >= args.len() {
        Ok(CliView { command: None, verbose })
    } else if verbosity_of(args[i]) > 0 {
        parse_from(args, i + 1, capped(verbose + verbosity_of(args[i])))
    } else if asks_help(args[i]) || args[i] == "help"@ {
        Err(CliErrorView::HelpRequested)
    } else if args[i] == "-V"@ || args[i] == "--version"@ {
        Err(CliErrorView::VersionRequested)
    } else if args[i] == "init"@ {
        match parse_init(
            args,
            i + 1,
            InitArgsView { url: None, orm: None, db: None, output: None, headers: Seq::empty() },
        ) {
            Err(error) => Err(error),
            Ok(state) => match init_command(state) {
                Err(error) => Err(error),
                Ok(command) => Ok(CliView { command: Some(command), verbose }),
            },
        }
    } else if args[i] == "generate"@ {
        match parse_generate(args, i + 1, None, None) {
            Err(error) => Err(error),
            Ok(command) => Ok(CliView { command: Some(command), verbose }),
        }
    } else {
        Err(CliErrorView::UnknownArgument(args[i]))
    }
}

/// The command line that `args` stands for. The first argument is the
/// program's name and is passed over.
pub open spec fn command_line(args: Seq<Seq<char>>) -> Result<CliView, CliErrorView> {
    parse_from(args, 1, 0)
}

/// Splits an argument into the option it names and the value it carries.
fn split_option<'a>(arg: &'a str) -> (parts: (&'a str, Option<&'a str>))
    ensures
        parts.0@ == option_name(arg@),
        match parts.1 {
            Some(value) => has_inline_value(arg@) && value@ == arg@.subrange(
                first_index_of(arg@, '=') as int + 1,
                arg@.len() as int,
            ),
            None => !has_inline_value(arg@),
        },
{
    let n: usize = arg.unicode_len();
    if starts_with(arg, "--") {
        let at: usize = find_char(arg, '=');
        if at < n {
            return (arg.substring_char(0, at), Some(arg.substring_char(at + 1, n)));
        }
    }
    (arg, None)
}

/// Takes the value of the option at `i`.
fn take_value<'a>(args: &[&'a str], i: usize) -> (taken: Option<(&'a str, usize)>)
    requires
        i < args@.len(),
    ensures
        match taken {
            Some((value, next)) => {
                &&& option_value(args.deep_view(), i as int) == Some((value@, next as int))
                &&& i < next <= args@.len()
            },
            None => option_value(args.deep_view(), i as int).is_none(),
        },
{
    let (_, inline) = split_option(args[i]);
    match inline {
        Some(value) => Some((value, i + 1)),
        None => {
            if i + 1 < args.len() && !starts_with(args[i + 1], "-") {
                Some((args[i + 1], i + 2))
            } else {
                None
            }
        },
    }
}

/// Tells whether an argument asks for help.
fn is_help(arg: &str) -> (help: bool)
    ensures
        help == asks_help(arg@),
{
    str_eq(arg, "-h") || str_eq(arg, "--help")
}

/// Reads the backend that a value of `--orm` names.
fn orm_from(value: &str) -> (orm: Option<OrmType>)
    ensures
        orm == orm_named(value@),
{
    if str_eq(value, "diesel") {
        Some(OrmType::Diesel)
    } else if str_eq(value, "sea-orm") {
        Some(OrmType::SeaOrm)
    } else {
        None
    }
}

/// Reads the engine that a value of `--db` names.
fn db_from(value: &str) -> (db: Option<DatabaseType>)
    ensures
        db == db_named(value@),
{
    if str_eq(value, "sqlite") {
        Some(DatabaseType::Sqlite)
    } else if str_eq(value, "postgres") {
        Some(DatabaseType::Postgres)
    } else if str_eq(value, "mysql") {
        Some(DatabaseType::Mysql)
    } else {
        None
    }
}

/// Tells whether `name` is an option of `init`.
fn names_init_option(name: &str) -> (known: bool)
    ensures
        known == is_init_option(name@),
{
    str_eq(name, "--url") || str_eq(name, "-u") || str_eq(name, "--orm") || str_eq(name, "-o")
        || str_eq(name, "--db") || str_eq(name, "-d") || str_eq(name, "--output") || str_eq(
        name,
        "--headers",
    ) || str_eq(name, "-H")
}

/// Gives the option `name` of an `init` command the value `value`.
fn set_init_option(state: InitArgs, name: &str, value: &str) -> (after: Result<
    InitArgs,
    CliError,
>)
    ensures
        agrees(after, init_with(state@, name@, value@)),
{
    let mut state = state;
    if str_eq(name, "--url") || str_eq(name, "-u") {
        if state.url.is_some() {
            return Err(CliError::DuplicateArgument(String::from_str(name)));
        }
        state.url = Some(String::from_str(value));
        Ok(state)
    } else if str_eq(name, "--orm") || str_eq(name, "-o") {
        if state.orm.is_some() {
            return Err(CliError::DuplicateArgument(String::from_str(name)));
        }
        match orm_from(value) {
            Some(orm) => {
                state.orm = Some(orm);
                Ok(state)
            },
            None => Err(
                CliError::InvalidValue {
                    argument: String::from_str(name),
                    value: String::from_str(value),
                },
            ),
        }
    } else if str_eq(name, "--db") || str_eq(name, "-d") {
        if state.db.is_some() {
            return Err(CliError::DuplicateArgument(String::from_str(name)));
        }
        match db_from(value) {
            Some(db) => {
                state.db = Some(db);
                Ok(state)
            },
            None => Err(
                CliError::InvalidValue {
                    argument: String::from_str(name),
                    value: String::from_str(value),
                },
            ),
        }
    } else if str_eq(name, "--output") {
        if state.output.is_some() {
            return Err(CliError::DuplicateArgument(String::from_str(name)));
        }
        state.output = Some(String::from_str(value));
        Ok(state)
    } else {
        match parse_header(value) {
            Ok(header) => {
                let ghost before = state.headers.deep_view();
                state.headers.push(header);
                assert(state.headers.deep_view() =~= before.push(header.deep_view()));
                Ok(state)
            },
            Err(message) => Err(CliError::InvalidHeader(message)),
        }
    }
}

/// Reads the options of an `init` command from the arguments at `i` and
/// after.
fn read_init(args: &[&str], i: usize, state: InitArgs) -> (read: Result<InitArgs, CliError>)
    ensures
        agrees(read, parse_init(args.deep_view(), i as int, state@)),
    decreases args@.len() - i,
{
    if i >= args.len() {
        return Ok(state);
    }
    let arg = args[i];
    if is_help(arg) {
        return Err(CliError::HelpRequested);
    }
    let (name, _) = split_option(arg);
    if !names_init_option(name) {
        return Err(CliError::UnknownArgument(String::from_str(arg)));
    }
    match take_value(args, i) {
        None => Err(CliError::MissingValue(String::from_str(name))),
        Some((value, next)) => match set_init_option(state, name, value) {
            Err(error) => Err(error),
            Ok(after) => read_init(args, next, after),
        },
    }
}

/// Makes the `init` command that the options read stand for.
fn finish_init(state: InitArgs) -> (command: Result<Commands, CliError>)
    ensures
        agrees(command, init_command(state@)),
{
    match state.url {
        None => Err(CliError::MissingArgument(String::from_str("--url <URL>"))),
        Some(url) => Ok(
            Commands::Init {
                url,
                orm: match state.orm {
                    Some(orm) => orm,
                    None => OrmType::Diesel,
                },
                db: match state.db {
                    Some(db) => db,
                    None => DatabaseType::Sqlite,
                },
                output: match state.output {
                    Some(output) => output,
                    None => String::from_str("./generated"),
                },
                headers: state.headers,
            },
        ),
    }
}

/// Reads a `generate` command from the arguments at `i` and after.
fn read_generate(
    args: &[&str],
    i: usize,
    config: Option<String>,
    output: Option<String>,
) -> (read: Result<Commands, CliError>)
    ensures
        agrees(read, parse_generate(args.deep_view(), i as int, config.deep_view(), output.deep_view())),
    decreases args@.len() - i,
{
    if i >= args.len() {
        return Ok(Commands::Generate { config, output });
    }
    let arg = args[i];
    if is_help(arg) {
        return Err(CliError::HelpRequested);
    }
    let (name, _) = split_option(arg);
    let names_config = str_eq(name, "--config") || str_eq(name, "-c");
    let names_output = str_eq(name, "--output") || str_eq(name, "-o");
    if !names_config && !names_output {
        return Err(CliError::UnknownArgument(String::from_str(arg)));
    }
    match take_value(args, i) {
        None => Err(CliError::MissingValue(String::from_str(name))),
        Some((value, next)) => {
            if names_config {
                if config.is_some() {
                    return Err(CliError::DuplicateArgument(String::from_str(name)));
                }
                read_generate(args, next, Some(String::from_str(value)), output)
            } else {
                if output.is_some() {
                    return Err(CliError::DuplicateArgument(String::from_str(name)));
                }
                read_generate(args, next, config, Some(String::from_str(value)))
            }
        },
    }
}

/// Counts how often an argument asks for more output.
fn count_verbosity(arg: &str) -> (count: usize)
    ensures
        count == verbosity_of(arg@),
{
    if str_eq(arg, "--verbose") {
        return 1;
    }
    let n: usize = arg.unicode_len();
    if n < 2 || arg.get_char(0) != '-' {
        proof {
            reveal_strlit("--verbose");
        }
        return 0;
    }
    let mut k: usize = 1;
    while k < n
        invariant
            1 <= k <= n,
            n == arg@.len(),
            arg@ != "--verbose"@,
            arg@[0] == '-',
            forall|j: int| 1 <= j < k ==> arg@[j] == 'v',
        decreases n - k,
    {
        if arg.get_char(k) != 'v' {
            return 0;
        }
        k = k + 1;
    }
    n - 1
}

/// Adds to a count that stops at the largest `u8`.
fn add_capped(verbose: u8, count: usize) -> (sum: u8)
    ensures
        sum == capped(verbose + count),
{
    if count >= 255 || verbose as usize + count > 255 {
        255
    } else {
        verbose + count as u8
    }
}

/// Reads a command line from the arguments at `i` and after.
fn read_from(args: &[&str], i: usize, verbose: u8) -> (read: Result<Cli, CliError>)
    ensures
        agrees(read, parse_from(args.deep_view(), i as int, verbose)),
    decreases args@.len() - i,
{
    if i >= args.len() {
        return Ok(Cli { command: None, verbose });
    }
    let arg = args[i];
    let count: usize = count_verbosity(arg);
    if count > 0 {
        read_from(args, i + 1, add_capped(verbose, count))
    } else if is_help(arg) || str_eq(arg, "help") {
        Err(CliError::HelpRequested)
    } else if str_eq(arg, "-V") || str_eq(arg, "--version") {
        Err(CliError::VersionRequested)
    } else if str_eq(arg, "init") {
        let empty_headers: Vec<(String, String)> = Vec::new();
        assert(empty_headers.deep_view() =~= Seq::<(Seq<char>, Seq<char>)>::empty());
        let start = InitArgs {
            url: None,
            orm: None,
            db: None,
            output: None,
            headers: empty_headers,
        };
        match read_init(args, i + 1, start) {
            Err(error) => Err(error),
            Ok(state) => match finish_init(state) {
                Err(error) => Err(error),
                Ok(command) => Ok(Cli { command: Some(command), verbose }),
            },
        }
    } else if str_eq(arg, "generate") {
        match read_generate(args, i + 1, None, None) {
            Err(error) => Err(error),
            Ok(command) => Ok(Cli { command: Some(command), verbose }),
        }
    } else {
        Err(CliError::UnknownArgument(String::from_str(arg)))
    }
}

impl Cli {
    /// Reads the command line. The first argument is the program's name.
    /// An option takes its value from the next argument or, in its long
    /// form, after `=`.
    pub fn try_parse_from(args: &[&str]) -> (cli: Result<Cli, CliError>)
        ensures
            agrees(cli, command_line(args.deep_view())),
    {
        read_from(args, 1, 0)
    }
}

} // verus!
