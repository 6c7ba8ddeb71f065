use crate::text::{index_of_text, parse_index, str_eq, views};
use vstd::prelude::*;

verus! {

/// The player's service name when none is given.
pub const DEFAULT_SERVICE_NAME: &'static str = "org.mpris.MediaPlayer2.spotify";

/// A parsed command line: the player to talk to and what to do.
#[derive(Clone, Debug, PartialEq, Eq)]
pub struct Args {
    /// The bus name of the player that commands are sent to.
    pub service_name: String,
    pub action: Commands,
}

/// What to ask of the player.
#[derive(Clone, Debug, PartialEq, Eq)]
pub enum Commands {
    /// Play the next song.
    Next,
    /// Play the previous song.
    Previous,
    /// Play or pause the current song.
    PlayPause,
    /// Show a notification with the current song.
    NowPlaying,
    /// Play a song.
    PlaySong { mode: PlayMode },
}

/// How the song to play is named.
#[derive(Clone, Debug, PartialEq, Eq)]
pub enum PlayMode {
    /// A uri in the format of `spotify:track:<id>`.
    Uri { uri: String },
    /// Words to search for; with `list`, the first `count` results are offered
    /// to pick from instead of playing the first.
    Search { query: Vec<String>, list: bool, count: usize },
}

/// The number of search results offered when `--count` is not given.
pub const DEFAULT_COUNT: usize = 5;

/// Why a command line was refused.
#[derive(Clone, Copy, Debug, PartialEq, Eq)]
pub enum ArgsErrorKind {
    /// No command was given.
    MissingSubcommand,
    /// The command named is not one of those known.
    UnknownSubcommand,
    /// An argument that has no place there.
    UnexpectedArgument,
    /// An option that takes a value came last.
    MissingValue,
    /// A required argument was not given.
    MissingArgument,
    /// An option's value is not of its type.
    InvalidValue,
}

/// A refused command line: why, and the argument concerned (empty where there is none).
#[derive(Clone, Debug, PartialEq, Eq)]
pub struct ArgsError {
    pub kind: ArgsErrorKind,
    pub arg: String,
}

/// A command as a value of the model.
pub enum CommandModel {
    Next,
    Previous,
    PlayPause,
    NowPlaying,
    PlayUri(Seq<char>),
    Search(Seq<Seq<char>>, bool, usize),
}

/// A parsed command line as a value of the model.
pub struct ArgsModel {
    pub service_name: Seq<char>,
    pub action: CommandModel,
}

pub open spec fn command_model(c: Commands) -> CommandModel {
    match c {
        Commands::Next => CommandModel::Next,
        Commands::Previous => CommandModel::Previous,
        Commands::PlayPause => CommandModel::PlayPause,
        Commands::NowPlaying => CommandModel::NowPlaying,
        Commands::PlaySong { mode: PlayMode::Uri { uri } } => CommandModel::PlayUri(uri@),
        Commands::PlaySong { mode: PlayMode::Search { query, list, count } } => CommandModel::Search(
            views(query@),
            list,
            count,
        ),
    }
}

pub open spec fn args_model(a: Args) -> ArgsModel {
    ArgsModel { service_name: a.service_name@, action: command_model(a.action) }
}

/// The arguments as texts.
pub open spec fn tokens(argv: Seq<&str>) -> Seq<Seq<char>> {
    argv.map_values(|s: &str| s@)
}

/// An option: a dash followed by at least one character.
pub open spec fn is_option(t: Seq<char>) -> bool {
    t.len() > 1 && t[0] == '-'
}

pub type ParseErr = (ArgsErrorKind, Seq<char>);

/// The options before the command, from `i` on: `--service-name <name>` or
/// `-s <name>`, the last one given counting. Gives where the command stands and
/// the service name.
pub open spec fn parse_globals(ts: Seq<Seq<char>>, i: int, service: Seq<char>) -> Result<
    (int, Seq<char>),
    ParseErr,
>
    decreases ts.len() - i,
{
    if i >= ts.len() || i < 0 {
        Err((ArgsErrorKind::MissingSubcommand, Seq::empty()))
    } else if ts[i] == "--service-name"@ || ts[i] == "-s"@ {
        if i + 1 < ts.len() {
            parse_globals(ts, i + 2, ts[i + 1])
        } else {
            Err((ArgsErrorKind::MissingValue, ts[i]))
        }
    } else if is_option(ts[i]) {
        Err((ArgsErrorKind::UnexpectedArgument, ts[i]))
    } else {
        Ok((i, service))
    }
}

/// The arguments of `play-song search` from `i` on: `--list` / `-l`,
/// `--count <n>` / `-c <n>`, and the words of the query.
pub open spec fn parse_search(
    ts: Seq<Seq<char>>,
    i: int,
    query: Seq<Seq<char>>,
    list: bool,
    count: usize,
) -> Result<CommandModel, ParseErr>
    decreases ts.len() - i,
{
    if i >= ts.len() || i < 0 {
        Ok(CommandModel::Search(query, list, count))
    } else if ts[i] == "--list"@ || ts[i] == "-l"@ {
        parse_search(ts, i + 1, query, true, count)
    } else if ts[i] == "--count"@ || ts[i] == "-c"@ {
        if i + 1 < ts.len() {
            match index_of_text(ts[i + 1]) {
                Some(n) => parse_search(ts, i + 2, query, list, n),
                None => Err((ArgsErrorKind::InvalidValue, ts[i + 1])),
            }
        } else {
            Err((ArgsErrorKind::MissingValue, ts[i]))
        }
    } else if is_option(ts[i]) {
        Err((ArgsErrorKind::UnexpectedArgument, ts[i]))
    } else {
        parse_search(ts, i + 1, query.push(ts[i]), list, count)
    }
}

/// The arguments of `play-song uri` from `i` on: exactly the uri.
pub open spec fn parse_uri(ts: Seq<Seq<char>>, i: int) -> Result<CommandModel, ParseErr> {
    if i >= ts.len() {
        Err((ArgsErrorKind::MissingArgument, "<URI>"@))
    } else if is_option(ts[i]) {
        Err((ArgsErrorKind::UnexpectedArgument, ts[i]))
    } else if i + 1 < ts.len() {
        Err((ArgsErrorKind::UnexpectedArgument, ts[i + 1]))
    } else {
        Ok(CommandModel::PlayUri(ts[i]))
    }
}

/// The arguments of `play-song` from `i` on: `uri` or `search` and theirs.
pub open spec fn parse_play_mode(ts: Seq<Seq<char>>, i: int) -> Result<CommandModel, ParseErr> {
    if i >= ts.len() {
        Err((ArgsErrorKind::MissingSubcommand, Seq::empty()))
    } else if ts[i] == "uri"@ {
        parse_uri(ts, i + 1)
    } else if ts[i] == "search"@ {
        parse_search(ts, i + 1, Seq::empty(), false, DEFAULT_COUNT)
    } else if is_option(ts[i]) {
        Err((ArgsErrorKind::UnexpectedArgument, ts[i]))
    } else {
        Err((ArgsErrorKind::UnknownSubcommand, ts[i]))
    }
}

/// A command without arguments: nothing may follow it.
pub open spec fn bare(ts: Seq<Seq<char>>, i: int, c: CommandModel) -> Result<CommandModel, ParseErr> {
    if i + 1 < ts.len() {
        Err((ArgsErrorKind::UnexpectedArgument, ts[i + 1]))
    } else {
        Ok(c)
    }
}

/// The command that stands at `i`, with its arguments.
pub open spec fn parse_action(ts: Seq<Seq<char>>, i: int) -> Result<CommandModel, ParseErr> {
    let name = ts[i];
    if name == "next"@ {
        bare(ts, i, CommandModel::Next)
    } else if name == "previous"@ {
        bare(ts, i, CommandModel::Previous)
    } else if name == "play-pause"@ {
        bare(ts, i, CommandModel::PlayPause)
    } else if name == "now-playing"@ {
        bare(ts, i, CommandModel::NowPlaying)
    } else if name == "play-song"@ {
        parse_play_mode(ts, i + 1)
    } else {
        Err((ArgsErrorKind::UnknownSubcommand, name))
    }
}

/// A whole command line; the first argument is the program's name.
pub open spec fn parse_command_line(ts: Seq<Seq<char>>) -> Result<ArgsModel, ParseErr> {
    match parse_globals(ts, 1, DEFAULT_SERVICE_NAME@) {
        Err(e) => Err(e),
        Ok((i, service)) => match parse_action(ts, i) {
            Err(e) => Err(e),
            Ok(a) => Ok(ArgsModel { service_name: service, action: a }),
        },
    }
}

fn err(kind: ArgsErrorKind, arg: &str) -> (r: ArgsError)
    ensures
        r.kind == kind,
        r.arg@ == arg@,
{
    ArgsError { kind, arg: String::from_str(arg) }
}

fn parse_search_args(argv: &[&str], start: usize) -> (r: Result<PlayMode, ArgsError>)
    requires
        start <= argv@.len(),
    ensures
        match parse_search(tokens(argv@), start as int, Seq::empty(), false, DEFAULT_COUNT) {
            Ok(m) => r is Ok && command_model(Commands::PlaySong { mode: r->Ok_0 }) == m,
            Err((k, a)) => r is Err && r->Err_0.kind == k && r->Err_0.arg@ == a,
        },
{
    let ghost ts = tokens(argv@);
    let n = argv.len();
    let mut query: Vec<String> = Vec::new();
    let mut list = false;
    let mut count: usize = DEFAULT_COUNT;
    let mut i: usize = start;
    assert(views(query@) =~= Seq::<Seq<char>>::empty());
    while i < n
        invariant
            n == argv@.len(),
            ts == tokens(argv@),
            i <= n,
            parse_search(ts, start as int, Seq::empty(), false, DEFAULT_COUNT) == parse_search(
                ts,
                i as int,
                views(query@),
                list,
                count,
            ),
        decreases n - i,
    {
        let t = argv[i];
        assert(ts[i as int] == t@);
        if str_eq(t, "--list") || str_eq(t, "-l") {
            list = true;
            i += 1;
        } else if str_eq(t, "--count") || str_eq(t, "-c") {
            if i + 1 < n {
                let v = argv[i + 1];
                assert(ts[i + 1] == v@);
                match parse_index(v) {
                    Some(c) => {
                        count = c;
                        i += 2;
                    },
                    None => {
                        return Err(err(ArgsErrorKind::InvalidValue, v));
                    },
                }
            } else {
                return Err(err(ArgsErrorKind::MissingValue, t));
            }
        } else if t.unicode_len() > 1 && t.get_char(0) == '-' {
            return Err(err(ArgsErrorKind::UnexpectedArgument, t));
        } else {
            let ghost before = query@;
            query.push(String::from_str(t));
            assert(views(query@) =~= views(before).push(t@));
            i += 1;
        }
    }
    Ok(PlayMode::Search { query, list, count })
}

fn parse_play_mode_args(argv: &[&str], i: usize) -> (r: Result<PlayMode, ArgsError>)
    requires
        i <= argv@.len(),
    ensures
        match parse_play_mode(tokens(argv@), i as int) {
            Ok(m) => r is Ok && command_model(Commands::PlaySong { mode: r->Ok_0 }) == m,
            Err((k, a)) => r is Err && r->Err_0.kind == k && r->Err_0.arg@ == a,
        },
{
    let ghost ts = tokens(argv@);
    let n = argv.len();
    if i >= n {
        proof {
            reveal_strlit("");
        }
        return Err(err(ArgsErrorKind::MissingSubcommand, ""));
    }
    let t = argv[i];
    assert(ts[i as int] == t@);
    if str_eq(t, "uri") {
        if i + 1 >= n {
            return Err(err(ArgsErrorKind::MissingArgument, "<URI>"));
        }
        let u = argv[i + 1];
        assert(ts[i + 1] == u@);
        if u.unicode_len() > 1 && u.get_char(0) == '-' {
            Err(err(ArgsErrorKind::UnexpectedArgument, u))
        } else if i + 2 < n {
            let extra = argv[i + 2];
            assert(ts[i + 2] == extra@);
            Err(err(ArgsErrorKind::UnexpectedArgument, extra))
        } else {
            Ok(PlayMode::Uri { uri: String::from_str(u) })
        }
    } else if str_eq(t, "search") {
        parse_search_args(argv, i + 1)
    } else if t.unicode_len() > 1 && t.get_char(0) == '-' {
        Err(err(ArgsErrorKind::UnexpectedArgument, t))
    } else {
        Err(err(ArgsErrorKind::UnknownSubcommand, t))
    }
}

fn bare_command(argv: &[&str], i: usize, c: Commands) -> (r: Result<Commands, ArgsError>)
    requires
        i < argv@.len(),
    ensures
        match bare(tokens(argv@), i as int, command_model(c)) {
            Ok(m) => r is Ok && command_model(r->Ok_0) == m,
            Err((k, a)) => r is Err && r->Err_0.kind == k && r->Err_0.arg@ == a,
        },
{
    if argv.len() - i > 1 {
        let extra = argv[i + 1];
        assert(tokens(argv@)[i + 1] == extra@);
        Err(err(ArgsErrorKind::UnexpectedArgument, extra))
    } else {
        Ok(c)
    }
}

/// Text quoted between single quotes.
pub open spec fn quoted(s: Seq<char>) -> Seq<char> {
    "'"@ + s + "'"@
}

fn quote(s: &str) -> (r: String)
    ensures
        r@ == quoted(s@),
{
    String::from_str("'").concat(s).concat("'")
}

impl ArgsError {
    /// The message that reports this error.
    pub fn message(&self) -> (r: String)
        ensures
            r@ == match self.kind {
                ArgsErrorKind::MissingSubcommand => "a subcommand is required"@,
                ArgsErrorKind::UnknownSubcommand => "unrecognized subcommand "@ + quoted(self.arg@),
                ArgsErrorKind::UnexpectedArgument => "unexpected argument "@ + quoted(self.arg@)
                    + " found"@,
                ArgsErrorKind::MissingValue => "a value is required for "@ + quoted(self.arg@)
                    + " but none was supplied"@,
                ArgsErrorKind::MissingArgument =>
                    "the following required arguments were not provided: "@ + self.arg@,
                ArgsErrorKind::InvalidValue => "invalid value "@ + quoted(self.arg@),
            },
    {
        let a = self.arg.as_str();
        match self.kind {
            ArgsErrorKind::MissingSubcommand => String::from_str("a subcommand is required"),
            ArgsErrorKind::UnknownSubcommand => String::from_str("unrecognized subcommand ").concat(
                quote(a).as_str(),
            ),
            ArgsErrorKind::UnexpectedArgument => String::from_str("unexpected argument ").concat(
                quote(a).as_str(),
            ).concat(" found"),
            ArgsErrorKind::MissingValue => String::from_str("a value is required for ").concat(
                quote(a).as_str(),
            ).concat(" but none was supplied"),
            ArgsErrorKind::MissingArgument => String::from_str(
                "the following required arguments were not provided: ",
            ).concat(a),
            ArgsErrorKind::InvalidValue => String::from_str("invalid value ").concat(
                quote(a).as_str(),
            ),
        }
    }
}

impl Args {
    /// Parses a command line; the first argument is the program's name.
    ///
    /// Before the command may stand `--service-name <name>` (or `-s <name>`); the
    /// default is the Spotify player. The commands are `next`, `previous`,
    /// `play-pause`, `now-playing` and `play-song`, the last followed by
    /// `uri <uri>` or by `search` with the words of the query, `--list` (`-l`)
    /// and `--count <n>` (`-c <n>`, 5 when not given) in any order.
    pub fn try_parse_from(argv: &[&str]) -> (r: Result<Args, ArgsError>)
        ensures
            match parse_command_line(tokens(argv@)) {
                Ok(m) => r is Ok && args_model(r->Ok_0) == m,
                Err((k, a)) => r is Err && r->Err_0.kind == k && r->Err_0.arg@ == a,
            },
    {
        let ghost ts = tokens(argv@);
        let n = argv.len();
        let mut service = String::from_str(DEFAULT_SERVICE_NAME);
        let mut i: usize = 1;
        loop
            invariant
                n == argv@.len(),
                ts == tokens(argv@),
                1 <= i,
                parse_globals(ts, 1, DEFAULT_SERVICE_NAME@) == parse_globals(ts, i as int, service@),
            ensures
                i < n,
                parse_globals(ts, 1, DEFAULT_SERVICE_NAME@) == Ok::<(int, Seq<char>), ParseErr>(
                    (i as int, service@),
                ),
            decreases n + 2 - i,
        {
            if i >= n {
                proof {
                    reveal_strlit("");
                }
                return Err(err(ArgsErrorKind::MissingSubcommand, ""));
            }
            let t = argv[i];
            assert(ts[i as int] == t@);
            if str_eq(t, "--service-name") || str_eq(t, "-s") {
                if i + 1 < n {
                    let v = argv[i + 1];
                    assert(ts[i + 1] == v@);
                    service = String::from_str(v);
                    i += 2;
                } else {
                    return Err(err(ArgsErrorKind::MissingValue, t));
                }
            } else if t.unicode_len() > 1 && t.get_char(0) == '-' {
                return Err(err(ArgsErrorKind::UnexpectedArgument, t));
            } else {
                break;
            }
        }
        let name = argv[i];
        assert(ts[i as int] == name@);
        let action = if str_eq(name, "next") {
            bare_command(argv, i, Commands::Next)
        } else if str_eq(name, "previous") {
            bare_command(argv, i, Commands::Previous)
        } else if str_eq(name, "play-pause") {
            bare_command(argv, i, Commands::PlayPause)
        } else if str_eq(name, "now-playing") {
            bare_command(argv, i, Commands::NowPlaying)
        } else if str_eq(name, "play-song") {
            match parse_play_mode_args(argv, i + 1) {
                Ok(mode) => Ok(Commands::PlaySong { mode }),
                Err(e) => Err(e),
            }
        } else {
            Err(err(ArgsErrorKind::UnknownSubcommand, name))
        };
        match action {
            Ok(action) => Ok(Args { service_name: service, action }),
            Err(e) => Err(e),
        }
    }
}

} // verus!
