//! The command-line surface: one `info` subcommand selecting a station code
//! (default `VOBL`) and a global verbosity flag. `init` interprets an
//! argument vector; reading the process arguments is the caller's business.

use vstd::prelude::*;
use crate::text::str_eq;

verus! {

/// Global options.
#[derive(Debug, PartialEq)]
pub struct Opt {
    /// Turn on verbose output.
    pub verbose: bool,
}

/// The one subcommand offered.
#[derive(Debug, PartialEq)]
pub enum SubCommand {
    /// Display weather information for a station.
    Info {
        /// Station code, e.g. `VOBL`.
        station_id: String,
    },
}

/// A fully interpreted command line.
#[derive(Debug, PartialEq)]
pub struct Cmd {
    pub opt: Opt,
    pub sub: SubCommand,
}

/// Abstract value of a [`Cmd`].
pub ghost struct CmdView {
    pub verbose: bool,
    pub station_id: Seq<char>,
}

impl View for Cmd {
    type V = CmdView;

    open spec fn view(&self) -> CmdView {
        CmdView {
            verbose: self.opt.verbose,
            station_id: match self.sub {
                SubCommand::Info { station_id } => station_id@,
            },
        }
    }
}

/// Why an argument vector was rejected. Variants carry the index of the
/// offending argument.
#[derive(Debug, PartialEq, Eq, Clone, Copy, Structural)]
pub enum CliError {
    /// An argument is neither a known flag, the subcommand, nor a flag value.
    UnexpectedArgument(usize),
    /// The `info` subcommand is absent.
    MissingSubcommand,
    /// `--station-id` is the last argument, so its value is absent.
    MissingValue(usize),
}

/// Abstract value of a [`CliError`], over unbounded indices.
pub ghost enum CliErrorView {
    UnexpectedArgument(int),
    MissingSubcommand,
    MissingValue(int),
}

impl View for CliError {
    type V = CliErrorView;

    open spec fn view(&self) -> CliErrorView {
        match *self {
            CliError::UnexpectedArgument(i) => CliErrorView::UnexpectedArgument(i as int),
            CliError::MissingSubcommand => CliErrorView::MissingSubcommand,
            CliError::MissingValue(i) => CliErrorView::MissingValue(i as int),
        }
    }
}

/// What interpreting the arguments from index `i` on yields, given the flags
/// gathered so far: `-v`/`--verbose` may appear anywhere, `info` once, and
/// `--station-id <id>` (last occurrence wins) only after `info`.
pub open spec fn spec_cli_from(
    args: Seq<Seq<char>>,
    i: int,
    verbose: bool,
    seen: bool,
    station: Seq<char>,
) -> Result<CmdView, CliErrorView>
    decreases args.len() - i,
{
    if i < 0 || i >= args.len() {
        if seen {
            Ok(CmdView { verbose, station_id: station })
        } else {
            Err(CliErrorView::MissingSubcommand)
        }
    } else {
        let a = args[i];
        if a == "-v"@ || a == "--verbose"@ {
            spec_cli_from(args, i + 1, true, seen, station)
        } else if !seen && a == "info"@ {
            spec_cli_from(args, i + 1, verbose, true, station)
        } else if seen && a == "--station-id"@ {
            if i + 1 < args.len() {
                spec_cli_from(args, i + 2, verbose, seen, args[i + 1])
            } else {
                Err(CliErrorView::MissingValue(i))
            }
        } else {
            Err(CliErrorView::UnexpectedArgument(i))
        }
    }
}

/// What a whole argument vector (without the program name) means; the
/// station code defaults to `VOBL`.
pub open spec fn spec_init(args: Seq<Seq<char>>) -> Result<CmdView, CliErrorView> {
    spec_cli_from(args, 0, false, false, "VOBL"@)
}

/// Interprets the argument vector (without the program name).
pub fn init(args: &Vec<String>) -> (r: Result<Cmd, CliError>)
    ensures
        match spec_init(args.deep_view()) {
            Ok(c) => r matches Ok(cmd) && cmd@ == c,
            Err(e) => r matches Err(x) && x@ == e,
        },
{
    let ghost dv = args.deep_view();
    let mut verbose = false;
    let mut seen = false;
    let mut station: String = "VOBL".to_owned();
    let mut i: usize = 0;
    while i < args.len()
        invariant
            i <= args.len(),
            dv == args.deep_view(),
            dv.len() == args@.len(),
            spec_cli_from(dv, i as int, verbose, seen, station@) == spec_init(dv),
        decreases args.len() - i,
    {
        let a = &args[i];
        proof {
            assert(dv[i as int] == args@[i as int]@);
        }
        if str_eq(a.as_str(), "-v") || str_eq(a.as_str(), "--verbose") {
            verbose = true;
            i = i + 1;
        } else if !seen && str_eq(a.as_str(), "info") {
            seen = true;
            i = i + 1;
        } else if seen && str_eq(a.as_str(), "--station-id") {
            if i + 1 < args.len() {
                proof {
                    assert(dv[i as int + 1] == args@[i as int + 1]@);
                }
                station = args[i + 1].clone();
                i = i + 2;
            } else {
                return Err(CliError::MissingValue(i));
            }
        } else {
            return Err(CliError::UnexpectedArgument(i));
        }
    }
    if seen {
        Ok(Cmd { opt: Opt { verbose }, sub: SubCommand::Info { station_id: station } })
    } else {
        Err(CliError::MissingSubcommand)
    }
}

} // verus!
