use vstd::prelude::*;
use vstd::utf8::encode_utf8;

verus! {

/// Command line interface
#[derive(Debug, Default)]
pub struct Cli {
    pub muted: bool,
    pub rom_path: Option<String>,
}

/// Why the program stops right after reading its arguments
#[derive(Debug)]
pub enum CliExit {
    /// Print the help and stop
    Help,
    /// Say hi and stop
    Hello,
    /// More than one ROM was named
    ManyRoms,
    /// An option that is not known
    UnknownOption(String),
}

/// Where reading the arguments stands
pub enum ParseState {
    Going(bool, Option<Seq<u8>>),
    Help,
    Hello,
    ManyRoms,
    Unknown(Seq<u8>),
}

pub open spec fn is_option(arg: Seq<u8>) -> bool {
    arg.len() > 0 && arg[0] == 45u8
}

pub open spec fn opt_short_help() -> Seq<u8> {
    seq![45u8, 104u8]
}

pub open spec fn opt_help() -> Seq<u8> {
    seq![45u8, 45u8, 104u8, 101u8, 108u8, 112u8]
}

pub open spec fn opt_hello() -> Seq<u8> {
    seq![45u8, 45u8, 104u8, 101u8, 108u8, 108u8, 111u8]
}

pub open spec fn opt_muted() -> Seq<u8> {
    seq![45u8, 45u8, 109u8, 117u8, 116u8, 101u8, 100u8]
}

/// Reading one more argument: the first non-option is the ROM, a second one
/// is an error; options are `-h`, `--help`, `--hello` and `--muted`
pub open spec fn read_arg(s: ParseState, arg: Seq<u8>) -> ParseState {
    match s {
        ParseState::Going(muted, rom) => if !is_option(arg) {
            if rom is Some {
                ParseState::ManyRoms
            } else {
                ParseState::Going(muted, Some(arg))
            }
        } else if arg == opt_short_help() || arg == opt_help() {
            ParseState::Help
        } else if arg == opt_hello() {
            ParseState::Hello
        } else if arg == opt_muted() {
            ParseState::Going(true, rom)
        } else {
            ParseState::Unknown(arg)
        },
        _ => s,
    }
}

/// Reading all of `args`, in order
pub open spec fn read_args(args: Seq<Seq<u8>>) -> ParseState
    decreases args.len(),
{
    if args.len() == 0 {
        ParseState::Going(false, None)
    } else {
        read_arg(read_args(args.drop_last()), args.last())
    }
}

/// The arguments as bytes
pub open spec fn arg_bytes(args: Seq<String>) -> Seq<Seq<u8>> {
    args.map_values(|a: String| encode_utf8(a@))
}

fn bytes_eq(a: &[u8], b: &[u8]) -> (r: bool)
    ensures
        r == (a@ == b@),
{
    if a.len() != b.len() {
        return false;
    }
    let mut i: usize = 0;
    while i < a.len()
        invariant
            a@.len() == b@.len(),
            i <= a@.len(),
            forall|k: int| 0 <= k < i ==> a@[k] == b@[k],
        decreases a@.len() - i,
    {
        if a[i] != b[i] {
            return false;
        }
        i += 1;
    }
    assert(a@ =~= b@);
    true
}

impl Cli {
    /// Reads the arguments that follow the program name
    pub fn parse(args: &[String]) -> (r: Result<Cli, CliExit>)
        ensures
            match read_args(arg_bytes(args@)) {
                ParseState::Going(muted, rom) => r matches Ok(cli) && cli.muted == muted && match rom {
                    Some(path) => cli.rom_path matches Some(p) && encode_utf8(p@) == path,
                    None => cli.rom_path is None,
                },
                ParseState::Help => r matches Err(CliExit::Help),
                ParseState::Hello => r matches Err(CliExit::Hello),
                ParseState::ManyRoms => r matches Err(CliExit::ManyRoms),
                ParseState::Unknown(opt) => r matches Err(CliExit::UnknownOption(s)) && encode_utf8(
                    s@,
                ) == opt,
            },
    {
        let mut muted = false;
        let mut rom_path: Option<String> = None;
        let mut i: usize = 0;
        let ghost all = arg_bytes(args@);
        while i < args.len()
            invariant
                i <= args@.len(),
                all == arg_bytes(args@),
                read_args(all.subrange(0, i as int)) matches ParseState::Going(m, rom) && m == muted
                    && match rom {
                    Some(path) => rom_path matches Some(p) && encode_utf8(p@) == path,
                    None => rom_path is None,
                },
            decreases args@.len() - i,
        {
            let arg = args[i].as_str();
            let b = arg.as_bytes();
            proof {
                assert(all.subrange(0, i + 1).drop_last() =~= all.subrange(0, i as int));
                assert(all.subrange(0, i + 1).last() == b@);
            }
            if b.len() == 0 || b[0] != 45u8 {
                if rom_path.is_some() {
                    proof {
                        lemma_read_args_stops(all, i as int + 1);
                    }
                    return Err(CliExit::ManyRoms);
                }
                rom_path = Some(arg.to_owned());
            } else if bytes_eq(b, &[45u8, 104u8]) || bytes_eq(
                b,
                &[45u8, 45u8, 104u8, 101u8, 108u8, 112u8],
            ) {
                proof {
                    assert(seq![45u8, 104u8] =~= opt_short_help());
                    assert(seq![45u8, 45u8, 104u8, 101u8, 108u8, 112u8] =~= opt_help());
                    lemma_read_args_stops(all, i as int + 1);
                }
                return Err(CliExit::Help);
            } else if bytes_eq(b, &[45u8, 45u8, 104u8, 101u8, 108u8, 108u8, 111u8]) {
                proof {
                    assert(seq![45u8, 45u8, 104u8, 101u8, 108u8, 108u8, 111u8] =~= opt_hello());
                    lemma_read_args_stops(all, i as int + 1);
                }
                return Err(CliExit::Hello);
            } else if bytes_eq(b, &[45u8, 45u8, 109u8, 117u8, 116u8, 101u8, 100u8]) {
                proof {
                    assert(seq![45u8, 45u8, 109u8, 117u8, 116u8, 101u8, 100u8] =~= opt_muted());
                }
                muted = true;
            } else {
                proof {
                    assert(seq![45u8, 104u8] =~= opt_short_help());
                    assert(seq![45u8, 45u8, 104u8, 101u8, 108u8, 112u8] =~= opt_help());
                    assert(seq![45u8, 45u8, 104u8, 101u8, 108u8, 108u8, 111u8] =~= opt_hello());
                    assert(seq![45u8, 45u8, 109u8, 117u8, 116u8, 101u8, 100u8] =~= opt_muted());
                    lemma_read_args_stops(all, i as int + 1);
                }
                return Err(CliExit::UnknownOption(arg.to_owned()));
            }
            i += 1;
        }
        assert(all.subrange(0, i as int) =~= all);
        Ok(Cli { muted, rom_path })
    }
}

/// Once reading stops, the remaining arguments are not read
proof fn lemma_read_args_stops(args: Seq<Seq<u8>>, k: int)
    requires
        0 <= k <= args.len(),
        !(read_args(args.subrange(0, k)) is Going),
    ensures
        read_args(args) == read_args(args.subrange(0, k)),
    decreases args.len() - k,
{
    if k < args.len() {
        let next = args.subrange(0, k + 1);
        assert(next.drop_last() =~= args.subrange(0, k));
        lemma_read_args_stops(args, k + 1);
    } else {
        assert(args.subrange(0, k) =~= args);
    }
}

} // verus!
