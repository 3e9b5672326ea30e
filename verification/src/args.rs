use crate::text::text_is;
use vstd::prelude::*;

verus! {

/// The command line of the daemon.
#[derive(Debug)]
pub struct Args {
    pub mode: RunMode,
}

/// Where the listening socket of the daemon comes from.
#[derive(Debug, Clone, Copy, PartialEq, Eq, Structural)]
pub enum RunMode {
    /// systemd passes the socket (`sd_listen_fds`).
    Systemd,
    /// The daemon listens on its development socket path.
    Dev,
}

/// Why a command line was refused.
#[derive(Debug)]
pub enum ArgsError {
    /// An argument that is neither `--systemd` nor `--dev` (the first one).
    UnknownArgument(String),
    /// Neither `--systemd` nor `--dev` was given.
    MissingMode,
}

/// The mathematical value of an [`ArgsError`].
pub enum ArgsErrorView {
    UnknownArgument(Seq<char>),
    MissingMode,
}

impl View for ArgsError {
    type V = ArgsErrorView;

    open spec fn view(&self) -> ArgsErrorView {
        match self {
            ArgsError::UnknownArgument(a) => ArgsErrorView::UnknownArgument(a@),
            ArgsError::MissingMode => ArgsErrorView::MissingMode,
        }
    }
}

/// `--systemd`
pub open spec fn systemd_flag() -> Seq<char> {
    seq!['-', '-', 's', 'y', 's', 't', 'e', 'm', 'd']
}

/// `--dev`
pub open spec fn dev_flag() -> Seq<char> {
    seq!['-', '-', 'd', 'e', 'v']
}

/// Reads the arguments left to right, starting from `mode`: each flag sets the mode (the last
/// one wins), and the first other argument is the error.
pub open spec fn scan_args(args: Seq<Seq<char>>, mode: Option<RunMode>) -> Result<
    Option<RunMode>,
    Seq<char>,
>
    decreases args.len(),
{
    if args.len() == 0 {
        Ok(mode)
    } else if args[0] == systemd_flag() {
        scan_args(args.drop_first(), Some(RunMode::Systemd))
    } else if args[0] == dev_flag() {
        scan_args(args.drop_first(), Some(RunMode::Dev))
    } else {
        Err(args[0])
    }
}

/// What a command line means.
pub open spec fn spec_parse(args: Seq<Seq<char>>) -> Result<RunMode, ArgsErrorView> {
    match scan_args(args, None) {
        Err(a) => Err(ArgsErrorView::UnknownArgument(a)),
        Ok(None) => Err(ArgsErrorView::MissingMode),
        Ok(Some(m)) => Ok(m),
    }
}

/// The texts of a list of strings.
pub open spec fn string_views(args: Seq<String>) -> Seq<Seq<char>> {
    args.map_values(|a: String| a@)
}

proof fn lemma_scan_args_step(args: Seq<Seq<char>>, i: int, mode: Option<RunMode>, next: Option<
    RunMode,
>)
    requires
        0 <= i < args.len(),
        args[i] == systemd_flag() ==> next == Some(RunMode::Systemd),
        args[i] == dev_flag() ==> next == Some(RunMode::Dev),
        args[i] == systemd_flag() || args[i] == dev_flag(),
    ensures
        scan_args(args.skip(i), mode) == scan_args(args.skip(i + 1), next),
{
    assert(args.skip(i)[0] == args[i]);
    assert(args.skip(i).drop_first() =~= args.skip(i + 1));
}

impl Args {
    /// Reads the command line (the arguments after the program name).
    pub fn parse(args: Vec<String>) -> (r: Result<Args, ArgsError>)
        ensures
            match spec_parse(string_views(args@)) {
                Ok(m) => r matches Ok(a) && a.mode == m,
                Err(e) => r matches Err(err) && err@ == e,
            },
    {
        let ghost all = string_views(args@);
        let systemd = vec!['-', '-', 's', 'y', 's', 't', 'e', 'm', 'd'];
        let dev = vec!['-', '-', 'd', 'e', 'v'];
        assert(systemd@ =~= systemd_flag());
        assert(dev@ =~= dev_flag());
        let mut mode: Option<RunMode> = None;
        let mut i: usize = 0;
        assert(all.skip(0) =~= all);
        while i < args.len()
            invariant
                all == string_views(args@),
                systemd@ == systemd_flag(),
                dev@ == dev_flag(),
                i <= args@.len(),
                scan_args(all, None) == scan_args(all.skip(i as int), mode),
            decreases args@.len() - i,
        {
            let arg = &args[i];
            assert(all[i as int] == arg@);
            if text_is(arg.as_str(), &systemd) {
                proof {
                    lemma_scan_args_step(all, i as int, mode, Some(RunMode::Systemd));
                }
                mode = Some(RunMode::Systemd);
            } else if text_is(arg.as_str(), &dev) {
                proof {
                    lemma_scan_args_step(all, i as int, mode, Some(RunMode::Dev));
                }
                mode = Some(RunMode::Dev);
            } else {
                assert(all.skip(i as int)[0] == all[i as int]);
                return Err(ArgsError::UnknownArgument(arg.clone()));
            }
            i = i + 1;
        }
        assert(all.skip(i as int).len() == 0);
        match mode {
            Some(mode) => Ok(Args { mode }),
            None => Err(ArgsError::MissingMode),
        }
    }
}


/// An argument that is one of the two flags.
pub open spec fn is_flag(a: Seq<char>) -> bool {
    a == systemd_flag() || a == dev_flag()
}

/// The mode that a flag selects.
pub open spec fn flag_mode(a: Seq<char>) -> RunMode {
    if a == systemd_flag() {
        RunMode::Systemd
    } else {
        RunMode::Dev
    }
}

proof fn lemma_scan_args_stops_at_unknown(args: Seq<Seq<char>>, mode: Option<RunMode>, i: int)
    requires
        0 <= i < args.len(),
        !is_flag(args[i]),
        forall|k: int| 0 <= k < i ==> is_flag(#[trigger] args[k]),
    ensures
        scan_args(args, mode) == Err::<Option<RunMode>, Seq<char>>(args[i]),
    decreases i,
{
    if i > 0 {
        assert(is_flag(args[0]));
        let rest = args.drop_first();
        assert forall|k: int| 0 <= k < i - 1 implies is_flag(#[trigger] rest[k]) by {
            assert(rest[k] == args[k + 1]);
        }
        lemma_scan_args_stops_at_unknown(rest, Some(flag_mode(args[0])), i - 1);
    }
}

proof fn lemma_scan_args_ok(args: Seq<Seq<char>>, mode: Option<RunMode>)
    ensures
        scan_args(args, mode) is Ok ==> forall|k: int| 0 <= k < args.len() ==> is_flag(#[trigger] args[k]),
        scan_args(args, mode) is Ok ==> scan_args(args, mode) == Ok::<Option<RunMode>, Seq<char>>(
            if args.len() == 0 {
                mode
            } else {
                Some(flag_mode(args.last()))
            },
        ),
    decreases args.len(),
{
    if args.len() > 0 && is_flag(args[0]) {
        let rest = args.drop_first();
        lemma_scan_args_ok(rest, Some(flag_mode(args[0])));
        if scan_args(args, mode) is Ok {
            assert forall|k: int| 0 <= k < args.len() implies is_flag(#[trigger] args[k]) by {
                if k > 0 {
                    assert(args[k] == rest[k - 1]);
                }
            }
            if rest.len() > 0 {
                assert(rest.last() == args.last());
            }
        }
    }
}

/// A command line with an argument that is neither `--systemd` nor `--dev` is refused, naming
/// the first such argument.
pub proof fn lemma_parse_refuses_first_unknown(args: Seq<Seq<char>>, i: int)
    requires
        0 <= i < args.len(),
        !is_flag(args[i]),
        forall|k: int| 0 <= k < i ==> is_flag(#[trigger] args[k]),
    ensures
        spec_parse(args) == Err::<RunMode, ArgsErrorView>(ArgsErrorView::UnknownArgument(args[i])),
{
    lemma_scan_args_stops_at_unknown(args, None, i);
}

/// A command line is accepted exactly when it is a non-empty list of flags, and then the last
/// flag decides the mode; an empty command line is refused for lack of a mode.
pub proof fn lemma_parse_accepts_only_flags(args: Seq<Seq<char>>)
    ensures
        spec_parse(args) is Ok ==> args.len() > 0 && (forall|k: int|
            0 <= k < args.len() ==> is_flag(#[trigger] args[k])),
        spec_parse(args) matches Ok(m) ==> m == flag_mode(args.last()),
        (args.len() > 0 && forall|k: int| 0 <= k < args.len() ==> is_flag(#[trigger] args[k]))
            ==> spec_parse(args) == Ok::<RunMode, ArgsErrorView>(flag_mode(args.last())),
        args.len() == 0 ==> spec_parse(args) == Err::<RunMode, ArgsErrorView>(
            ArgsErrorView::MissingMode,
        ),
{
    lemma_scan_args_ok(args, None);
    if args.len() > 0 && forall|k: int| 0 <= k < args.len() ==> is_flag(#[trigger] args[k]) {
        lemma_scan_args_all_flags(args, None);
    }
}

proof fn lemma_scan_args_all_flags(args: Seq<Seq<char>>, mode: Option<RunMode>)
    requires
        forall|k: int| 0 <= k < args.len() ==> is_flag(#[trigger] args[k]),
    ensures
        scan_args(args, mode) is Ok,
    decreases args.len(),
{
    if args.len() > 0 {
        assert(is_flag(args[0]));
        let rest = args.drop_first();
        assert forall|k: int| 0 <= k < rest.len() implies is_flag(#[trigger] rest[k]) by {
            assert(rest[k] == args[k + 1]);
        }
        lemma_scan_args_all_flags(rest, Some(flag_mode(args[0])));
    }
}

} // verus!
