//! The Nushell adapter's decisions: which arguments reach the `ipscan`
//! backend, which executable runs, and how the command presents itself.

use vstd::prelude::*;
use crate::text::{str_equal, strip_prefix};

verus! {

/// Environment variable used to select the standalone backend executable.
pub const BACKEND_ENV: &'static str = "NU_PLUGIN_IPSCAN_BACKEND";

/// Backend executable looked up on the user's `PATH` when nothing else is
/// configured.
pub const DEFAULT_BACKEND: &'static str = "ipscan";

/// The plugin state is intentionally empty. Each invocation is isolated in a
/// child process, so the backend cannot mutate plugin-global state or the
/// plugin's own namespace.
pub struct IpScanPlugin;

/// A compatibility-oriented structured scan command.
pub struct IpScanCommand;

/// The shape that a parameter's values take.
#[derive(Debug)]
pub enum ParameterShape {
    /// Text.
    String,
}

/// A type of pipeline value.
#[derive(Debug)]
pub enum PipelineType {
    /// No value.
    Nothing,
    /// Any value.
    Any,
}

/// The remaining positional arguments of a command.
#[derive(Debug)]
pub struct RestParameter {
    pub name: &'static str,
    pub shape: ParameterShape,
    pub description: &'static str,
}

/// A named flag; it is a switch when it takes no value.
#[derive(Debug)]
pub struct FlagParameter {
    pub long: &'static str,
    pub short: Option<char>,
    pub shape: Option<ParameterShape>,
    pub description: &'static str,
}

/// The signature under which the command registers with Nushell.
#[derive(Debug)]
pub struct CommandSignature {
    pub name: &'static str,
    pub rest: RestParameter,
    pub flags: Vec<FlagParameter>,
    pub input: PipelineType,
    pub output: PipelineType,
}

impl IpScanCommand {
    /// The command's name.
    pub fn name(&self) -> (r: &'static str)
        ensures
            r@ == "ipscan"@,
    {
        "ipscan"
    }

    /// One line that says what the command does.
    pub fn description(&self) -> (r: &'static str)
        ensures
            r@ == "Scan the local network and return structured host records"@,
    {
        "Scan the local network and return structured host records"
    }

    /// How the command treats its arguments and output.
    pub fn extra_description(&self) -> (r: &'static str)
        ensures
            r@ == "Arguments are passed to ipscan without a shell. JSON output is requested by default and converted to native Nushell values. Set NU_PLUGIN_IPSCAN_BACKEND or use --backend to select the backend executable. Use --raw when exact stdout bytes are required."@,
    {
        "Arguments are passed to ipscan without a shell. JSON output is requested by default and converted to native Nushell values. Set NU_PLUGIN_IPSCAN_BACKEND or use --backend to select the backend executable. Use --raw when exact stdout bytes are required."
    }

    /// Words under which the command is found.
    pub fn search_terms(&self) -> (r: Vec<&'static str>)
        ensures
            r@.len() == 4,
            r@[0]@ == "arp"@,
            r@[1]@ == "scan"@,
            r@[2]@ == "network"@,
            r@[3]@ == "pnet"@,
    {
        vec!["arp", "scan", "network", "pnet"]
    }

    /// The command's parameters: the arguments forwarded to the backend, a
    /// `--raw` switch and a `--backend` option; it takes nothing and returns
    /// any value.
    pub fn signature(&self) -> (r: CommandSignature)
        ensures
            r.name@ == "ipscan"@,
            r.rest.name@ == "arguments"@,
            r.rest.shape is String,
            r.rest.description@
                == "Arguments forwarded to the ipscan backend; JSON output is requested by default"@,
            r.flags@.len() == 2,
            r.flags@[0].long@ == "raw"@,
            r.flags@[0].short is None,
            r.flags@[0].shape is None,
            r.flags@[0].description@
                == "Return backend stdout as a binary value instead of parsing JSON"@,
            r.flags@[1].long@ == "backend"@,
            r.flags@[1].short is None,
            r.flags@[1].shape == Some(ParameterShape::String),
            r.flags@[1].description@
                == "Backend executable path; defaults to NU_PLUGIN_IPSCAN_BACKEND or ipscan"@,
            r.input is Nothing,
            r.output is Any,
    {
        CommandSignature {
            name: self.name(),
            rest: RestParameter {
                name: "arguments",
                shape: ParameterShape::String,
                description: "Arguments forwarded to the ipscan backend; JSON output is requested by default",
            },
            flags: vec![
                FlagParameter {
                    long: "raw",
                    short: None,
                    shape: None,
                    description: "Return backend stdout as a binary value instead of parsing JSON",
                },
                FlagParameter {
                    long: "backend",
                    short: None,
                    shape: Some(ParameterShape::String),
                    description: "Backend executable path; defaults to NU_PLUGIN_IPSCAN_BACKEND or ipscan",
                },
            ],
            input: PipelineType::Nothing,
            output: PipelineType::Any,
        }
    }
}

/// The characters of each argument.
pub open spec fn string_views(args: Seq<String>) -> Seq<Seq<char>> {
    args.map_values(|s: String| s@)
}

/// The output format that the arguments select explicitly: the first
/// argument that is `-o`, `--output` (the format is the following argument,
/// or empty when none follows) or `--output=FORMAT` decides.
pub open spec fn explicit_format(args: Seq<Seq<char>>) -> Option<Seq<char>>
    decreases args.len(),
{
    if args.len() == 0 {
        None
    } else if args[0] == "-o"@ || args[0] == "--output"@ {
        Some(
            if args.len() > 1 {
                args[1]
            } else {
                Seq::empty()
            },
        )
    } else if "--output="@.is_prefix_of(args[0]) {
        Some(args[0].skip("--output="@.len() as int))
    } else {
        explicit_format(args.drop_first())
    }
}

/// The arguments handed to the backend: the caller's, preceded by
/// `--output json` unless the caller asked for raw output or chose a format.
pub open spec fn backend_args(args: Seq<Seq<char>>, raw: bool) -> Seq<Seq<char>> {
    if raw || explicit_format(args) is Some {
        args
    } else {
        seq!["--output"@, "json"@] + args
    }
}

/// The executable that runs: an explicit choice wins, then the configured
/// one, then the sibling of the plugin executable, then `fallback`.
pub open spec fn chosen_backend<S>(
    explicit: Option<S>,
    configured: Option<S>,
    sibling: Option<S>,
    fallback: S,
) -> S {
    match explicit {
        Some(e) => e,
        None => match configured {
            Some(c) => c,
            None => match sibling {
                Some(s) => s,
                None => fallback,
            },
        },
    }
}

/// Return the explicitly selected standalone output format, if present.
pub fn explicit_output_format(arguments: &[String]) -> (r: Option<&str>)
    ensures
        r is None <==> explicit_format(string_views(arguments@)) is None,
        r matches Some(f) ==> explicit_format(string_views(arguments@)) == Some(f@),
{
    let ghost args = string_views(arguments@);
    proof {
        reveal_strlit("-o");
        reveal_strlit("--output");
        reveal_strlit("--output=");
    }
    let mut index: usize = 0;
    assert(args.skip(0) =~= args);
    while index < arguments.len()
        invariant
            index <= arguments@.len(),
            args == string_views(arguments@),
            explicit_format(args) == explicit_format(args.skip(index as int)),
        decreases arguments@.len() - index,
    {
        let argument = arguments[index].as_str();
        assert(args.skip(index as int)[0] == argument@);
        if str_equal(argument, "-o") || str_equal(argument, "--output") {
            if index + 1 < arguments.len() {
                assert(args.skip(index as int)[1] == arguments@[index + 1]@);
                return Some(arguments[index + 1].as_str());
            } else {
                let empty = "";
                proof {
                    reveal_strlit("");
                }
                assert(empty@ =~= Seq::<char>::empty());
                assert(args.skip(index as int).len() == 1);
                return Some(empty);
            }
        }
        if let Some(format) = strip_prefix(argument, "--output=") {
            return Some(format);
        }
        assert(args.skip(index as int).drop_first() =~= args.skip(index + 1));
        index = index + 1;
    }
    assert(args.skip(index as int) =~= Seq::<Seq<char>>::empty());
    None
}

/// Add the backend's structured-output switch unless the caller explicitly
/// selected raw output or another output format. The standalone `ipscan` CLI
/// uses `--output json` for the plugin transport.
pub fn backend_arguments(arguments: &[String], raw: bool) -> (r: Vec<String>)
    ensures
        string_views(r@) == backend_args(string_views(arguments@), raw),
        raw || explicit_format(string_views(arguments@)) is Some ==> r@ == arguments@,
        !(raw || explicit_format(string_views(arguments@)) is Some) ==> {
            &&& r@.len() == arguments@.len() + 2
            &&& r@[0]@ == "--output"@
            &&& r@[1]@ == "json"@
            &&& r@.skip(2) == arguments@
        },
{
    let add_json = !raw && explicit_output_format(arguments).is_none();
    let mut result: Vec<String> = Vec::new();
    if add_json {
        proof {
            reveal_strlit("--output");
            reveal_strlit("json");
        }
        result.push("--output".to_owned());
        result.push("json".to_owned());
    }
    let ghost offset: int = if add_json { 2 } else { 0 };
    let mut index: usize = 0;
    while index < arguments.len()
        invariant
            index <= arguments@.len(),
            offset == (if add_json { 2int } else { 0int }),
            result@.len() == offset + index,
            add_json ==> result@[0]@ == "--output"@ && result@[1]@ == "json"@,
            forall|k: int| 0 <= k < index ==> result@[offset + k] == arguments@[k],
        decreases arguments@.len() - index,
    {
        result.push(arguments[index].clone());
        index = index + 1;
    }
    assert(result@.skip(offset) =~= arguments@);
    if add_json {
        assert(string_views(result@) =~= seq!["--output"@, "json"@] + string_views(arguments@));
    } else {
        assert(result@ =~= arguments@);
    }
    result
}

/// The backend receives the caller's arguments unchanged when raw output is
/// requested or a format is chosen, and otherwise receives `--output json`
/// in front of them, nothing else and nothing dropped.
pub proof fn lemma_backend_args_forward(args: Seq<Seq<char>>, raw: bool)
    ensures
        raw ==> backend_args(args, raw) == args,
        explicit_format(args) is Some ==> backend_args(args, raw) == args,
        !raw && explicit_format(args) is None ==> {
            &&& backend_args(args, raw).len() == args.len() + 2
            &&& backend_args(args, raw)[0] == "--output"@
            &&& backend_args(args, raw)[1] == "json"@
            &&& backend_args(args, raw).skip(2) == args
        },
{
    if !raw && explicit_format(args) is None {
        assert((seq!["--output"@, "json"@] + args).skip(2) =~= args);
    }
}

/// Requesting JSON twice adds the switch once: the arguments that the
/// backend receives already select a format, so preparing them again
/// changes nothing.
pub proof fn lemma_backend_args_idempotent(args: Seq<Seq<char>>, raw: bool)
    ensures
        backend_args(backend_args(args, raw), raw) == backend_args(args, raw),
{
    lemma_backend_args_select_format(args);
}

/// Unless raw output was requested, the backend always receives an explicit
/// output format: the caller's own when the caller chose one, JSON
/// otherwise.
pub proof fn lemma_backend_args_select_format(args: Seq<Seq<char>>)
    ensures
        explicit_format(backend_args(args, false)) == Some(
            match explicit_format(args) {
                Some(f) => f,
                None => "json"@,
            },
        ),
{
    if explicit_format(args) is None {
        let prepared = seq!["--output"@, "json"@] + args;
        assert(prepared[0] == "--output"@);
        assert(prepared[1] == "json"@);
    }
}

/// The first argument that selects a format decides it: `-o F` and
/// `--output F` select `F` (nothing when no argument follows),
/// `--output=F` selects `F`, and any other argument defers to the ones after
/// it; without such an argument no format is selected.
pub proof fn lemma_first_selection_decides(
    f: Seq<char>,
    a: Seq<char>,
    rest: Seq<Seq<char>>,
)
    ensures
        explicit_format(Seq::empty()) is None,
        explicit_format(seq!["-o"@, f] + rest) == Some(f),
        explicit_format(seq!["--output"@, f] + rest) == Some(f),
        explicit_format(seq!["-o"@]) == Some(Seq::<char>::empty()),
        explicit_format(seq!["--output"@]) == Some(Seq::<char>::empty()),
        explicit_format(seq!["--output="@ + f] + rest) == Some(f),
        !(a == "-o"@ || a == "--output"@ || "--output="@.is_prefix_of(a)) ==> explicit_format(
            seq![a] + rest,
        ) == explicit_format(rest),
{
    let p = "--output="@;
    reveal_strlit("--output=");
    reveal_strlit("--output");
    reveal_strlit("-o");
    assert((p + f).len() != "-o"@.len());
    assert((p + f).len() != "--output"@.len());
    assert((p + f).take(p.len() as int) =~= p);
    assert((p + f).skip(p.len() as int) =~= f);
    assert((seq![p + f] + rest)[0] == p + f);
    assert((seq!["-o"@, f] + rest)[0] == "-o"@);
    assert((seq!["-o"@, f] + rest)[1] == f);
    assert((seq!["--output"@, f] + rest)[0] == "--output"@);
    assert((seq!["--output"@, f] + rest)[1] == f);
    assert((seq![a] + rest)[0] == a);
    assert((seq![a] + rest).drop_first() =~= rest);
}

/// Precedence of the backend executable: an explicit choice always wins;
/// without one the configured executable wins; without either the sibling
/// of the plugin wins; only when none is given is the fallback used.
pub proof fn lemma_backend_precedence<S>(
    explicit: Option<S>,
    configured: Option<S>,
    sibling: Option<S>,
    fallback: S,
)
    ensures
        explicit matches Some(e) ==> chosen_backend(explicit, configured, sibling, fallback) == e,
        explicit is None ==> (configured matches Some(c) ==> chosen_backend(
            explicit,
            configured,
            sibling,
            fallback,
        ) == c),
        explicit is None && configured is None ==> (sibling matches Some(s) ==> chosen_backend(
            explicit,
            configured,
            sibling,
            fallback,
        ) == s),
        explicit is None && configured is None && sibling is None ==> chosen_backend(
            explicit,
            configured,
            sibling,
            fallback,
        ) == fallback,
{
}

/// Resolve the backend executable used by a plugin invocation.
///
/// An explicit `--backend` path wins, followed by the value of
/// [`BACKEND_ENV`]. When the plugin executable lives beside an `ipscan`
/// binary (`sibling`, given only when that file exists), that sibling is used
/// before falling back to the user's `PATH` (`fallback`, normally
/// [`DEFAULT_BACKEND`]).
pub fn resolve_backend<S>(
    explicit: Option<S>,
    configured: Option<S>,
    sibling: Option<S>,
    fallback: S,
) -> (r: S)
    ensures
        r == chosen_backend(explicit, configured, sibling, fallback),
{
    if let Some(explicit) = explicit {
        return explicit;
    }
    if let Some(configured) = configured {
        return configured;
    }
    if let Some(sibling) = sibling {
        return sibling;
    }
    fallback
}

/// The file name of the backend executable that may sit beside the plugin.
pub fn backend_file_name(windows: bool) -> (r: &'static str)
    ensures
        r@ == (if windows { "ipscan.exe"@ } else { "ipscan"@ }),
{
    if windows {
        "ipscan.exe"
    } else {
        "ipscan"
    }
}

} // verus!
