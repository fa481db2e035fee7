//! Command-line parsing: `[--gpu-api <opengl|vulkan|auto>] [-h|--help] <video-path>`.

use vstd::prelude::*;

verus! {

/// The options of a wallpaper run.
pub struct Args {
    /// Requested GPU API: `opengl`, `vulkan` or `auto`.
    pub gpu_api: String,
    /// Path of the video to play.
    pub video_path: String,
}

/// What the command line asks for.
pub enum CliOutcome {
    /// Play `video_path` with these options.
    Run(Args),
    /// `-h` or `--help`: print the usage text and exit successfully.
    Help,
    /// `--gpu-api` was the last argument.
    MissingGpuApiValue,
    /// `--gpu-api` was followed by something other than `opengl`, `vulkan` or `auto`.
    InvalidGpuApi,
    /// No video path was given.
    MissingVideoPath,
}

/// The outcome of parsing, over the views of the strings.
pub enum CliModel {
    Run { gpu_api: Seq<char>, video_path: Seq<char> },
    Help,
    MissingGpuApiValue,
    InvalidGpuApi,
    MissingVideoPath,
}

impl View for CliOutcome {
    type V = CliModel;

    open spec fn view(&self) -> CliModel {
        match self {
            CliOutcome::Run(a) => CliModel::Run { gpu_api: a.gpu_api@, video_path: a.video_path@ },
            CliOutcome::Help => CliModel::Help,
            CliOutcome::MissingGpuApiValue => CliModel::MissingGpuApiValue,
            CliOutcome::InvalidGpuApi => CliModel::InvalidGpuApi,
            CliOutcome::MissingVideoPath => CliModel::MissingVideoPath,
        }
    }
}

pub open spec fn gpu_api_flag() -> Seq<char> {
    "--gpu-api"@
}

pub open spec fn is_help_flag(s: Seq<char>) -> bool {
    s == "--help"@ || s == "-h"@
}

/// The values `--gpu-api` accepts.
pub open spec fn is_gpu_api_choice(s: Seq<char>) -> bool {
    s == "opengl"@ || s == "vulkan"@ || s == "auto"@
}

pub open spec fn default_gpu_api() -> Seq<char> {
    "auto"@
}

/// The arguments after the program name, read left to right: `--gpu-api` takes the next
/// argument as its value and the last valid one counts, a help flag ends the reading,
/// and the first other argument is the video path (later ones are ignored).
pub open spec fn scan(rest: Seq<Seq<char>>, gpu_api: Seq<char>, path: Option<Seq<char>>) -> CliModel
    decreases rest.len(),
{
    if rest.len() == 0 {
        match path {
            Some(p) => CliModel::Run { gpu_api, video_path: p },
            None => CliModel::MissingVideoPath,
        }
    } else if rest[0] == gpu_api_flag() {
        if rest.len() < 2 {
            CliModel::MissingGpuApiValue
        } else if !is_gpu_api_choice(rest[1]) {
            CliModel::InvalidGpuApi
        } else {
            scan(rest.skip(2), rest[1], path)
        }
    } else if is_help_flag(rest[0]) {
        CliModel::Help
    } else {
        scan(rest.skip(1), gpu_api, if path is Some { path } else { Some(rest[0]) })
    }
}

/// The outcome of a command line whose first element is the program name.
pub open spec fn parse_model(argv: Seq<Seq<char>>) -> CliModel {
    if argv.len() == 0 {
        scan(argv, default_gpu_api(), None)
    } else {
        scan(argv.skip(1), default_gpu_api(), None)
    }
}

pub open spec fn views(v: Seq<String>) -> Seq<Seq<char>> {
    v.map_values(|s: String| s@)
}


proof fn scan_keeps_valid_gpu_api(rest: Seq<Seq<char>>, g: Seq<char>, path: Option<Seq<char>>)
    requires
        is_gpu_api_choice(g),
    ensures
        scan(rest, g, path) matches CliModel::Run { gpu_api, .. } ==> is_gpu_api_choice(gpu_api),
    decreases rest.len(),
{
    if rest.len() == 0 {
    } else if rest[0] == gpu_api_flag() {
        if rest.len() >= 2 && is_gpu_api_choice(rest[1]) {
            scan_keeps_valid_gpu_api(rest.skip(2), rest[1], path);
        }
    } else if is_help_flag(rest[0]) {
    } else {
        scan_keeps_valid_gpu_api(rest.skip(1), g, if path is Some { path } else { Some(rest[0]) });
    }
}

proof fn scan_without_flag_keeps_gpu_api(rest: Seq<Seq<char>>, g: Seq<char>, path: Option<Seq<char>>)
    requires
        forall|j: int| 0 <= j < rest.len() ==> rest[j] != gpu_api_flag(),
    ensures
        scan(rest, g, path) matches CliModel::Run { gpu_api, .. } ==> gpu_api == g,
    decreases rest.len(),
{
    if rest.len() == 0 {
    } else if is_help_flag(rest[0]) {
    } else {
        assert(rest[0] != gpu_api_flag());
        let next = rest.skip(1);
        assert forall|j: int| 0 <= j < next.len() implies next[j] != gpu_api_flag() by {
            assert(next[j] == rest[j + 1]);
        }
        scan_without_flag_keeps_gpu_api(next, g, if path is Some { path } else { Some(rest[0]) });
    }
}

proof fn scan_path_comes_from_arguments(rest: Seq<Seq<char>>, g: Seq<char>, path: Option<Seq<char>>)
    ensures
        scan(rest, g, path) matches CliModel::Run { video_path, .. } ==> (path == Some(video_path)
            || exists|j: int| 0 <= j < rest.len() && rest[j] == video_path),
    decreases rest.len(),
{
    if rest.len() == 0 {
    } else if rest[0] == gpu_api_flag() {
        if rest.len() >= 2 && is_gpu_api_choice(rest[1]) {
            let next = rest.skip(2);
            scan_path_comes_from_arguments(next, rest[1], path);
            if let CliModel::Run { video_path, .. } = scan(rest, g, path) {
                if path != Some(video_path) {
                    let j = choose|j: int| 0 <= j < next.len() && next[j] == video_path;
                    assert(rest[j + 2] == video_path);
                }
            }
        }
    } else if is_help_flag(rest[0]) {
    } else {
        let next = rest.skip(1);
        let path2 = if path is Some { path } else { Some(rest[0]) };
        scan_path_comes_from_arguments(next, g, path2);
        if let CliModel::Run { video_path, .. } = scan(rest, g, path) {
            if path != Some(video_path) {
                if path2 == Some(video_path) {
                    assert(rest[0] == video_path);
                } else {
                    let j = choose|j: int| 0 <= j < next.len() && next[j] == video_path;
                    assert(rest[j + 1] == video_path);
                }
            }
        }
    }
}

proof fn scan_keeps_first_path(rest: Seq<Seq<char>>, g: Seq<char>, p: Seq<char>)
    ensures
        scan(rest, g, Some(p)) matches CliModel::Run { video_path, .. } ==> video_path == p,
    decreases rest.len(),
{
    if rest.len() == 0 {
    } else if rest[0] == gpu_api_flag() {
        if rest.len() >= 2 && is_gpu_api_choice(rest[1]) {
            scan_keeps_first_path(rest.skip(2), rest[1], p);
        }
    } else if is_help_flag(rest[0]) {
    } else {
        scan_keeps_first_path(rest.skip(1), g, p);
    }
}

/// Whenever the command line is accepted, the GPU API is one of `opengl`, `vulkan`, `auto`.
pub proof fn lemma_accepted_gpu_api_is_a_choice(argv: Seq<Seq<char>>)
    ensures
        parse_model(argv) matches CliModel::Run { gpu_api, .. } ==> is_gpu_api_choice(gpu_api),
{
    reveal_strlit("auto");
    let rest = if argv.len() == 0 { argv } else { argv.skip(1) };
    scan_keeps_valid_gpu_api(rest, default_gpu_api(), None);
}

/// Without a `--gpu-api` argument an accepted command line asks for the GPU API `auto`.
pub proof fn lemma_gpu_api_defaults_to_auto(argv: Seq<Seq<char>>)
    requires
        forall|i: int| 1 <= i < argv.len() ==> argv[i] != gpu_api_flag(),
    ensures
        parse_model(argv) matches CliModel::Run { gpu_api, .. } ==> gpu_api == default_gpu_api(),
{
    if argv.len() == 0 {
        scan_without_flag_keeps_gpu_api(argv, default_gpu_api(), None);
    } else {
        let rest = argv.skip(1);
        assert forall|j: int| 0 <= j < rest.len() implies rest[j] != gpu_api_flag() by {
            assert(rest[j] == argv[j + 1]);
        }
        scan_without_flag_keeps_gpu_api(rest, default_gpu_api(), None);
    }
}

/// The video path of an accepted command line is one of its arguments after the program name.
pub proof fn lemma_video_path_is_an_argument(argv: Seq<Seq<char>>)
    ensures
        parse_model(argv) matches CliModel::Run { video_path, .. } ==> exists|i: int|
            1 <= i < argv.len() && argv[i] == video_path,
{
    if argv.len() == 0 {
        scan_path_comes_from_arguments(argv, default_gpu_api(), None);
    } else {
        let rest = argv.skip(1);
        scan_path_comes_from_arguments(rest, default_gpu_api(), None);
        if let CliModel::Run { video_path, .. } = parse_model(argv) {
            let j = choose|j: int| 0 <= j < rest.len() && rest[j] == video_path;
            assert(argv[j + 1] == video_path);
        }
    }
}

/// When the first argument is neither an option nor a help flag, it is the video path of
/// any accepted command line: later plain arguments do not replace it.
pub proof fn lemma_first_plain_argument_is_video_path(argv: Seq<Seq<char>>)
    requires
        argv.len() >= 2,
        argv[1] != gpu_api_flag(),
        !is_help_flag(argv[1]),
    ensures
        parse_model(argv) matches CliModel::Run { video_path, .. } ==> video_path == argv[1],
{
    let rest = argv.skip(1);
    assert(rest[0] == argv[1]);
    scan_keeps_first_path(rest.skip(1), default_gpu_api(), argv[1]);
}

/// A help flag right after the program name always asks for the usage text.
pub proof fn lemma_leading_help_flag(argv: Seq<Seq<char>>)
    requires
        argv.len() >= 2,
        is_help_flag(argv[1]),
    ensures
        parse_model(argv) == CliModel::Help,
{
    reveal_strlit("--gpu-api");
    reveal_strlit("--help");
    reveal_strlit("-h");
    let rest = argv.skip(1);
    assert(rest[0] == argv[1]);
    assert(rest[0] != gpu_api_flag()) by {
        if rest[0] == "--help"@ {
            assert(rest[0][2] != gpu_api_flag()[2]);
        } else {
            assert(rest[0].len() != gpu_api_flag().len());
        }
    }
}

/// A command line with nothing after the program name names no video.
pub proof fn lemma_no_arguments_no_video(argv: Seq<Seq<char>>)
    requires
        argv.len() <= 1,
    ensures
        parse_model(argv) == CliModel::MissingVideoPath,
{
    if argv.len() == 1 {
        assert(argv.skip(1).len() == 0);
    }
}

/// Whether the arguments hold no help flag where an option or path may stand, and give
/// every `--gpu-api` one of the accepted values.
pub open spec fn well_formed(rest: Seq<Seq<char>>) -> bool
    decreases rest.len(),
{
    if rest.len() == 0 {
        true
    } else if rest[0] == gpu_api_flag() {
        rest.len() >= 2 && is_gpu_api_choice(rest[1]) && well_formed(rest.skip(2))
    } else {
        !is_help_flag(rest[0]) && well_formed(rest.skip(1))
    }
}

/// The first argument that is neither `--gpu-api` nor its value.
pub open spec fn first_plain(rest: Seq<Seq<char>>) -> Option<Seq<char>>
    decreases rest.len(),
{
    if rest.len() == 0 {
        None
    } else if rest[0] == gpu_api_flag() {
        if rest.len() >= 2 { first_plain(rest.skip(2)) } else { None }
    } else {
        Some(rest[0])
    }
}

/// The value of the last `--gpu-api`, or `g` when there is none.
pub open spec fn last_gpu_api(rest: Seq<Seq<char>>, g: Seq<char>) -> Seq<char>
    decreases rest.len(),
{
    if rest.len() == 0 {
        g
    } else if rest[0] == gpu_api_flag() && rest.len() >= 2 {
        last_gpu_api(rest.skip(2), rest[1])
    } else {
        last_gpu_api(rest.skip(1), g)
    }
}

proof fn scan_as_last_and_first(rest: Seq<Seq<char>>, g: Seq<char>, path: Option<Seq<char>>)
    ensures
        (scan(rest, g, path) is Run) <==> (well_formed(rest) && (path is Some || first_plain(rest) is Some)),
        scan(rest, g, path) is Run ==> scan(rest, g, path) == (CliModel::Run {
            gpu_api: last_gpu_api(rest, g),
            video_path: if path is Some { path.unwrap() } else { first_plain(rest).unwrap() },
        }),
    decreases rest.len(),
{
    if rest.len() == 0 {
    } else if rest[0] == gpu_api_flag() {
        if rest.len() >= 2 {
            scan_as_last_and_first(rest.skip(2), rest[1], path);
        }
    } else if is_help_flag(rest[0]) {
    } else {
        let p2 = if path is Some { path } else { Some(rest[0]) };
        scan_as_last_and_first(rest.skip(1), g, p2);
    }
}

/// A command line is accepted exactly when it holds no help flag, every `--gpu-api` has an
/// accepted value, and some other argument remains; then the GPU API is the value of the
/// last `--gpu-api` (`auto` without one) and the video path is the first other argument
/// (an unknown option such as `--x` counts as one).
pub proof fn lemma_accepted_command_lines(argv: Seq<Seq<char>>)
    requires
        argv.len() >= 1,
    ensures
        (parse_model(argv) is Run) <==> (well_formed(argv.skip(1)) && first_plain(argv.skip(1)) is Some),
        parse_model(argv) is Run ==> parse_model(argv) == (CliModel::Run {
            gpu_api: last_gpu_api(argv.skip(1), default_gpu_api()),
            video_path: first_plain(argv.skip(1)).unwrap(),
        }),
{
    scan_as_last_and_first(argv.skip(1), default_gpu_api(), None);
}

proof fn help_flag_is_not_gpu_api_flag(a: Seq<char>)
    requires
        is_help_flag(a),
    ensures
        a != gpu_api_flag(),
{
    reveal_strlit("--gpu-api");
    reveal_strlit("--help");
    reveal_strlit("-h");
    if a == "--help"@ {
        assert(a[2] != gpu_api_flag()[2]);
    } else {
        assert(a.len() != gpu_api_flag().len());
    }
}

proof fn scan_help_after_well_formed_prefix(rest: Seq<Seq<char>>, k: int, g: Seq<char>, p: Option<Seq<char>>)
    requires
        0 <= k < rest.len(),
        well_formed(rest.take(k)),
        is_help_flag(rest[k]),
    ensures
        scan(rest, g, p) == CliModel::Help,
    decreases k,
{
    if k == 0 {
        help_flag_is_not_gpu_api_flag(rest[0]);
    } else {
        let pre = rest.take(k);
        assert(pre[0] == rest[0]);
        if rest[0] == gpu_api_flag() {
            assert(pre.len() >= 2 && is_gpu_api_choice(pre[1]) && well_formed(pre.skip(2)));
            assert(pre[1] == rest[1]);
            let next = rest.skip(2);
            assert(pre.skip(2) =~= next.take(k - 2));
            assert(next[k - 2] == rest[k]);
            scan_help_after_well_formed_prefix(next, k - 2, rest[1], p);
        } else {
            assert(!is_help_flag(pre[0]) && well_formed(pre.skip(1)));
            let next = rest.skip(1);
            assert(pre.skip(1) =~= next.take(k - 1));
            assert(next[k - 1] == rest[k]);
            scan_help_after_well_formed_prefix(next, k - 1, g, if p is Some { p } else { Some(rest[0]) });
        }
    }
}

proof fn scan_missing_path_means_no_plain_argument(rest: Seq<Seq<char>>, g: Seq<char>, p: Option<Seq<char>>)
    ensures
        scan(rest, g, p) == CliModel::MissingVideoPath ==> p is None && first_plain(rest) is None,
    decreases rest.len(),
{
    if rest.len() == 0 {
    } else if rest[0] == gpu_api_flag() {
        if rest.len() >= 2 && is_gpu_api_choice(rest[1]) {
            scan_missing_path_means_no_plain_argument(rest.skip(2), rest[1], p);
        }
    } else if is_help_flag(rest[0]) {
    } else {
        scan_missing_path_means_no_plain_argument(rest.skip(1), g, if p is Some { p } else { Some(rest[0]) });
    }
}

/// A help flag asks for the usage text wherever it stands, before or after the video
/// path, as long as the arguments before it are well formed (no `--gpu-api` before it
/// lacks its value or has an invalid one, which would be reported first).
pub proof fn lemma_help_flag_anywhere(argv: Seq<Seq<char>>, k: int)
    requires
        1 <= k < argv.len(),
        well_formed(argv.subrange(1, k)),
        is_help_flag(argv[k]),
    ensures
        parse_model(argv) == CliModel::Help,
{
    let rest = argv.skip(1);
    assert(rest.take(k - 1) =~= argv.subrange(1, k));
    assert(rest[k - 1] == argv[k]);
    scan_help_after_well_formed_prefix(rest, k - 1, default_gpu_api(), None);
}

/// The video path is reported missing only when no argument other than `--gpu-api` and
/// its values was given.
pub proof fn lemma_missing_path_only_without_plain_argument(argv: Seq<Seq<char>>)
    requires
        argv.len() >= 1,
    ensures
        parse_model(argv) == CliModel::MissingVideoPath ==> first_plain(argv.skip(1)) is None,
{
    scan_missing_path_means_no_plain_argument(argv.skip(1), default_gpu_api(), None);
}

/// Parses a command line whose first element is the program name.
pub fn parse(argv: &Vec<String>) -> (out: CliOutcome)
    ensures
        out@ == parse_model(views(argv@)),
{
    let ghost all = views(argv@);
    let flag = String::from_str("--gpu-api");
    let help_long = String::from_str("--help");
    let help_short = String::from_str("-h");
    let opengl = String::from_str("opengl");
    let vulkan = String::from_str("vulkan");
    let mut gpu_api = String::from_str("auto");
    let mut video_path: Option<String> = None;
    let n = argv.len();
    let mut i: usize = 1;
    proof {
        if n == 0 {
            assert(all =~= Seq::<Seq<char>>::empty().skip(0));
        }
    }
    assert(parse_model(all) == scan(all.skip(if n == 0 { 0 } else { 1 }), gpu_api@, None));
    if n == 0 {
        i = 0;
    }
    while i < n
        invariant
            n == argv.len(),
            all == views(argv@),
            i <= n,
            n > 0 ==> i >= 1,
            flag@ == gpu_api_flag(),
            help_long@ == "--help"@,
            help_short@ == "-h"@,
            opengl@ == "opengl"@,
            vulkan@ == "vulkan"@,
            parse_model(all) == scan(
                all.skip(i as int),
                gpu_api@,
                match video_path { Some(p) => Some(p@), None => None },
            ),
        decreases n - i,
    {
        let ghost rest = all.skip(i as int);
        assert(rest[0] == argv@[i as int]@);
        if argv[i] == flag {
            if i + 1 >= n {
                return CliOutcome::MissingGpuApiValue;
            }
            let value = &argv[i + 1];
            assert(rest[1] == value@);
            proof {
                reveal_strlit("auto");
            }
            let auto_value = String::from_str("auto");
            if !(*value == opengl || *value == vulkan || *value == auto_value) {
                return CliOutcome::InvalidGpuApi;
            }
            gpu_api = value.clone();
            assert(rest.skip(2) =~= all.skip(i + 2));
            i = i + 2;
        } else if argv[i] == help_long || argv[i] == help_short {
            return CliOutcome::Help;
        } else {
            if video_path.is_none() {
                video_path = Some(argv[i].clone());
            }
            assert(rest.skip(1) =~= all.skip(i + 1));
            i = i + 1;
        }
    }
    assert(all.skip(i as int).len() == 0);
    match video_path {
        Some(p) => CliOutcome::Run(Args { gpu_api, video_path: p }),
        None => CliOutcome::MissingVideoPath,
    }
}

/// The process exit status the outcome ends with, or `None` when the wallpaper runs.
pub fn exit_status(out: &CliOutcome) -> (code: Option<i32>)
    ensures
        code == match out {
            CliOutcome::Run(_) => None,
            CliOutcome::Help => Some(0i32),
            _ => Some(1i32),
        },
{
    match out {
        CliOutcome::Run(_) => None,
        CliOutcome::Help => Some(0),
        _ => Some(1),
    }
}

} // verus!
