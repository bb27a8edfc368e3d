//! The pipeline as data: every external effect of a run is described by an
//! `Action`, and a whole run is a fixed sequence of stage-tagged actions
//! computed once from the resolved target. Assembling the sequence is pure
//! and verified; an unverified driver performs the actions in order.

use vstd::prelude::*;
use vstd::string::StringExecFns;
use crate::overrides::OVERRIDE_BLOCK;
use crate::target::{rpi_model, x86_64_model, TargetSpec, TargetSpecModel};
use crate::text::{dec_rep, decimal_string, last_segment, last_segment_of, strip_suffix, strip_suffix_of};

verus! {

/// The version-pinned source archive every run starts from.
pub const KERNEL_URL: &'static str = "https://cdn.kernel.org/pub/linux/kernel/v6.x/linux-6.15.4.tar.xz";

/// An external command: program, ordered arguments, and whether standard
/// input is attached. The pipeline never attaches standard input, so no
/// child process can stall it waiting for a prompt.
#[derive(Clone, Debug)]
pub struct ProcessInvocation {
    pub program: String,
    pub args: Vec<String>,
    pub stdin_enabled: bool,
}

/// The mathematical value of a `ProcessInvocation`.
#[verifier::ext_equal]
pub struct InvocationModel {
    pub program: Seq<char>,
    pub args: Seq<Seq<char>>,
    pub stdin_enabled: bool,
}

/// The views of a sequence of strings.
pub open spec fn views_of_strings(v: Seq<String>) -> Seq<Seq<char>> {
    v.map_values(|s: String| s@)
}

impl View for ProcessInvocation {
    type V = InvocationModel;

    open spec fn view(&self) -> InvocationModel {
        InvocationModel {
            program: self.program@,
            args: views_of_strings(self.args@),
            stdin_enabled: self.stdin_enabled,
        }
    }
}

impl ProcessInvocation {
    /// A new invocation with standard input disabled and no arguments yet.
    pub fn no_stdin(program: &str) -> (r: Self)
        ensures
            r@ == (InvocationModel {
                program: program@,
                args: Seq::empty(),
                stdin_enabled: false,
            }),
    {
        let r = ProcessInvocation {
            program: String::from_str(program),
            args: Vec::new(),
            stdin_enabled: false,
        };
        proof {
            assert(r@ =~= (InvocationModel {
                program: program@,
                args: Seq::empty(),
                stdin_enabled: false,
            }));
        }
        r
    }

    /// Adds one argument at the end of the argument list.
    pub fn arg(&mut self, a: String)
        ensures
            final(self)@ == (InvocationModel {
                args: old(self)@.args.push(a@),
                ..old(self)@
            }),
    {
        let ghost a_view = a@;
        self.args.push(a);
        proof {
            assert(self@.args =~= old(self)@.args.push(a_view));
            assert(self@ =~= (InvocationModel { args: old(self)@.args.push(a_view), ..old(self)@ }));
        }
    }
}

/// One stage of the pipeline, in their fixed downstream order.
#[derive(Clone, Copy, Debug, PartialEq, Eq, Structural)]
pub enum Stage {
    Fetch,
    Unpack,
    Configure,
    Build,
    Collect,
    Clean,
}

/// The position of a stage in the pipeline's fixed order.
pub open spec fn stage_index(s: Stage) -> int {
    match s {
        Stage::Fetch => 0,
        Stage::Unpack => 1,
        Stage::Configure => 2,
        Stage::Build => 3,
        Stage::Collect => 4,
        Stage::Clean => 5,
    }
}

/// One external effect the driver is asked to perform. Paths are relative
/// to the invocation's original working directory, except between `EnterDir`
/// and `LeaveDir`, where they are relative to the entered directory.
#[derive(Clone, Debug)]
pub enum Action {
    /// Download a URL into a newly created local file.
    Fetch { url: String, dest: String },
    /// Run an external command and wait for it to exit.
    Run { invocation: ProcessInvocation },
    /// Open a file in append mode and write the text at its end, verbatim.
    AppendFile { path: String, text: String },
    /// Copy a file, permission bits included.
    CopyFile { source: String, dest: String },
    /// Remove a file.
    RemoveFile { path: String },
    /// Remove a directory tree.
    RemoveDirAll { path: String },
    /// Enter a directory, remembering the current one.
    EnterDir { path: String },
    /// Return to the directory remembered by `EnterDir`.
    LeaveDir,
}

/// The mathematical value of an `Action`.
#[verifier::ext_equal]
pub enum ActionModel {
    Fetch { url: Seq<char>, dest: Seq<char> },
    Run { invocation: InvocationModel },
    AppendFile { path: Seq<char>, text: Seq<char> },
    CopyFile { source: Seq<char>, dest: Seq<char> },
    RemoveFile { path: Seq<char> },
    RemoveDirAll { path: Seq<char> },
    EnterDir { path: Seq<char> },
    LeaveDir,
}

impl View for Action {
    type V = ActionModel;

    open spec fn view(&self) -> ActionModel {
        match self {
            Action::Fetch { url, dest } => ActionModel::Fetch { url: url@, dest: dest@ },
            Action::Run { invocation } => ActionModel::Run { invocation: invocation@ },
            Action::AppendFile { path, text } => ActionModel::AppendFile {
                path: path@,
                text: text@,
            },
            Action::CopyFile { source, dest } => ActionModel::CopyFile {
                source: source@,
                dest: dest@,
            },
            Action::RemoveFile { path } => ActionModel::RemoveFile { path: path@ },
            Action::RemoveDirAll { path } => ActionModel::RemoveDirAll { path: path@ },
            Action::EnterDir { path } => ActionModel::EnterDir { path: path@ },
            Action::LeaveDir => ActionModel::LeaveDir,
        }
    }
}

/// One step of the plan: an action, tagged with the stage it belongs to.
#[derive(Clone, Debug)]
pub struct PlanStep {
    pub stage: Stage,
    pub action: Action,
}

/// The mathematical value of a `PlanStep`.
#[verifier::ext_equal]
pub struct PlanStepModel {
    pub stage: Stage,
    pub action: ActionModel,
}

impl View for PlanStep {
    type V = PlanStepModel;

    open spec fn view(&self) -> PlanStepModel {
        PlanStepModel { stage: self.stage, action: self.action@ }
    }
}

/// The views of a sequence of plan steps.
pub open spec fn views_of_steps(v: Seq<PlanStep>) -> Seq<PlanStepModel> {
    v.map_values(|s: PlanStep| s@)
}

/// The local file the archive is downloaded into: the URL's final segment.
pub open spec fn spec_archive_name() -> Seq<char> {
    last_segment(KERNEL_URL@)
}

/// The directory the archive unpacks into: by the upstream naming
/// convention, the archive name with its compression+tar suffix stripped.
pub open spec fn spec_work_dir() -> Seq<char> {
    strip_suffix(spec_archive_name(), ".tar.xz"@)
}

/// A kernel build-system invocation, standard input disabled.
pub open spec fn spec_make_invocation(args: Seq<Seq<char>>) -> InvocationModel {
    InvocationModel { program: "make"@, args, stdin_enabled: false }
}

/// The architecture parameter every build-system invocation carries.
pub open spec fn spec_arch_arg(t: TargetSpecModel) -> Seq<char> {
    "ARCH="@ + t.build_arch
}

/// The four configuration stages, in their load-bearing order: generate the
/// architecture default, minimize the module set, append the override block
/// verbatim, then re-resolve option dependencies non-interactively.
pub open spec fn spec_config_steps(t: TargetSpecModel) -> Seq<PlanStepModel> {
    seq![
        PlanStepModel {
            stage: Stage::Configure,
            action: ActionModel::Run {
                invocation: spec_make_invocation(seq![spec_arch_arg(t), "defconfig"@]),
            },
        },
        PlanStepModel {
            stage: Stage::Configure,
            action: ActionModel::Run {
                invocation: spec_make_invocation(seq![spec_arch_arg(t), "mod2noconfig"@]),
            },
        },
        PlanStepModel {
            stage: Stage::Configure,
            action: ActionModel::AppendFile { path: ".config"@, text: OVERRIDE_BLOCK@ },
        },
        PlanStepModel {
            stage: Stage::Configure,
            action: ActionModel::Run {
                invocation: spec_make_invocation(seq![spec_arch_arg(t), "olddefconfig"@]),
            },
        },
    ]
}

/// The build invocation's arguments: architecture, the cross-toolchain
/// prefix when the target has one, the image target, the device-tree target
/// when the target declares blobs, the modules target, and the parallelism
/// hint.
pub open spec fn spec_build_args(t: TargetSpecModel, jobs: usize) -> Seq<Seq<char>> {
    seq![spec_arch_arg(t)] + (match t.cross {
        Some(c) => seq!["CROSS_COMPILE="@ + c],
        None => Seq::<Seq<char>>::empty(),
    }) + seq![t.image] + (if t.dtbs.len() > 0 {
        seq!["dtbs"@]
    } else {
        Seq::<Seq<char>>::empty()
    }) + seq!["modules"@, "-j"@ + dec_rep(jobs as nat)]
}

/// The single build step.
pub open spec fn spec_build_step(t: TargetSpecModel, jobs: usize) -> PlanStepModel {
    PlanStepModel {
        stage: Stage::Build,
        action: ActionModel::Run { invocation: spec_make_invocation(spec_build_args(t, jobs)) },
    }
}

/// Where the build leaves the image, relative to the original directory.
pub open spec fn spec_image_source(t: TargetSpecModel) -> Seq<char> {
    spec_work_dir() + "/arch/"@ + t.build_arch + "/boot/"@ + t.image
}

/// The stable output name of the image, parameterized by the token.
pub open spec fn spec_image_dest(t: TargetSpecModel) -> Seq<char> {
    "vmlinuz-"@ + t.token
}

/// The copy of one declared device-tree blob out of the working tree to its
/// fixed destination name.
pub open spec fn spec_dtb_step(p: crate::target::DtbPairModel) -> PlanStepModel {
    PlanStepModel {
        stage: Stage::Collect,
        action: ActionModel::CopyFile { source: spec_work_dir() + "/"@ + p.source, dest: p.dest },
    }
}

/// The collection steps: the image copy, then one copy per declared
/// device-tree blob, each to its fixed destination name.
pub open spec fn spec_collect_steps(t: TargetSpecModel) -> Seq<PlanStepModel> {
    seq![
        PlanStepModel {
            stage: Stage::Collect,
            action: ActionModel::CopyFile { source: spec_image_source(t), dest: spec_image_dest(t) },
        },
    ] + t.dtbs.map_values(|p: crate::target::DtbPairModel| spec_dtb_step(p))
}

/// The whole plan of a run, strictly downstream: fetch, unpack, enter the
/// working tree, the four configuration stages, the build, leave the tree,
/// collect the artifacts, then remove the archive and the working tree.
pub open spec fn spec_plan(t: TargetSpecModel, jobs: usize) -> Seq<PlanStepModel> {
    seq![
        PlanStepModel {
            stage: Stage::Fetch,
            action: ActionModel::Fetch { url: KERNEL_URL@, dest: spec_archive_name() },
        },
        PlanStepModel {
            stage: Stage::Unpack,
            action: ActionModel::Run {
                invocation: InvocationModel {
                    program: "tar"@,
                    args: seq!["xf"@, spec_archive_name()],
                    stdin_enabled: false,
                },
            },
        },
        PlanStepModel { stage: Stage::Configure, action: ActionModel::EnterDir { path: spec_work_dir() } },
    ] + spec_config_steps(t) + seq![
        spec_build_step(t, jobs),
        PlanStepModel { stage: Stage::Build, action: ActionModel::LeaveDir },
    ] + spec_collect_steps(t) + seq![
        PlanStepModel { stage: Stage::Clean, action: ActionModel::RemoveFile { path: spec_archive_name() } },
        PlanStepModel { stage: Stage::Clean, action: ActionModel::RemoveDirAll { path: spec_work_dir() } },
    ]
}

/// The local file name the archive is downloaded into.
pub fn archive_name() -> (r: String)
    ensures
        r@ == spec_archive_name(),
{
    last_segment_of(KERNEL_URL)
}

/// The directory the archive unpacks into.
pub fn work_dir_name() -> (r: String)
    ensures
        r@ == spec_work_dir(),
{
    let archive = archive_name();
    strip_suffix_of(archive.as_str(), ".tar.xz")
}

fn arch_arg(t: &TargetSpec) -> (r: String)
    ensures
        r@ == spec_arch_arg(t@),
{
    String::from_str("ARCH=").concat(t.build_arch.as_str())
}

fn make_invocation(args: Vec<String>) -> (r: ProcessInvocation)
    ensures
        r@ == spec_make_invocation(views_of_strings(args@)),
{
    ProcessInvocation { program: String::from_str("make"), args, stdin_enabled: false }
}

fn make_run(stage: Stage, args: Vec<String>) -> (r: PlanStep)
    ensures
        r@ == (PlanStepModel {
            stage,
            action: ActionModel::Run { invocation: spec_make_invocation(views_of_strings(args@)) },
        }),
{
    PlanStep { stage, action: Action::Run { invocation: make_invocation(args) } }
}

/// The four configuration steps for a target.
pub fn config_steps(t: &TargetSpec) -> (r: Vec<PlanStep>)
    ensures
        views_of_steps(r@) == spec_config_steps(t@),
{
    let mut steps: Vec<PlanStep> = Vec::new();

    let mut defconfig_args: Vec<String> = Vec::new();
    defconfig_args.push(arch_arg(t));
    defconfig_args.push(String::from_str("defconfig"));
    steps.push(make_run(Stage::Configure, defconfig_args));

    let mut mod2noconfig_args: Vec<String> = Vec::new();
    mod2noconfig_args.push(arch_arg(t));
    mod2noconfig_args.push(String::from_str("mod2noconfig"));
    steps.push(make_run(Stage::Configure, mod2noconfig_args));

    steps.push(PlanStep {
        stage: Stage::Configure,
        action: Action::AppendFile {
            path: String::from_str(".config"),
            text: String::from_str(OVERRIDE_BLOCK),
        },
    });

    let mut olddefconfig_args: Vec<String> = Vec::new();
    olddefconfig_args.push(arch_arg(t));
    olddefconfig_args.push(String::from_str("olddefconfig"));
    steps.push(make_run(Stage::Configure, olddefconfig_args));

    proof {
        assert(views_of_steps(steps@) =~~= spec_config_steps(t@));
    }
    steps
}

fn build_args(t: &TargetSpec, jobs: usize) -> (r: Vec<String>)
    ensures
        views_of_strings(r@) == spec_build_args(t@, jobs),
{
    let mut args: Vec<String> = Vec::new();
    args.push(arch_arg(t));
    match &t.cross {
        Some(c) => {
            args.push(String::from_str("CROSS_COMPILE=").concat(c.as_str()));
        },
        None => {},
    }
    args.push(t.image.clone());
    if t.dtbs.len() > 0 {
        args.push(String::from_str("dtbs"));
    }
    args.push(String::from_str("modules"));
    let jobs_arg = String::from_str("-j").concat(decimal_string(jobs).as_str());
    args.push(jobs_arg);
    proof {
        assert(views_of_strings(args@) =~~= spec_build_args(t@, jobs));
    }
    args
}

/// The single build step for a target and a parallelism hint.
pub fn build_step(t: &TargetSpec, jobs: usize) -> (r: PlanStep)
    ensures
        r@ == spec_build_step(t@, jobs),
{
    let r = make_run(Stage::Build, build_args(t, jobs));
    proof {
        assert(r@ =~~= spec_build_step(t@, jobs));
    }
    r
}

/// The collection steps for a target.
pub fn collect_steps(t: &TargetSpec) -> (r: Vec<PlanStep>)
    ensures
        views_of_steps(r@) == spec_collect_steps(t@),
{
    let workdir = work_dir_name();
    let mut steps: Vec<PlanStep> = Vec::new();

    let mut image_source = workdir.clone();
    image_source.append("/arch/");
    image_source.append(t.build_arch.as_str());
    image_source.append("/boot/");
    image_source.append(t.image.as_str());
    let image_dest = String::from_str("vmlinuz-").concat(t.token.as_str());
    steps.push(PlanStep {
        stage: Stage::Collect,
        action: Action::CopyFile { source: image_source, dest: image_dest },
    });
    proof {
        assert(views_of_steps(steps@) =~~= spec_collect_steps(t@).subrange(0, 1));
    }

    let mut i: usize = 0;
    while i < t.dtbs.len()
        invariant
            i <= t.dtbs@.len(),
            spec_collect_steps(t@).len() == 1 + t.dtbs@.len(),
            views_of_steps(steps@) == spec_collect_steps(t@).subrange(0, 1 + i as int),
            workdir@ == spec_work_dir(),
        decreases t.dtbs@.len() - i,
    {
        let mut source = workdir.clone();
        source.append("/");
        source.append(t.dtbs[i].source.as_str());
        let dest = t.dtbs[i].dest.clone();
        proof {
            assert(t@.dtbs[i as int] == t.dtbs@[i as int]@);
            assert(source@ =~= spec_work_dir() + "/"@ + t@.dtbs[i as int].source);
        }
        let ghost prev = steps@;
        steps.push(PlanStep { stage: Stage::Collect, action: Action::CopyFile { source, dest } });
        proof {
            let whole = spec_collect_steps(t@);
            assert(views_of_steps(prev).len() == prev.len());
            assert(prev.len() == 1 + i as int);
            assert(whole[1 + i as int] == spec_dtb_step(t@.dtbs[i as int]));
            assert(steps@.last()@ == whole[1 + i as int]);
            assert forall|j: int| 0 <= j < steps@.len() implies views_of_steps(steps@)[j]
                == whole[j] by {
                if j < 1 + i as int {
                    assert(steps@[j] == prev[j]);
                    assert(views_of_steps(prev)[j] == whole.subrange(0, 1 + i as int)[j]);
                }
            }
            assert(views_of_steps(steps@) =~= whole.subrange(0, 1 + (i + 1)));
        }
        i += 1;
    }
    proof {
        assert(spec_collect_steps(t@).subrange(0, spec_collect_steps(t@).len() as int) =~= spec_collect_steps(t@));
    }
    steps
}

/// Whether a step runs the kernel build system with `a` among its arguments.
pub open spec fn is_make_run_with_arg(s: PlanStepModel, a: Seq<char>) -> bool {
    &&& s.action matches ActionModel::Run { invocation }
    &&& invocation.program == "make"@
    &&& invocation.args.contains(a)
}

/// Whether a step appends to a file.
pub open spec fn is_append(s: PlanStepModel) -> bool {
    s.action is AppendFile
}

/// The stage a plan position belongs to, by the fixed layout of a plan of
/// length `n`: fetch, unpack, then the bracketed configure block, the build,
/// the collection copies, and the two cleanup steps at the end.
spec fn stage_number_at(i: int, n: int) -> int {
    if i == 0 {
        0
    } else if i == 1 {
        1
    } else if i <= 6 {
        2
    } else if i <= 8 {
        3
    } else if i < n - 2 {
        4
    } else {
        5
    }
}

/// Whether stages never step backwards along a plan.
pub open spec fn stages_monotone(plan: Seq<PlanStepModel>) -> bool {
    forall|i: int, j: int|
        0 <= i <= j < plan.len() ==> stage_index(plan[i].stage) <= stage_index(plan[j].stage)
}

/// Every plan walks the stages in their fixed downstream order, and its
/// cleanup steps are exactly its last two.
pub proof fn lemma_plan_stages_monotone(t: TargetSpecModel, jobs: usize)
    ensures
        stages_monotone(spec_plan(t, jobs)),
        spec_plan(t, jobs).len() == 12 + t.dtbs.len(),
        forall|i: int|
            0 <= i < spec_plan(t, jobs).len() ==> ((#[trigger] spec_plan(t, jobs)[i].stage
                is Clean) <==> i >= spec_plan(t, jobs).len() - 2),
{
    let plan = spec_plan(t, jobs);
    let n = plan.len() as int;
    assert(n == 12 + t.dtbs.len());
    assert forall|i: int| 0 <= i < n implies stage_index(#[trigger] plan[i].stage)
        == stage_number_at(i, n) by {
        if i == 9 {
            assert(plan[9] == spec_collect_steps(t)[0]);
        }
        if 10 <= i < n - 2 {
            assert(plan[i] == spec_collect_steps(t)[i - 9]);
            assert(plan[i] == spec_dtb_step(t.dtbs[i - 10]));
        }
    }
    assert forall|i: int, j: int| 0 <= i <= j < n implies stage_index(plan[i].stage)
        <= stage_index(plan[j].stage) by {
        assert(stage_index(plan[i].stage) == stage_number_at(i, n));
        assert(stage_index(plan[j].stage) == stage_number_at(j, n));
    }
    assert forall|i: int| 0 <= i < n implies ((#[trigger] plan[i].stage is Clean) <==> i >= n
        - 2) by {
        assert(stage_index(plan[i].stage) == stage_number_at(i, n));
    }
}

/// No invocation of the plan attaches standard input, so no child process
/// can ever stall a run waiting for a prompt.
pub proof fn lemma_no_stdin_anywhere(t: TargetSpecModel, jobs: usize)
    ensures
        forall|i: int|
            0 <= i < spec_plan(t, jobs).len() ==> ((#[trigger] spec_plan(t, jobs)[i].action)
                matches ActionModel::Run { invocation } ==> !invocation.stdin_enabled),
{
    let plan = spec_plan(t, jobs);
    let n = plan.len() as int;
    assert forall|i: int| 0 <= i < n implies ((#[trigger] plan[i].action)
        matches ActionModel::Run { invocation } ==> !invocation.stdin_enabled) by {
        if i == 9 {
            assert(plan[9] == spec_collect_steps(t)[0]);
        }
        if 10 <= i < n - 2 {
            assert(plan[i] == spec_collect_steps(t)[i - 9]);
            assert(plan[i] == spec_dtb_step(t.dtbs[i - 10]));
        }
    }
}

/// The configuration-generation order is fixed: the plan appends the
/// override block exactly once, at the position after the default-generation
/// and module-minimizing runs and before the normalization run. So the
/// override text never lands in the configuration file before the
/// noise-reduction stage has run, and always lands there before the
/// normalization stage runs.
pub proof fn lemma_override_append_order(t: TargetSpecModel, jobs: usize)
    requires
        t == x86_64_model() || t == rpi_model(),
    ensures
        spec_plan(t, jobs)[5] == (PlanStepModel {
            stage: Stage::Configure,
            action: ActionModel::AppendFile { path: ".config"@, text: OVERRIDE_BLOCK@ },
        }),
        forall|i: int|
            0 <= i < spec_plan(t, jobs).len() && is_append(#[trigger] spec_plan(t, jobs)[i])
                ==> i == 5,
        is_make_run_with_arg(spec_plan(t, jobs)[3], "defconfig"@),
        is_make_run_with_arg(spec_plan(t, jobs)[4], "mod2noconfig"@),
        is_make_run_with_arg(spec_plan(t, jobs)[6], "olddefconfig"@),
        forall|i: int|
            0 <= i < spec_plan(t, jobs).len() && is_make_run_with_arg(
                #[trigger] spec_plan(t, jobs)[i],
                "defconfig"@,
            ) ==> i == 3,
        forall|i: int|
            0 <= i < spec_plan(t, jobs).len() && is_make_run_with_arg(
                #[trigger] spec_plan(t, jobs)[i],
                "mod2noconfig"@,
            ) ==> i == 4,
        forall|i: int|
            0 <= i < spec_plan(t, jobs).len() && is_make_run_with_arg(
                #[trigger] spec_plan(t, jobs)[i],
                "olddefconfig"@,
            ) ==> i == 6,
{
    lemma_word_facts();
    let plan = spec_plan(t, jobs);
    let n = plan.len() as int;
    let w1 = "defconfig"@;
    let w2 = "mod2noconfig"@;
    let w3 = "olddefconfig"@;
    let aa = spec_arch_arg(t);
    let jarg = "-j"@ + dec_rep(jobs as nat);

    assert(aa.len() == "ARCH="@.len() + t.build_arch.len());
    assert(jarg[0] == '-');
    assert(jarg != w1 && jarg != w2 && jarg != w3);
    assert(aa != w1 && aa != w2 && aa != w3);
    assert("modules"@ != w1 && "modules"@ != w2 && "modules"@ != w3);
    assert("dtbs"@ != w1 && "dtbs"@ != w2 && "dtbs"@ != w3);
    assert(t.image != w1 && t.image != w2 && t.image != w3);
    assert("tar"@ != "make"@);

    let bargs = spec_build_args(t, jobs);
    if t == x86_64_model() {
        assert(bargs =~= seq![aa, t.image, "modules"@, jarg]);
        assert forall|k: int| 0 <= k < bargs.len() implies #[trigger] bargs[k] != w1 && bargs[k]
            != w2 && bargs[k] != w3 by {}
    } else {
        let cross_arg = "CROSS_COMPILE="@ + "aarch64-linux-gnu-"@;
        assert(cross_arg.len() == 32);
        assert(cross_arg != w1 && cross_arg != w2 && cross_arg != w3);
        assert(bargs =~= seq![aa, cross_arg, t.image, "dtbs"@, "modules"@, jarg]);
        assert forall|k: int| 0 <= k < bargs.len() implies #[trigger] bargs[k] != w1 && bargs[k]
            != w2 && bargs[k] != w3 by {}
    }
    assert(!bargs.contains(w1) && !bargs.contains(w2) && !bargs.contains(w3));

    assert forall|i: int| 0 <= i < n implies !(10 <= i < n - 2) || (#[trigger] plan[i])
        == spec_dtb_step(t.dtbs[i - 10]) by {
        if 10 <= i < n - 2 {
            assert(plan[i] == spec_collect_steps(t)[i - 9]);
        }
    }
    assert(plan[9] == spec_collect_steps(t)[0]);
    assert(plan[3] == spec_config_steps(t)[0]);
    assert(plan[4] == spec_config_steps(t)[1]);
    assert(plan[5] == spec_config_steps(t)[2]);
    assert(plan[6] == spec_config_steps(t)[3]);

    assert(plan[3].action matches ActionModel::Run { invocation } && invocation.args[1] == w1
        && invocation.args.len() == 2 && invocation.args.contains(w1));
    assert(plan[4].action matches ActionModel::Run { invocation } && invocation.args[1] == w2
        && invocation.args.len() == 2 && invocation.args.contains(w2));
    assert(plan[6].action matches ActionModel::Run { invocation } && invocation.args[1] == w3
        && invocation.args.len() == 2 && invocation.args.contains(w3));

    assert forall|i: int|
        0 <= i < n && (is_make_run_with_arg(#[trigger] plan[i], w1) || is_make_run_with_arg(
            plan[i],
            w2,
        ) || is_make_run_with_arg(plan[i], w3)) implies 3 <= i <= 6 && i != 5 by {
        if i == 1 {
            assert(plan[1].action matches ActionModel::Run { invocation } && invocation.program
                == "tar"@);
        }
        if i == 7 {
            assert(plan[7].action matches ActionModel::Run { invocation } && invocation.args
                == bargs);
        }
    }
    assert forall|i: int|
        3 <= i <= 6 && i != 5 && is_make_run_with_arg(#[trigger] plan[i], w1) implies i
        == 3 by {
        if i != 3 {
            assert(plan[i].action matches ActionModel::Run { invocation } && invocation.args.len()
                == 2 && invocation.args[0] == aa && (invocation.args[1] == w2 || invocation.args[1]
                == w3));
        }
    }
    assert forall|i: int|
        3 <= i <= 6 && i != 5 && is_make_run_with_arg(#[trigger] plan[i], w2) implies i
        == 4 by {
        if i != 4 {
            assert(plan[i].action matches ActionModel::Run { invocation } && invocation.args.len()
                == 2 && invocation.args[0] == aa && (invocation.args[1] == w1 || invocation.args[1]
                == w3));
        }
    }
    assert forall|i: int|
        3 <= i <= 6 && i != 5 && is_make_run_with_arg(#[trigger] plan[i], w3) implies i
        == 6 by {
        if i != 6 {
            assert(plan[i].action matches ActionModel::Run { invocation } && invocation.args.len()
                == 2 && invocation.args[0] == aa && (invocation.args[1] == w1 || invocation.args[1]
                == w2));
        }
    }
}

/// Length and leading-character facts about the literal words the plan
/// builds its invocations from: enough to tell them all apart.
proof fn lemma_word_facts()
    ensures
        "defconfig"@.len() == 9,
        "mod2noconfig"@.len() == 12,
        "olddefconfig"@.len() == 12,
        "defconfig"@[0] == 'd',
        "mod2noconfig"@[0] == 'm',
        "olddefconfig"@[0] == 'o',
        "modules"@.len() == 7,
        "dtbs"@.len() == 4,
        "bzImage"@.len() == 7,
        "Image.gz"@.len() == 8,
        "x86_64"@.len() == 6,
        "arm64"@.len() == 5,
        "ARCH="@.len() == 5,
        "CROSS_COMPILE="@.len() == 14,
        "aarch64-linux-gnu-"@.len() == 18,
        "-j"@.len() == 2,
        "-j"@[0] == '-',
        "make"@.len() == 4,
        "tar"@.len() == 3,
{
    reveal_strlit("defconfig");
    reveal_strlit("mod2noconfig");
    reveal_strlit("olddefconfig");
    reveal_strlit("modules");
    reveal_strlit("dtbs");
    reveal_strlit("bzImage");
    reveal_strlit("Image.gz");
    reveal_strlit("x86_64");
    reveal_strlit("arm64");
    reveal_strlit("ARCH=");
    reveal_strlit("CROSS_COMPILE=");
    reveal_strlit("aarch64-linux-gnu-");
    reveal_strlit("-j");
    reveal_strlit("make");
    reveal_strlit("tar");
}

/// The whole plan of one run.
pub fn build_plan(t: &TargetSpec, jobs: usize) -> (r: Vec<PlanStep>)
    ensures
        views_of_steps(r@) == spec_plan(t@, jobs),
{
    let archive = archive_name();
    let workdir = work_dir_name();
    let mut steps: Vec<PlanStep> = Vec::new();

    steps.push(PlanStep {
        stage: Stage::Fetch,
        action: Action::Fetch { url: String::from_str(KERNEL_URL), dest: archive.clone() },
    });

    let mut tar = ProcessInvocation::no_stdin("tar");
    tar.arg(String::from_str("xf"));
    tar.arg(archive.clone());
    steps.push(PlanStep { stage: Stage::Unpack, action: Action::Run { invocation: tar } });

    steps.push(PlanStep {
        stage: Stage::Configure,
        action: Action::EnterDir { path: workdir.clone() },
    });

    let mut config = config_steps(t);
    steps.append(&mut config);

    steps.push(build_step(t, jobs));
    steps.push(PlanStep { stage: Stage::Build, action: Action::LeaveDir });

    let mut collect = collect_steps(t);
    steps.append(&mut collect);

    steps.push(PlanStep { stage: Stage::Clean, action: Action::RemoveFile { path: archive } });
    steps.push(PlanStep { stage: Stage::Clean, action: Action::RemoveDirAll { path: workdir } });

    proof {
        assert(views_of_steps(steps@) =~~= spec_plan(t@, jobs));
    }
    steps
}

} // verus!
