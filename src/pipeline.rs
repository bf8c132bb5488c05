use vstd::prelude::*;
use crate::path::{copy_strings, str_eq};
use crate::options::{BuildOptions, Toggle};
use crate::artifacts::{ArtifactDescriptor, resolve, resolved, strings_view};
use crate::workspace::Workspace;

verus! {

/// The steps of the toolchain pipeline, in the order they run.
#[derive(Clone, Copy, Debug, PartialEq, Eq, Structural)]
pub enum Step {
    /// Bootstrap: generate the configure script from its template.
    Generate,
    Configure,
    Compile,
    /// The toolchain's own checks; optional.
    Test,
    Install,
}

/// The steps a build runs, in order; the test step only when asked for.
pub open spec fn steps(run_tests: bool) -> Seq<Step> {
    if run_tests {
        seq![Step::Generate, Step::Configure, Step::Compile, Step::Test, Step::Install]
    } else {
        seq![Step::Generate, Step::Configure, Step::Compile, Step::Install]
    }
}

/// The name of the library an installation produces.
pub open spec fn produced_lib() -> Seq<char> {
    "gpg-error"@
}

/// The name of the vendored source tree, and of its working copy.
pub open spec fn source_name() -> Seq<char> {
    "gpgrt"@
}

/// An external command: what runs, with which arguments, where.
#[derive(Debug)]
pub struct Invocation {
    pub step: Step,
    pub program: String,
    pub args: Vec<String>,
    pub cwd: String,
}

pub struct InvocationView {
    pub step: Step,
    pub program: Seq<char>,
    pub args: Seq<Seq<char>>,
    pub cwd: Seq<char>,
}

impl View for Invocation {
    type V = InvocationView;

    open spec fn view(&self) -> InvocationView {
        InvocationView {
            step: self.step,
            program: self.program@,
            args: strings_view(self.args@),
            cwd: self.cwd@,
        }
    }
}

/// The program, then each argument after a space.
pub open spec fn command_line_spec(program: Seq<char>, args: Seq<Seq<char>>) -> Seq<char>
    decreases args.len(),
{
    if args.len() == 0 {
        program
    } else {
        command_line_spec(program, args.drop_last()) + seq![' '] + args.last()
    }
}

impl Invocation {
    /// The command line, as an operator would type it.
    pub fn command_line(&self) -> (r: String)
        ensures
            r@ == command_line_spec(self.program@, strings_view(self.args@)),
    {
        let mut r = self.program.clone();
        let mut i: usize = 0;
        while i < self.args.len()
            invariant
                i <= self.args.len(),
                r@ == command_line_spec(
                    self.program@,
                    strings_view(self.args@.subrange(0, i as int)),
                ),
            decreases self.args.len() - i,
        {
            proof {
                reveal_strlit(" ");
            }
            r = r.concat(" ").concat(self.args[i].as_str());
            proof {
                let a = strings_view(self.args@.subrange(0, i as int));
                assert(strings_view(self.args@.subrange(0, i as int + 1)).drop_last() =~= a);
            }
            i = i + 1;
        }
        proof {
            assert(self.args@.subrange(0, self.args@.len() as int) =~= self.args@);
        }
        r
    }
}

/// Why a build stopped.
#[derive(Debug)]
pub enum BuildError {
    /// No output root was given, so there is nowhere to build.
    Configuration,
    /// A filesystem operation on this path failed.
    Io { path: String },
    /// An external command exited with a non-zero status.
    ExternalTool { invocation: Invocation, status: i32 },
}

/// A build of the vendored source tree: its workspace, its options, and how
/// far the pipeline has come.
#[derive(Debug)]
pub struct Build {
    pub workspace: Workspace,
    pub install_dir: String,
    pub options: BuildOptions,
    pub run_tests: bool,
    /// How many steps have succeeded.
    pub completed: usize,
    /// Whether a step has failed; nothing runs after that.
    pub failed: bool,
}

impl Build {
    pub open spec fn wf(&self) -> bool {
        self.completed <= steps(self.run_tests).len()
    }

    pub open spec fn finished(&self) -> bool {
        !self.failed && self.completed == steps(self.run_tests).len()
    }

    /// The step that runs next, if any.
    pub open spec fn pending(&self) -> Option<Step> {
        if !self.failed && self.completed < steps(self.run_tests).len() {
            Some(steps(self.run_tests)[self.completed as int])
        } else {
            None
        }
    }

    /// The command of a step; every one runs in the working copy.
    pub open spec fn invocation_spec(&self, step: Step) -> InvocationView {
        let cwd = self.workspace.src_dir@;
        match step {
            Step::Generate => InvocationView {
                step,
                program: "./autogen.sh"@,
                args: Seq::empty(),
                cwd,
            },
            Step::Configure => InvocationView {
                step,
                program: "./configure"@,
                args: self.options.configure_args_spec(self.install_dir@),
                cwd,
            },
            Step::Compile => InvocationView { step, program: "make"@, args: seq!["all"@], cwd },
            Step::Test => InvocationView { step, program: "make"@, args: seq!["check"@], cwd },
            Step::Install => InvocationView {
                step,
                program: "make"@,
                args: seq!["install"@],
                cwd,
            },
        }
    }

    /// The state after the pending step exited with `status`.
    pub open spec fn after(self, status: i32) -> Build {
        if status == 0 {
            Build { completed: (self.completed + 1) as usize, ..self }
        } else {
            Build { failed: true, ..self }
        }
    }

    /// The state after the pipeline's steps exited with `statuses` in turn;
    /// statuses past the end of the pipeline are never used.
    pub open spec fn run(self, statuses: Seq<i32>) -> Build
        decreases statuses.len(),
    {
        if statuses.len() == 0 {
            self
        } else {
            let b = self.run(statuses.drop_last());
            if b.pending() is Some {
                b.after(statuses.last())
            } else {
                b
            }
        }
    }
}

impl Build {
    /// A build whose workspace lies under `output_root`, with the options
    /// this project is built with (a static library, no shared one, no
    /// documentation) and without the test step. An absent or empty output
    /// root is a configuration error.
    pub fn new(output_root: Option<&str>) -> (r: Result<Build, BuildError>)
        ensures
            r is Err <==> (output_root is None || output_root->0@.len() == 0),
            r is Err ==> r->Err_0 is Configuration,
            r is Ok ==> ({
                let b = r->Ok_0;
                &&& b.workspace.laid_out(output_root->0@, source_name())
                &&& b.install_dir@ == b.workspace.install_dir@
                &&& b.options.static_lib == Toggle::Enabled
                &&& b.options.shared == Toggle::Disabled
                &&& b.options.doc == Toggle::Disabled
                &&& !b.run_tests
                &&& b.completed == 0
                &&& !b.failed
            }),
    {
        proof {
            reveal_strlit("gpgrt");
        }
        match Workspace::new(output_root, "gpgrt") {
            None => Err(BuildError::Configuration),
            Some(workspace) => {
                let install_dir = workspace.install_dir.clone();
                Ok(Build {
                    workspace,
                    install_dir,
                    options: BuildOptions::static_only(),
                    run_tests: false,
                    completed: 0,
                    failed: false,
                })
            },
        }
    }

    /// Points every later step at an already populated working copy.
    pub fn src_dir(&mut self, new_src_dir: &str)
        ensures
            final(self).workspace.src_dir@ == new_src_dir@,
            final(self).workspace.output_root == old(self).workspace.output_root,
            final(self).workspace.build_dir == old(self).workspace.build_dir,
            final(self).workspace.install_dir == old(self).workspace.install_dir,
            final(self).install_dir == old(self).install_dir,
            final(self).options == old(self).options,
            final(self).run_tests == old(self).run_tests,
            final(self).completed == old(self).completed,
            final(self).failed == old(self).failed,
    {
        self.workspace.src_dir = new_src_dir.to_owned();
    }

    /// Installs under `new_install_dir` instead.
    pub fn install_dir(&mut self, new_install_dir: &str)
        ensures
            final(self).install_dir@ == new_install_dir@,
            final(self).workspace == old(self).workspace,
            final(self).options == old(self).options,
            final(self).run_tests == old(self).run_tests,
            final(self).completed == old(self).completed,
            final(self).failed == old(self).failed,
    {
        self.install_dir = new_install_dir.to_owned();
    }

    /// Adds the test step, unless the pipeline has already gone past the
    /// point where it runs or has failed. Returns whether the step is part
    /// of the pipeline now.
    pub fn check(&mut self) -> (r: bool)
        requires
            old(self).wf(),
        ensures
            final(self).wf(),
            r == (old(self).run_tests || (!old(self).failed && old(self).completed <= 3)),
            final(self).run_tests == r,
            final(self).workspace == old(self).workspace,
            final(self).install_dir == old(self).install_dir,
            final(self).options == old(self).options,
            final(self).completed == old(self).completed,
            final(self).failed == old(self).failed,
    {
        if !self.run_tests && !self.failed && self.completed <= 3 {
            self.run_tests = true;
        }
        self.run_tests
    }

    fn invocation(&self, step: Step) -> (r: Invocation)
        ensures
            r@ == self.invocation_spec(step),
    {
        proof {
            reveal_strlit("./autogen.sh");
            reveal_strlit("./configure");
            reveal_strlit("make");
            reveal_strlit("all");
            reveal_strlit("check");
            reveal_strlit("install");
        }
        let cwd = self.workspace.src_dir.clone();
        let (program, args) = match step {
            Step::Generate => ("./autogen.sh".to_owned(), Vec::new()),
            Step::Configure => (
                "./configure".to_owned(),
                self.options.configure_args(self.install_dir.as_str()),
            ),
            Step::Compile => ("make".to_owned(), vec!["all".to_owned()]),
            Step::Test => ("make".to_owned(), vec!["check".to_owned()]),
            Step::Install => ("make".to_owned(), vec!["install".to_owned()]),
        };
        let r = Invocation { step, program, args, cwd };
        proof {
            assert(r@.args =~= self.invocation_spec(step).args);
        }
        r
    }

    fn step_at(&self) -> (r: Step)
        requires
            self.completed < steps(self.run_tests).len(),
        ensures
            r == steps(self.run_tests)[self.completed as int],
    {
        match self.completed {
            0 => Step::Generate,
            1 => Step::Configure,
            2 => Step::Compile,
            3 => if self.run_tests {
                Step::Test
            } else {
                Step::Install
            },
            _ => Step::Install,
        }
    }

    /// The command the pipeline runs next; none once it has finished or
    /// failed.
    pub fn next_invocation(&self) -> (r: Option<Invocation>)
        requires
            self.wf(),
        ensures
            r is Some <==> self.pending() is Some,
            r is Some ==> r->0@ == self.invocation_spec(self.pending()->0),
    {
        if !self.failed && self.completed < (if self.run_tests { 5 } else { 4 }) {
            Some(self.invocation(self.step_at()))
        } else {
            None
        }
    }

    /// Records how the pending step's command exited. A non-zero status
    /// stops the pipeline for good and is reported with the command, its
    /// working directory and the status.
    pub fn record(&mut self, status: i32) -> (r: Result<(), BuildError>)
        requires
            old(self).wf(),
            old(self).pending() is Some,
        ensures
            final(self).wf(),
            *final(self) == old(self).after(status),
            r is Ok <==> status == 0,
            r is Err ==> ({
                let e = r->Err_0;
                &&& e is ExternalTool
                &&& e->invocation@ == old(self).invocation_spec(old(self).pending()->0)
                &&& e->status == status
            }),
    {
        if status == 0 {
            self.completed = self.completed + 1;
            Ok(())
        } else {
            let invocation = self.invocation(self.step_at());
            self.failed = true;
            Err(BuildError::ExternalTool { invocation, status })
        }
    }

    /// The descriptor of the installed artifacts, once every step has
    /// succeeded; none before that, and none after a failure.
    pub fn install(&self) -> (r: Option<ArtifactDescriptor>)
        ensures
            r is Some <==> self.finished(),
            r is Some ==> resolved(r->0, self.install_dir@, seq![produced_lib()]),
    {
        if !self.failed && self.completed == (if self.run_tests { 5 } else { 4 }) {
            proof {
                reveal_strlit("gpg-error");
            }
            let libs = vec!["gpg-error".to_owned()];
            let d = resolve(self.install_dir.as_str(), &libs);
            proof {
                assert(strings_view(libs@) =~= seq![produced_lib()]);
            }
            Some(d)
        } else {
            None
        }
    }
}

proof fn lemma_run_prefix(b: Build, statuses: Seq<i32>, k: int)
    requires
        !b.failed,
        b.completed == 0,
        0 <= k < steps(b.run_tests).len(),
        forall|j: int| 0 <= j < k && j < statuses.len() ==> statuses[j] == 0,
        k < statuses.len() ==> statuses[k] != 0,
    ensures
        b.run(statuses).run_tests == b.run_tests,
        statuses.len() <= k ==> !b.run(statuses).failed && b.run(statuses).completed
            == statuses.len(),
        statuses.len() > k ==> b.run(statuses).failed && b.run(statuses).completed == k,
    decreases statuses.len(),
{
    if statuses.len() > 0 {
        let rest = statuses.drop_last();
        assert forall|j: int| 0 <= j < k && j < rest.len() implies rest[j] == 0 by {
            assert(rest[j] == statuses[j]);
        }
        if k < rest.len() {
            assert(rest[k] == statuses[k]);
        }
        lemma_run_prefix(b, rest, k);
    }
}

/// A step whose command exits non-zero ends the pipeline: no later step
/// runs, and no artifact descriptor is produced.
pub proof fn lemma_failure_stops_pipeline(b: Build, statuses: Seq<i32>, k: int)
    requires
        !b.failed,
        b.completed == 0,
        0 <= k < statuses.len(),
        k < steps(b.run_tests).len(),
        statuses[k] != 0,
        forall|j: int| 0 <= j < k ==> statuses[j] == 0,
    ensures
        b.run(statuses).failed,
        b.run(statuses).completed == k,
        b.run(statuses).pending() is None,
        !b.run(statuses).finished(),
{
    lemma_run_prefix(b, statuses, k);
}

/// When every command exits with status zero, the pipeline finishes after
/// exactly its steps, and only then.
pub proof fn lemma_success_finishes(b: Build, statuses: Seq<i32>)
    requires
        !b.failed,
        b.completed == 0,
        forall|j: int| 0 <= j < statuses.len() ==> statuses[j] == 0,
    ensures
        b.run(statuses).finished() <==> statuses.len() >= steps(b.run_tests).len(),
    decreases statuses.len(),
{
    let n = steps(b.run_tests).len() as int;
    if statuses.len() <= n - 1 {
        lemma_run_prefix(b, statuses, n - 1);
    } else {
        let rest = statuses.drop_last();
        assert forall|j: int| 0 <= j < rest.len() implies rest[j] == 0 by {
            assert(rest[j] == statuses[j]);
        }
        lemma_success_finishes(b, rest);
        if rest.len() == n - 1 {
            lemma_run_prefix(b, rest, n - 1);
        }
    }
}

} // verus!
