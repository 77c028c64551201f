use vstd::prelude::*;
use vstd::utf8::{decode_utf8, encode_utf8, valid_utf8};

use crate::command::{
    compile_args, compile_command, host_dir, link_args, link_command, trimmed, ProcessOutput,
};
use crate::error::{Artifact, BuildError, HostQuery};
use crate::layout::{
    descriptor_name, descriptor_text, join_path, join_path_exec, library_name, object_name,
    script_name, source_name,
};
use crate::manifest::{ExtensionInfo, Identity};
use crate::scanner::{native_functions, sql_tokens};
use crate::wrapper::{build_c_wrapper, wrapper_source};

verus! {

/// Where a run of the pipeline stands: the step whose outcome it waits for,
/// or the end it has reached.
#[derive(Debug, Clone, Copy, PartialEq, Eq, Structural)]
pub enum Stage {
    /// Copying the SQL definition file to the versioned install script.
    CopyScript,
    /// Writing the descriptor.
    WriteDescriptor,
    /// Writing the generated registration source.
    WriteSource,
    /// Asking the host for its header directory.
    QueryInclude,
    /// Compiling the registration source.
    Compile,
    /// Linking the shared library.
    Link,
    /// Asking the host for its module directory.
    QueryModuleDir,
    /// Asking the host for its shared-data directory.
    QueryShareDir,
    /// Copying the shared library into the module directory.
    DeployLibrary,
    /// Copying the install script into the extension directory.
    DeployScript,
    /// Copying the descriptor into the extension directory.
    DeployDescriptor,
    /// Every step succeeded.
    Finished,
    /// A step failed; nothing more runs.
    Failed,
}

/// What the pipeline asks its runner to do next.
#[derive(Debug)]
pub enum Action {
    /// Copy the file at `from` to `to`, replacing what `to` held.
    CopyFile { from: String, to: String },
    /// Write `contents` to the file at `path`, replacing what it held.
    WriteFile { path: String, contents: String },
    /// Run the host's configuration tool with the flag of this query.
    QueryHost(HostQuery),
    /// Run the C compiler driver with these arguments.
    RunCompiler(Vec<String>),
    /// The extension is built and deployed.
    Finished,
    /// The run ended with this error.
    Failed(BuildError),
}

/// What came of the action that the pipeline last asked for.
#[derive(Debug)]
pub enum Event {
    /// The file was copied or written.
    Done,
    /// The file operation failed, or the process could not be started: the
    /// system's message.
    IoFailed(String),
    /// The process ran to its end.
    Exited(ProcessOutput),
}

/// The characters of an action.
pub enum ActionView {
    CopyFile { from: Seq<char>, to: Seq<char> },
    WriteFile { path: Seq<char>, contents: Seq<char> },
    QueryHost(HostQuery),
    RunCompiler(Seq<Seq<char>>),
    Finished,
    Failed(BuildError),
}

impl View for Action {
    type V = ActionView;

    open spec fn view(&self) -> ActionView {
        match self {
            Action::CopyFile { from, to } => ActionView::CopyFile { from: from@, to: to@ },
            Action::WriteFile { path, contents } => ActionView::WriteFile {
                path: path@,
                contents: contents@,
            },
            Action::QueryHost(q) => ActionView::QueryHost(*q),
            Action::RunCompiler(args) => ActionView::RunCompiler(args@.map_values(|a: String| a@)),
            Action::Finished => ActionView::Finished,
            Action::Failed(e) => ActionView::Failed(*e),
        }
    }
}

/// The state of a run: its stage, what it was started with, and the host
/// directories learned so far.
pub struct PipelineView {
    pub stage: Stage,
    pub target_dir: Seq<char>,
    pub sql_text: Seq<char>,
    pub id: Identity,
    pub extra: Option<Seq<char>>,
    pub module_dir: Seq<char>,
    pub share_dir: Seq<char>,
}

impl PipelineView {
    /// The same state at another stage.
    pub open spec fn at(self, stage: Stage) -> PipelineView {
        PipelineView { stage, ..self }
    }

    /// The versioned install script in the build directory.
    pub open spec fn script_path(self) -> Seq<char> {
        join_path(self.target_dir, script_name(self.id))
    }

    /// The descriptor in the build directory.
    pub open spec fn descriptor_path(self) -> Seq<char> {
        join_path(self.target_dir, descriptor_name(self.id))
    }

    /// The generated registration source in the build directory.
    pub open spec fn source_path(self) -> Seq<char> {
        join_path(self.target_dir, source_name(self.id))
    }

    /// The compiled object in the build directory.
    pub open spec fn object_path(self) -> Seq<char> {
        join_path(self.target_dir, object_name(self.id))
    }

    /// The shared library in the build directory.
    pub open spec fn library_path(self) -> Seq<char> {
        join_path(self.target_dir, library_name(self.id))
    }

    /// The host's directory for extensions' scripts and descriptors.
    pub open spec fn extension_dir(self) -> Seq<char> {
        self.share_dir + "/extension"@
    }
}

/// Whether `event` is an outcome of the step that `stage` waits for: a file
/// step ends in `Done` or `IoFailed`, a process step in `Exited` or
/// `IoFailed`, and a finished or failed run waits for nothing.
pub open spec fn event_fits(stage: Stage, event: Event) -> bool {
    match stage {
        Stage::Finished | Stage::Failed => false,
        Stage::QueryInclude | Stage::Compile | Stage::Link | Stage::QueryModuleDir
        | Stage::QueryShareDir => !(event is Done),
        _ => !(event is Exited),
    }
}

/// The run stops with `e`.
pub open spec fn fails(old: PipelineView, new: PipelineView, action: ActionView, e: BuildError) -> bool {
    new == old.at(Stage::Failed) && action == ActionView::Failed(e)
}

/// The run moves to `stage` and asks for `next`.
pub open spec fn moves(
    old: PipelineView,
    new: PipelineView,
    action: ActionView,
    stage: Stage,
    next: ActionView,
) -> bool {
    new == old.at(stage) && action == next
}

/// Whether a host query's run printed a directory.
pub open spec fn query_ok(o: ProcessOutput) -> bool {
    o.success && valid_utf8(o.stdout@)
}

/// The directory that a successful host query printed.
pub open spec fn query_dir(o: ProcessOutput) -> Seq<char> {
    trimmed(decode_utf8(o.stdout@))
}

/// The diagnostics that a failed compile or link step carries: the process's
/// error stream, or the bytes of the message that says why it did not start.
pub open spec fn tool_failure(event: Event) -> Seq<u8> {
    match event {
        Event::Exited(o) => o.stderr@,
        Event::IoFailed(m) => encode_utf8(m@),
        Event::Done => seq![],
    }
}

/// The run stops with `CompileFailed` carrying the diagnostics `d`.
pub open spec fn compile_failed_with(action: ActionView, d: Seq<u8>) -> bool {
    match action {
        ActionView::Failed(BuildError::CompileFailed(b)) => b@ == d,
        _ => false,
    }
}

/// The run stops with `LinkFailed` carrying the diagnostics `d`.
pub open spec fn link_failed_with(action: ActionView, d: Seq<u8>) -> bool {
    match action {
        ActionView::Failed(BuildError::LinkFailed(b)) => b@ == d,
        _ => false,
    }
}

/// One step of the pipeline: from the state `old`, on the outcome `event` of
/// the step it waited for, to the state `new` with the next `action`. The
/// steps run strictly in order; the first failure ends the run with its error.
pub open spec fn step(old: PipelineView, event: Event, new: PipelineView, action: ActionView) -> bool {
    match old.stage {
        Stage::CopyScript => match event {
            Event::IoFailed(m) => fails(old, new, action, BuildError::MetadataWriteFailed(m)),
            _ => moves(
                old,
                new,
                action,
                Stage::WriteDescriptor,
                ActionView::WriteFile {
                    path: old.descriptor_path(),
                    contents: descriptor_text(old.id),
                },
            ),
        },
        Stage::WriteDescriptor => match event {
            Event::IoFailed(m) => fails(old, new, action, BuildError::MetadataWriteFailed(m)),
            _ => match sql_tokens(old.sql_text) {
                Some(ts) => moves(
                    old,
                    new,
                    action,
                    Stage::WriteSource,
                    ActionView::WriteFile {
                        path: old.source_path(),
                        contents: wrapper_source(native_functions(ts)),
                    },
                ),
                None => new == old.at(Stage::Failed) && action is Failed && action->Failed_0 is ScanFailed,
            },
        },
        Stage::WriteSource => match event {
            Event::IoFailed(m) => fails(old, new, action, BuildError::SourceWriteFailed(m)),
            _ => moves(old, new, action, Stage::QueryInclude, ActionView::QueryHost(HostQuery::IncludeDir)),
        },
        Stage::QueryInclude => match event {
            Event::Exited(o) if query_ok(o) => moves(
                old,
                new,
                action,
                Stage::Compile,
                ActionView::RunCompiler(
                    compile_args(old.source_path(), old.object_path(), query_dir(o), old.id),
                ),
            ),
            _ => fails(old, new, action, BuildError::HostConfigUnavailable(HostQuery::IncludeDir)),
        },
        Stage::Compile => match event {
            Event::Exited(o) if o.success => moves(
                old,
                new,
                action,
                Stage::Link,
                ActionView::RunCompiler(
                    link_args(old.object_path(), old.library_path(), old.id, old.extra),
                ),
            ),
            _ => new == old.at(Stage::Failed) && compile_failed_with(action, tool_failure(event)),
        },
        Stage::Link => match event {
            Event::Exited(o) if o.success => moves(
                old,
                new,
                action,
                Stage::QueryModuleDir,
                ActionView::QueryHost(HostQuery::ModuleDir),
            ),
            _ => new == old.at(Stage::Failed) && link_failed_with(action, tool_failure(event)),
        },
        Stage::QueryModuleDir => match event {
            Event::Exited(o) if query_ok(o) => new == PipelineView {
                stage: Stage::QueryShareDir,
                module_dir: query_dir(o),
                ..old
            } && action == ActionView::QueryHost(HostQuery::ShareDir),
            _ => fails(old, new, action, BuildError::HostConfigUnavailable(HostQuery::ModuleDir)),
        },
        Stage::QueryShareDir => match event {
            Event::Exited(o) if query_ok(o) => new == PipelineView {
                stage: Stage::DeployLibrary,
                share_dir: query_dir(o),
                ..old
            } && action == ActionView::CopyFile {
                from: old.library_path(),
                to: join_path(old.module_dir, library_name(old.id)),
            },
            _ => fails(old, new, action, BuildError::HostConfigUnavailable(HostQuery::ShareDir)),
        },
        Stage::DeployLibrary => match event {
            Event::IoFailed(m) => fails(old, new, action, BuildError::DeployFailed(Artifact::SharedLibrary, m)),
            _ => moves(
                old,
                new,
                action,
                Stage::DeployScript,
                ActionView::CopyFile {
                    from: old.script_path(),
                    to: join_path(old.extension_dir(), script_name(old.id)),
                },
            ),
        },
        Stage::DeployScript => match event {
            Event::IoFailed(m) => fails(old, new, action, BuildError::DeployFailed(Artifact::SqlScript, m)),
            _ => moves(
                old,
                new,
                action,
                Stage::DeployDescriptor,
                ActionView::CopyFile {
                    from: old.descriptor_path(),
                    to: join_path(old.extension_dir(), descriptor_name(old.id)),
                },
            ),
        },
        Stage::DeployDescriptor => match event {
            Event::IoFailed(m) => fails(old, new, action, BuildError::DeployFailed(Artifact::Descriptor, m)),
            _ => moves(old, new, action, Stage::Finished, ActionView::Finished),
        },
        Stage::Finished | Stage::Failed => false,
    }
}

/// A compile step that exits with failure ends the run: the error carries what
/// the compiler wrote to its error stream, unchanged, and neither the link nor
/// any deploy step follows, since a failed run takes no further outcome.
pub proof fn lemma_compile_failure_stops(
    old: PipelineView,
    o: ProcessOutput,
    new: PipelineView,
    action: ActionView,
)
    requires
        old.stage == Stage::Compile,
        !o.success,
        step(old, Event::Exited(o), new, action),
    ensures
        new.stage == Stage::Failed,
        compile_failed_with(action, o.stderr@),
        !(action is RunCompiler) && !(action is CopyFile),
        forall|e: Event| !event_fits(new.stage, e),
{
}

/// The characters of the extra link flags, if any.
pub open spec fn extra_view(extra: Option<String>) -> Option<Seq<char>> {
    match extra {
        Some(e) => Some(e@),
        None => None,
    }
}

/// A run of the pipeline for one project. Each call of `advance` takes the
/// outcome of the action asked for last and gives the next action.
pub struct Pipeline {
    stage: Stage,
    target_dir: String,
    sql_text: String,
    info: ExtensionInfo,
    extra: Option<String>,
    module_dir: String,
    share_dir: String,
}

impl View for Pipeline {
    type V = PipelineView;

    closed spec fn view(&self) -> PipelineView {
        PipelineView {
            stage: self.stage,
            target_dir: self.target_dir@,
            sql_text: self.sql_text@,
            id: self.info@,
            extra: extra_view(self.extra),
            module_dir: self.module_dir@,
            share_dir: self.share_dir@,
        }
    }
}

impl Pipeline {
    /// Starts a run that builds into `target_dir` the extension `info`, whose
    /// SQL definition file lies at `sql_path` and holds `sql_text`; `extra`
    /// holds the additional link flags. The first action copies the SQL file
    /// to the versioned install script.
    pub fn start(
        target_dir: String,
        sql_path: &str,
        sql_text: String,
        info: ExtensionInfo,
        extra: Option<String>,
    ) -> (r: (Pipeline, Action))
        ensures
            r.0@ == (PipelineView {
                stage: Stage::CopyScript,
                target_dir: target_dir@,
                sql_text: sql_text@,
                id: info@,
                extra: extra_view(extra),
                module_dir: Seq::empty(),
                share_dir: Seq::empty(),
            }),
            r.1@ == (ActionView::CopyFile { from: sql_path@, to: r.0@.script_path() }),
    {
        let p = Pipeline {
            stage: Stage::CopyScript,
            target_dir,
            sql_text,
            info,
            extra,
            module_dir: String::new(),
            share_dir: String::new(),
        };
        let to = p.script_path();
        (p, Action::CopyFile { from: String::from_str(sql_path), to })
    }

    /// The stage that the run has reached.
    pub fn stage(&self) -> (r: Stage)
        ensures
            r == self@.stage,
    {
        self.stage
    }

    /// Whether `event` is an outcome of the step that the run waits for.
    pub fn accepts(&self, event: &Event) -> (r: bool)
        ensures
            r == event_fits(self@.stage, *event),
    {
        match self.stage {
            Stage::Finished | Stage::Failed => false,
            Stage::QueryInclude | Stage::Compile | Stage::Link | Stage::QueryModuleDir
            | Stage::QueryShareDir => !matches!(event, Event::Done),
            _ => !matches!(event, Event::Exited(_)),
        }
    }

    fn script_path(&self) -> (r: String)
        ensures
            r@ == self@.script_path(),
    {
        join_path_exec(self.target_dir.as_str(), self.info.script_name().as_str())
    }

    fn descriptor_path(&self) -> (r: String)
        ensures
            r@ == self@.descriptor_path(),
    {
        join_path_exec(self.target_dir.as_str(), self.info.descriptor_name().as_str())
    }

    fn source_path(&self) -> (r: String)
        ensures
            r@ == self@.source_path(),
    {
        join_path_exec(self.target_dir.as_str(), self.info.source_name().as_str())
    }

    fn object_path(&self) -> (r: String)
        ensures
            r@ == self@.object_path(),
    {
        join_path_exec(self.target_dir.as_str(), self.info.object_name().as_str())
    }

    fn library_path(&self) -> (r: String)
        ensures
            r@ == self@.library_path(),
    {
        join_path_exec(self.target_dir.as_str(), self.info.library_name().as_str())
    }

    fn extension_dir(&self) -> (r: String)
        ensures
            r@ == self@.extension_dir(),
    {
        let mut r = self.share_dir.clone();
        r.append("/extension");
        r
    }

    /// Ends the run with `e`.
    fn fail(&mut self, e: BuildError) -> (r: Action)
        ensures
            final(self)@ == old(self)@.at(Stage::Failed),
            r@ == ActionView::Failed(e),
    {
        self.stage = Stage::Failed;
        Action::Failed(e)
    }

    /// Takes the outcome of the action asked for last and gives the next one.
    pub fn advance(&mut self, event: Event) -> (r: Action)
        requires
            event_fits(old(self)@.stage, event),
        ensures
            step(old(self)@, event, final(self)@, r@),
    {
        match self.stage {
            Stage::CopyScript => match event {
                Event::IoFailed(m) => self.fail(BuildError::MetadataWriteFailed(m)),
                _ => {
                    let path = self.descriptor_path();
                    let contents = self.info.descriptor_text();
                    self.stage = Stage::WriteDescriptor;
                    Action::WriteFile { path, contents }
                },
            },
            Stage::WriteDescriptor => match event {
                Event::IoFailed(m) => self.fail(BuildError::MetadataWriteFailed(m)),
                _ => match build_c_wrapper(self.sql_text.as_str()) {
                    Ok(contents) => {
                        let path = self.source_path();
                        self.stage = Stage::WriteSource;
                        Action::WriteFile { path, contents }
                    },
                    Err(e) => self.fail(e),
                },
            },
            Stage::WriteSource => match event {
                Event::IoFailed(m) => self.fail(BuildError::SourceWriteFailed(m)),
                _ => {
                    self.stage = Stage::QueryInclude;
                    Action::QueryHost(HostQuery::IncludeDir)
                },
            },
            Stage::QueryInclude => match event {
                Event::Exited(o) => match host_dir(&o, HostQuery::IncludeDir) {
                    Ok(dir) => {
                        let source = self.source_path();
                        let object = self.object_path();
                        let args = compile_command(
                            source.as_str(),
                            object.as_str(),
                            dir.as_str(),
                            &self.info,
                        );
                        self.stage = Stage::Compile;
                        Action::RunCompiler(args)
                    },
                    Err(e) => self.fail(e),
                },
                _ => self.fail(BuildError::HostConfigUnavailable(HostQuery::IncludeDir)),
            },
            Stage::Compile => match event {
                Event::Exited(o) => if o.success {
                    let object = self.object_path();
                    let library = self.library_path();
                    let extra = match &self.extra {
                        Some(e) => Some(e.as_str()),
                        None => None,
                    };
                    let args = link_command(object.as_str(), library.as_str(), &self.info, extra);
                    self.stage = Stage::Link;
                    Action::RunCompiler(args)
                } else {
                    self.fail(BuildError::CompileFailed(o.stderr))
                },
                Event::IoFailed(m) => self.fail(BuildError::CompileFailed(m.as_str().as_bytes_vec())),
                Event::Done => self.fail(BuildError::CompileFailed(Vec::new())),
            },
            Stage::Link => match event {
                Event::Exited(o) => if o.success {
                    self.stage = Stage::QueryModuleDir;
                    Action::QueryHost(HostQuery::ModuleDir)
                } else {
                    self.fail(BuildError::LinkFailed(o.stderr))
                },
                Event::IoFailed(m) => self.fail(BuildError::LinkFailed(m.as_str().as_bytes_vec())),
                Event::Done => self.fail(BuildError::LinkFailed(Vec::new())),
            },
            Stage::QueryModuleDir => match event {
                Event::Exited(o) => match host_dir(&o, HostQuery::ModuleDir) {
                    Ok(dir) => {
                        self.module_dir = dir;
                        self.stage = Stage::QueryShareDir;
                        Action::QueryHost(HostQuery::ShareDir)
                    },
                    Err(e) => self.fail(e),
                },
                _ => self.fail(BuildError::HostConfigUnavailable(HostQuery::ModuleDir)),
            },
            Stage::QueryShareDir => match event {
                Event::Exited(o) => match host_dir(&o, HostQuery::ShareDir) {
                    Ok(dir) => {
                        self.share_dir = dir;
                        self.stage = Stage::DeployLibrary;
                        let from = self.library_path();
                        let to = join_path_exec(
                            self.module_dir.as_str(),
                            self.info.library_name().as_str(),
                        );
                        Action::CopyFile { from, to }
                    },
                    Err(e) => self.fail(e),
                },
                _ => self.fail(BuildError::HostConfigUnavailable(HostQuery::ShareDir)),
            },
            Stage::DeployLibrary => match event {
                Event::IoFailed(m) => self.fail(BuildError::DeployFailed(Artifact::SharedLibrary, m)),
                _ => {
                    let from = self.script_path();
                    let to = join_path_exec(
                        self.extension_dir().as_str(),
                        self.info.script_name().as_str(),
                    );
                    self.stage = Stage::DeployScript;
                    Action::CopyFile { from, to }
                },
            },
            Stage::DeployScript => match event {
                Event::IoFailed(m) => self.fail(BuildError::DeployFailed(Artifact::SqlScript, m)),
                _ => {
                    let from = self.descriptor_path();
                    let to = join_path_exec(
                        self.extension_dir().as_str(),
                        self.info.descriptor_name().as_str(),
                    );
                    self.stage = Stage::DeployDescriptor;
                    Action::CopyFile { from, to }
                },
            },
            Stage::DeployDescriptor => match event {
                Event::IoFailed(m) => self.fail(BuildError::DeployFailed(Artifact::Descriptor, m)),
                _ => {
                    self.stage = Stage::Finished;
                    Action::Finished
                },
            },
            Stage::Finished | Stage::Failed => Action::Finished,
        }
    }
}

} // verus!
