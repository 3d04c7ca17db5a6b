//! Pulling, applying and rolling back an image.
//!
//! Applying and rolling back run commands and look at files in between. An
//! [`ImageJob`] holds where such an operation stands: it says what to do next,
//! and takes what came of it.

use vstd::prelude::*;

use crate::admin::commands::{
    command_result, container_name, docker, first_line, inspect_call, inspect_result,
    inspect_self_container, shown_output,
    inspected, run_command, run_command_with_env, CommandLine, CommandOutcome, CommandView,
    OutcomeView,
};
use crate::admin::compose::{
    backup_call, compose_file_problem, compose_labels, compose_path, default_compose_path,
    detect_compose_metadata, detect_running_image, ensure_compose_file_exists, in_dir, is_parent,
    is_plain_dir, is_plain_name,
    labels_format, parent_dir, project_dir,
    resolve_in_container_compose_path, rollback_image_present, rollback_tag, running_image,
    tag_call, tag_rollback_image, ComposeContext, ComposeLabels, ContextView, FileKind, FileView,
    LabelsView,
};
use crate::admin::error::{AdminServiceError, ErrorView};
use crate::admin::images::{image_problem, outer_whitespace_is_ignored, validate_image_ref};
use crate::admin::service::AdminService;
use crate::admin::types::{ImageUpdateResponse, ImageUpdateView};
use crate::admin::update_config::RuntimeUpdateConfig;
use crate::model::config::Config;
use crate::text::{before, behind, starts_with, trim, trimmed, view_opt, views};

verus! {

/// How far an image operation has come: what it waits for.
#[derive(Debug)]
pub enum JobPhase {
    /// Whether there is an image to roll back to.
    CheckingBackup,
    /// The compose file and the service.
    ReadingLabels,
    /// Whether the compose file is readable under one of its paths.
    CheckingFiles {
        /// What docker said.
        labels: ComposeLabels,
    },
    /// What is found at the path of the compose file.
    CheckingCompose {
        /// What docker said.
        labels: ComposeLabels,
        /// The path.
        path: String,
    },
    /// The reference of the running image.
    ReadingImageRef {
        /// The project.
        ctx: ComposeContext,
    },
    /// The id of the running image.
    ReadingImageId {
        /// The project.
        ctx: ComposeContext,
        /// The reference of the running image.
        image_ref: String,
    },
    /// The running image being tagged as the one to roll back to.
    Tagging {
        /// The project.
        ctx: ComposeContext,
        /// The reference of the running image.
        image_ref: String,
        /// The id of the running image.
        image_id: String,
    },
    /// The new image being pulled.
    Pulling {
        /// The project.
        ctx: ComposeContext,
        /// The image that a rollback would go back to.
        previous: Option<String>,
        /// What the commands wrote so far.
        output: String,
    },
    /// The image being started.
    Starting {
        /// The project.
        ctx: ComposeContext,
        /// The image that a rollback would go back to.
        previous: Option<String>,
        /// What the commands wrote so far.
        output: String,
    },
}

/// What a [`JobPhase`] says.
#[verifier::ext_equal]
pub enum PhaseView {
    /// See [`JobPhase::CheckingBackup`].
    CheckingBackup,
    /// See [`JobPhase::ReadingLabels`].
    ReadingLabels,
    /// See [`JobPhase::CheckingFiles`].
    CheckingFiles(LabelsView),
    /// See [`JobPhase::CheckingCompose`].
    CheckingCompose(LabelsView, Seq<char>),
    /// See [`JobPhase::ReadingImageRef`].
    ReadingImageRef(ContextView),
    /// See [`JobPhase::ReadingImageId`].
    ReadingImageId(ContextView, Seq<char>),
    /// See [`JobPhase::Tagging`].
    Tagging(ContextView, Seq<char>, Seq<char>),
    /// See [`JobPhase::Pulling`].
    Pulling(ContextView, Option<Seq<char>>, Seq<char>),
    /// See [`JobPhase::Starting`].
    Starting(ContextView, Option<Seq<char>>, Seq<char>),
}

impl View for JobPhase {
    type V = PhaseView;

    open spec fn view(&self) -> PhaseView {
        match self {
            JobPhase::CheckingBackup => PhaseView::CheckingBackup,
            JobPhase::ReadingLabels => PhaseView::ReadingLabels,
            JobPhase::CheckingFiles { labels } => PhaseView::CheckingFiles(labels@),
            JobPhase::CheckingCompose { labels, path } => PhaseView::CheckingCompose(
                labels@,
                path@,
            ),
            JobPhase::ReadingImageRef { ctx } => PhaseView::ReadingImageRef(ctx@),
            JobPhase::ReadingImageId { ctx, image_ref } => PhaseView::ReadingImageId(
                ctx@,
                image_ref@,
            ),
            JobPhase::Tagging { ctx, image_ref, image_id } => PhaseView::Tagging(
                ctx@,
                image_ref@,
                image_id@,
            ),
            JobPhase::Pulling { ctx, previous, output } => PhaseView::Pulling(
                ctx@,
                view_opt(*previous),
                output@,
            ),
            JobPhase::Starting { ctx, previous, output } => PhaseView::Starting(
                ctx@,
                view_opt(*previous),
                output@,
            ),
        }
    }
}

/// An image operation under way.
#[derive(Debug)]
pub struct ImageJob {
    /// Whether it goes back to the image before the last update.
    pub rollback: bool,
    /// The image that is applied, or that is gone back to.
    pub image: String,
    /// The environment variable that names the own container.
    pub hostname: Option<String>,
    /// How far it has come.
    pub phase: JobPhase,
}

/// What an [`ImageJob`] says.
#[verifier::ext_equal]
pub struct JobView {
    /// Whether it goes back to the image before the last update.
    pub rollback: bool,
    /// The image that is applied, or that is gone back to.
    pub image: Seq<char>,
    /// The environment variable that names the own container.
    pub hostname: Option<Seq<char>>,
    /// How far it has come.
    pub phase: PhaseView,
}

impl View for ImageJob {
    type V = JobView;

    open spec fn view(&self) -> JobView {
        JobView {
            rollback: self.rollback,
            image: self.image@,
            hostname: view_opt(self.hostname),
            phase: self.phase@,
        }
    }
}

/// What an image operation asks for.
#[derive(Debug)]
pub enum JobAction {
    /// Run a command.
    Run(CommandLine),
    /// Say whether the two paths of the compose file are regular files.
    CheckFiles {
        /// The path on the host.
        host_path: String,
        /// The default path.
        default_path: String,
    },
    /// Say what is found at `path`.
    CheckFile {
        /// The path.
        path: String,
    },
}

/// What a [`JobAction`] says.
#[verifier::ext_equal]
pub enum ActionView {
    /// See [`JobAction::Run`].
    Run(CommandView),
    /// See [`JobAction::CheckFiles`].
    CheckFiles(Seq<char>, Seq<char>),
    /// See [`JobAction::CheckFile`].
    CheckFile(Seq<char>),
}

impl View for JobAction {
    type V = ActionView;

    open spec fn view(&self) -> ActionView {
        match self {
            JobAction::Run(command) => ActionView::Run(command@),
            JobAction::CheckFiles { host_path, default_path } => ActionView::CheckFiles(
                host_path@,
                default_path@,
            ),
            JobAction::CheckFile { path } => ActionView::CheckFile(path@),
        }
    }
}

/// What came of a [`JobAction`].
#[derive(Debug)]
pub enum JobEvent {
    /// The command was run.
    Ran(CommandOutcome),
    /// The paths were looked at.
    Files {
        /// Whether the path on the host is a regular file here.
        host_is_file: bool,
        /// Whether the default path is a regular file.
        default_is_file: bool,
    },
    /// The path was looked at.
    File(FileKind),
}

/// What a [`JobEvent`] says.
#[verifier::ext_equal]
pub enum EventView {
    /// See [`JobEvent::Ran`].
    Ran(OutcomeView),
    /// See [`JobEvent::Files`].
    Files(bool, bool),
    /// See [`JobEvent::File`].
    File(FileView),
}

impl View for JobEvent {
    type V = EventView;

    open spec fn view(&self) -> EventView {
        match self {
            JobEvent::Ran(outcome) => EventView::Ran(outcome@),
            JobEvent::Files { host_is_file, default_is_file } => EventView::Files(
                *host_is_file,
                *default_is_file,
            ),
            JobEvent::File(kind) => EventView::File(kind@),
        }
    }
}

/// What an image operation that succeeded changes in the settings, and its
/// answer.
#[derive(Debug)]
pub struct ImageResult {
    /// The answer.
    pub response: ImageUpdateResponse,
    /// The new image to go back to.
    pub previous_image: Option<String>,
    /// The new image that updates come from.
    pub image: Option<String>,
}

/// What an [`ImageResult`] says.
#[verifier::ext_equal]
pub struct ResultView {
    /// The answer.
    pub response: ImageUpdateView,
    /// The new image to go back to.
    pub previous_image: Option<Seq<char>>,
    /// The new image that updates come from.
    pub image: Option<Seq<char>>,
}

impl View for ImageResult {
    type V = ResultView;

    open spec fn view(&self) -> ResultView {
        ResultView {
            response: self.response@,
            previous_image: view_opt(self.previous_image),
            image: view_opt(self.image),
        }
    }
}

/// What follows in an image operation.
#[derive(Debug)]
pub enum JobStep {
    /// It goes on once `action` is done.
    Wait {
        /// The operation.
        job: ImageJob,
        /// What to do.
        action: JobAction,
    },
    /// It has succeeded.
    Finished(ImageResult),
    /// It has failed.
    Failed(AdminServiceError),
}

/// What a [`JobStep`] says.
#[verifier::ext_equal]
pub enum StepView {
    /// See [`JobStep::Wait`].
    Wait(JobView, ActionView),
    /// See [`JobStep::Finished`].
    Finished(ResultView),
    /// See [`JobStep::Failed`].
    Failed(ErrorView),
}

impl View for JobStep {
    type V = StepView;

    open spec fn view(&self) -> StepView {
        match self {
            JobStep::Wait { job, action } => StepView::Wait(job@, action@),
            JobStep::Finished(result) => StepView::Finished(result@),
            JobStep::Failed(e) => StepView::Failed(e@),
        }
    }
}

impl JobView {
    /// The operation in another phase.
    pub open spec fn at(self, phase: PhaseView) -> JobView {
        JobView { phase, ..self }
    }

    /// Whether the event is of the kind that the operation waits for.
    pub open spec fn expects(self, event: EventView) -> bool {
        match self.phase {
            PhaseView::CheckingFiles(_) => event is Files,
            PhaseView::CheckingCompose(..) => event is File,
            _ => event is Ran,
        }
    }

    /// The name of the own container, once it is known to be there.
    pub open spec fn container(self) -> Seq<char> {
        container_name(self.hostname)->Ok_0
    }

    /// Asks docker for the compose file and the service.
    pub open spec fn read_labels(self) -> StepView {
        match container_name(self.hostname) {
            Ok(name) => StepView::Wait(
                self.at(PhaseView::ReadingLabels),
                ActionView::Run(inspect_call(labels_format(), name)),
            ),
            Err(e) => StepView::Failed(e),
        }
    }

    /// Pulls the image.
    pub open spec fn pull(
        self,
        ctx: ContextView,
        previous: Option<Seq<char>>,
        output: Seq<char>,
    ) -> StepView {
        StepView::Wait(
            self.at(PhaseView::Pulling(ctx, previous, output)),
            ActionView::Run(ctx.pull(self.image)),
        )
    }

    /// The image that compose is told to start: the backup in a rollback, which
    /// needs no registry.
    pub open spec fn image_to_start(self) -> Seq<char> {
        if self.rollback {
            rollback_tag()
        } else {
            self.image
        }
    }

    /// Starts the image.
    pub open spec fn start(
        self,
        ctx: ContextView,
        previous: Option<Seq<char>>,
        output: Seq<char>,
    ) -> StepView {
        StepView::Wait(
            self.at(PhaseView::Starting(ctx, previous, output)),
            ActionView::Run(ctx.up(self.image_to_start())),
        )
    }

    /// What a success means.
    pub open spec fn finished(self, previous: Option<Seq<char>>, output: Seq<char>) -> ResultView {
        ResultView {
            response: ImageUpdateView {
                success: true,
                message: if self.rollback {
                    "已回退到镜像 "@ + self.image
                } else {
                    "镜像已更新并应用，容器将由 Docker Compose 重建"@
                },
                image: self.image,
                output: Some(output),
                applied: true,
                need_restart: true,
            },
            previous_image: if self.rollback {
                None
            } else {
                previous
            },
            image: if self.rollback {
                Some(self.image)
            } else {
                None
            },
        }
    }

    /// Whether this is the directory of the host's compose file, where that is
    /// needed for what follows.
    pub open spec fn finds_parent(self, parent: Option<Seq<char>>) -> bool {
        match self.phase {
            PhaseView::CheckingCompose(labels, _) => is_parent(labels.compose_file, parent),
            _ => true,
        }
    }

    /// What follows when the operation gets what it waits for. `parent` is the
    /// directory of the host's compose file.
    ///
    /// An update tags the running image before it pulls the new one, so that
    /// there is something to go back to; if that fails it goes on and says so in
    /// its output. Nothing is recorded before the image has been started.
    pub open spec fn next(self, event: EventView, parent: Option<Seq<char>>) -> StepView {
        match (self.phase, event) {
            (PhaseView::CheckingBackup, EventView::Ran(outcome)) => if command_result(
                backup_call(),
                outcome,
            ) is Ok {
                self.read_labels()
            } else {
                StepView::Failed(
                    ErrorView::Internal(
                        "本地未找到备份镜像 kiro-rs:rollback，可能已被 docker image prune 清理。无法离线回退。"@,
                    ),
                )
            },
            (PhaseView::ReadingLabels, EventView::Ran(outcome)) => match inspect_result(
                inspect_call(labels_format(), self.container()),
                outcome,
            ) {
                Ok(raw) => match compose_labels(raw) {
                    Ok(labels) => StepView::Wait(
                        self.at(PhaseView::CheckingFiles(labels)),
                        ActionView::CheckFiles(labels.compose_file, default_compose_path()),
                    ),
                    Err(e) => StepView::Failed(e),
                },
                Err(e) => StepView::Failed(e),
            },
            (
                PhaseView::CheckingFiles(labels),
                EventView::Files(host_is_file, default_is_file),
            ) => match compose_path(labels.compose_file, host_is_file, default_is_file) {
                Ok(path) => StepView::Wait(
                    self.at(PhaseView::CheckingCompose(labels, path)),
                    ActionView::CheckFile(path),
                ),
                Err(e) => StepView::Failed(e),
            },
            (
                PhaseView::CheckingCompose(labels, path),
                EventView::File(kind),
            ) => match compose_file_problem(path, kind) {
                Some(e) => StepView::Failed(e),
                None => {
                    let ctx = ContextView {
                        dir: project_dir(parent),
                        file: path,
                        service: labels.service,
                    };
                    if self.rollback {
                        self.start(ctx, None, Seq::empty())
                    } else {
                        StepView::Wait(
                            self.at(PhaseView::ReadingImageRef(ctx)),
                            ActionView::Run(inspect_call("{{.Config.Image}}"@, self.container())),
                        )
                    }
                },
            },
            (PhaseView::ReadingImageRef(ctx), EventView::Ran(outcome)) => match inspect_result(
                inspect_call("{{.Config.Image}}"@, self.container()),
                outcome,
            ) {
                Ok(image_ref) => StepView::Wait(
                    self.at(PhaseView::ReadingImageId(ctx, image_ref)),
                    ActionView::Run(inspect_call("{{.Image}}"@, self.container())),
                ),
                Err(e) => self.pull(ctx, None, unread_warning(e)),
            },
            (
                PhaseView::ReadingImageId(ctx, image_ref),
                EventView::Ran(outcome),
            ) => match inspect_result(inspect_call("{{.Image}}"@, self.container()), outcome) {
                Ok(image_id) => match running_image(image_ref, image_id) {
                    Ok(_) => StepView::Wait(
                        self.at(PhaseView::Tagging(ctx, image_ref, image_id)),
                        ActionView::Run(tag_call(image_id)),
                    ),
                    Err(e) => self.pull(ctx, None, unread_warning(e)),
                },
                Err(e) => self.pull(ctx, None, unread_warning(e)),
            },
            (
                PhaseView::Tagging(ctx, image_ref, image_id),
                EventView::Ran(outcome),
            ) => match command_result(tag_call(image_id), outcome) {
                Ok(text) => self.pull(ctx, Some(image_ref), text),
                Err(e) => self.pull(ctx, None, untagged_warning(e)),
            },
            (
                PhaseView::Pulling(ctx, previous, output),
                EventView::Ran(outcome),
            ) => match command_result(ctx.pull(self.image), outcome) {
                Ok(text) => self.start(ctx, previous, output + text),
                Err(e) => StepView::Failed(e),
            },
            (
                PhaseView::Starting(ctx, previous, output),
                EventView::Ran(outcome),
            ) => match command_result(ctx.up(self.image_to_start()), outcome) {
                Ok(text) => StepView::Finished(self.finished(previous, output + text)),
                Err(e) => StepView::Failed(e),
            },
            _ => StepView::Failed(ErrorView::Internal(Seq::empty())),
        }
    }

    /// Whether the operation can have come this far: only a rollback checks its
    /// backup, only an update reads the running image and pulls, and from the
    /// labels on the own container has a name.
    pub open spec fn wf(self) -> bool {
        match self.phase {
            PhaseView::CheckingBackup => self.rollback,
            PhaseView::ReadingLabels => container_name(self.hostname) is Ok,
            PhaseView::CheckingFiles(_) => container_name(self.hostname) is Ok,
            PhaseView::CheckingCompose(..) => container_name(self.hostname) is Ok,
            PhaseView::Starting(_, previous, _) => container_name(self.hostname) is Ok && (
            self.rollback ==> previous is None),
            _ => container_name(self.hostname) is Ok && !self.rollback,
        }
    }
}

/// What the output says if the running image cannot be read.
pub open spec fn unread_warning(e: ErrorView) -> Seq<char> {
    "warning: 读取当前镜像信息失败: "@ + e.message() + "\n"@
}

/// What the output says if the running image cannot be tagged.
pub open spec fn untagged_warning(e: ErrorView) -> Seq<char> {
    "warning: 备份当前镜像失败: "@ + e.message() + "\n"@
}

fn warning(head: &str, e: &AdminServiceError) -> (r: String)
    ensures
        r@ == head@ + e@.message() + "\n"@,
{
    let mut out = head.to_string();
    out.append(e.message().as_str());
    out.append("\n");
    out
}

fn ask_container(job: &ImageJob, format: &str) -> (r: CommandLine)
    requires
        container_name(view_opt(job.hostname)) is Ok,
    ensures
        r@ == inspect_call(format@, job@.container()),
{
    match inspect_self_container(format, &job.hostname) {
        Ok(command) => command,
        Err(_) => {
            assert(false);
            run_command(Vec::new())
        },
    }
}

fn read_labels(job: ImageJob) -> (r: JobStep)
    ensures
        r@ == job@.read_labels(),
{
    let format = "{{index .Config.Labels \"com.docker.compose.project.config_files\"}}|{{index .Config.Labels \"com.docker.compose.service\"}}";
    match inspect_self_container(format, &job.hostname) {
        Ok(command) => JobStep::Wait {
            job: ImageJob { phase: JobPhase::ReadingLabels, ..job },
            action: JobAction::Run(command),
        },
        Err(e) => JobStep::Failed(e),
    }
}

fn pull(job: ImageJob, ctx: ComposeContext, previous: Option<String>, output: String) -> (r: JobStep)
    ensures
        r@ == job@.pull(ctx@, view_opt(previous), output@),
{
    let command = ctx.compose_pull(job.image.as_str());
    JobStep::Wait {
        job: ImageJob { phase: JobPhase::Pulling { ctx, previous, output }, ..job },
        action: JobAction::Run(command),
    }
}

fn start_command(job: &ImageJob, ctx: &ComposeContext) -> (r: CommandLine)
    ensures
        r@ == ctx@.up(job@.image_to_start()),
{
    if job.rollback {
        ctx.compose_up("kiro-rs:rollback")
    } else {
        ctx.compose_up(job.image.as_str())
    }
}

fn start(job: ImageJob, ctx: ComposeContext, previous: Option<String>, output: String) -> (r:
    JobStep)
    ensures
        r@ == job@.start(ctx@, view_opt(previous), output@),
{
    let command = start_command(&job, &ctx);
    JobStep::Wait {
        job: ImageJob { phase: JobPhase::Starting { ctx, previous, output }, ..job },
        action: JobAction::Run(command),
    }
}

fn finish(rollback: bool, image: String, previous: Option<String>, output: String) -> (r:
    ImageResult)
    ensures
        r@ == (JobView {
            rollback,
            image: image@,
            hostname: None,
            phase: PhaseView::ReadingLabels,
        }).finished(view_opt(previous), output@),
{
    let message = if rollback {
        let mut m = "已回退到镜像 ".to_string();
        m.append(image.as_str());
        m
    } else {
        "镜像已更新并应用，容器将由 Docker Compose 重建".to_string()
    };
    let stored = if rollback {
        Some(image.clone())
    } else {
        None
    };
    ImageResult {
        response: ImageUpdateResponse {
            success: true,
            message,
            image,
            output: Some(output),
            applied: true,
            need_restart: true,
        },
        previous_image: if rollback {
            None
        } else {
            previous
        },
        image: stored,
    }
}

impl ImageJob {
    /// Goes on with what the operation waited for.
    pub fn resume(self, event: JobEvent) -> (r: JobStep)
        requires
            self@.wf(),
            self@.expects(event@),
        ensures
            exists|parent: Option<Seq<char>>|
                self@.finds_parent(parent) && r@ == #[trigger] self@.next(event@, parent),
            r matches JobStep::Wait { job, .. } ==> job@.wf(),
    {
        let parent = match &self.phase {
            JobPhase::CheckingCompose { labels, .. } => parent_dir(labels.compose_file.as_str()),
            _ => None,
        };
        assert(self@.finds_parent(view_opt(parent)));
        self.resume_with(event, parent)
    }

    /// Goes on with what the operation waited for, where `parent` is the
    /// directory of the host's compose file.
    pub fn resume_with(self, event: JobEvent, parent: Option<String>) -> (r: JobStep)
        requires
            self@.wf(),
            self@.expects(event@),
        ensures
            r@ == self@.next(event@, view_opt(parent)),
            r matches JobStep::Wait { job, .. } ==> job@.wf(),
    {
        let rollback = self.rollback;
        let ImageJob { rollback: _, image, hostname, phase } = self;
        match (phase, event) {
            (JobPhase::CheckingBackup, JobEvent::Ran(outcome)) => {
                let command = rollback_image_present();
                match run_command_with_env(&command, &outcome) {
                    Ok(_) => read_labels(
                        ImageJob { rollback, image, hostname, phase: JobPhase::CheckingBackup },
                    ),
                    Err(_) => JobStep::Failed(
                        AdminServiceError::InternalError(
                            "本地未找到备份镜像 kiro-rs:rollback，可能已被 docker image prune 清理。无法离线回退。".to_string(),
                        ),
                    ),
                }
            },
            (JobPhase::ReadingLabels, JobEvent::Ran(outcome)) => {
                let job = ImageJob { rollback, image, hostname, phase: JobPhase::ReadingLabels };
                let command = ask_container(
                    &job,
                    "{{index .Config.Labels \"com.docker.compose.project.config_files\"}}|{{index .Config.Labels \"com.docker.compose.service\"}}",
                );
                match inspected(&command, &outcome) {
                    Ok(raw) => match detect_compose_metadata(raw.as_str()) {
                        Ok(labels) => {
                            let host_path = labels.compose_file.clone();
                            JobStep::Wait {
                                job: ImageJob { phase: JobPhase::CheckingFiles { labels }, ..job },
                                action: JobAction::CheckFiles {
                                    host_path,
                                    default_path: "/app/config/docker-compose.yml".to_string(),
                                },
                            }
                        },
                        Err(e) => JobStep::Failed(e),
                    },
                    Err(e) => JobStep::Failed(e),
                }
            },
            (
                JobPhase::CheckingFiles { labels },
                JobEvent::Files { host_is_file, default_is_file },
            ) => {
                match resolve_in_container_compose_path(
                    labels.compose_file.as_str(),
                    host_is_file,
                    default_is_file,
                ) {
                    Ok(path) => {
                        let looked_at = path.clone();
                        let phase = JobPhase::CheckingCompose { labels, path };
                        JobStep::Wait {
                            job: ImageJob { rollback, image, hostname, phase },
                            action: JobAction::CheckFile { path: looked_at },
                        }
                    },
                    Err(e) => JobStep::Failed(e),
                }
            },
            (JobPhase::CheckingCompose { labels, path }, JobEvent::File(kind)) => {
                match ensure_compose_file_exists(path.as_str(), &kind) {
                    Err(e) => JobStep::Failed(e),
                    Ok(()) => {
                        let ctx = ComposeContext::detect(&labels, path, &parent);
                        let job = ImageJob {
                            rollback,
                            image,
                            hostname,
                            phase: JobPhase::ReadingLabels,
                        };
                        if rollback {
                            start(job, ctx, None, String::new())
                        } else {
                            let command = ask_container(&job, "{{.Config.Image}}");
                            JobStep::Wait {
                                job: ImageJob { phase: JobPhase::ReadingImageRef { ctx }, ..job },
                                action: JobAction::Run(command),
                            }
                        }
                    },
                }
            },
            (JobPhase::ReadingImageRef { ctx }, JobEvent::Ran(outcome)) => {
                let job = ImageJob { rollback, image, hostname, phase: JobPhase::ReadingLabels };
                let asked = ask_container(&job, "{{.Config.Image}}");
                match inspected(&asked, &outcome) {
                    Ok(image_ref) => {
                        let command = ask_container(&job, "{{.Image}}");
                        JobStep::Wait {
                            job: ImageJob {
                                phase: JobPhase::ReadingImageId { ctx, image_ref },
                                ..job
                            },
                            action: JobAction::Run(command),
                        }
                    },
                    Err(e) => pull(job, ctx, None, warning("warning: 读取当前镜像信息失败: ", &e)),
                }
            },
            (JobPhase::ReadingImageId { ctx, image_ref }, JobEvent::Ran(outcome)) => {
                let job = ImageJob { rollback, image, hostname, phase: JobPhase::ReadingLabels };
                let asked = ask_container(&job, "{{.Image}}");
                match inspected(&asked, &outcome) {
                    Ok(image_id) => match detect_running_image(image_ref, image_id) {
                        Ok((image_ref, image_id)) => {
                            let command = tag_rollback_image(image_id.as_str());
                            JobStep::Wait {
                                job: ImageJob {
                                    phase: JobPhase::Tagging { ctx, image_ref, image_id },
                                    ..job
                                },
                                action: JobAction::Run(command),
                            }
                        },
                        Err(e) => pull(
                            job,
                            ctx,
                            None,
                            warning("warning: 读取当前镜像信息失败: ", &e),
                        ),
                    },
                    Err(e) => pull(job, ctx, None, warning("warning: 读取当前镜像信息失败: ", &e)),
                }
            },
            (JobPhase::Tagging { ctx, image_ref, image_id }, JobEvent::Ran(outcome)) => {
                let job = ImageJob { rollback, image, hostname, phase: JobPhase::ReadingLabels };
                let asked = tag_rollback_image(image_id.as_str());
                match run_command_with_env(&asked, &outcome) {
                    Ok(text) => pull(job, ctx, Some(image_ref), text),
                    Err(e) => pull(job, ctx, None, warning("warning: 备份当前镜像失败: ", &e)),
                }
            },
            (JobPhase::Pulling { ctx, previous, output }, JobEvent::Ran(outcome)) => {
                let asked = ctx.compose_pull(image.as_str());
                match run_command_with_env(&asked, &outcome) {
                    Ok(text) => {
                        let mut output = output;
                        output.append(text.as_str());
                        start(
                            ImageJob { rollback, image, hostname, phase: JobPhase::ReadingLabels },
                            ctx,
                            previous,
                            output,
                        )
                    },
                    Err(e) => JobStep::Failed(e),
                }
            },
            (JobPhase::Starting { ctx, previous, output }, JobEvent::Ran(outcome)) => {
                let job = ImageJob { rollback, image, hostname, phase: JobPhase::ReadingLabels };
                let asked = start_command(&job, &ctx);
                match run_command_with_env(&asked, &outcome) {
                    Ok(text) => {
                        let mut output = output;
                        output.append(text.as_str());
                        JobStep::Finished(finish(rollback, job.image, previous, output))
                    },
                    Err(e) => JobStep::Failed(e),
                }
            },
            _ => {
                assert(false);
                JobStep::Failed(AdminServiceError::InternalError(String::new()))
            },
        }
    }
}

/// The call that pulls an image without compose.
pub open spec fn pull_call(image: Seq<char>) -> CommandView {
    docker(seq!["pull"@, image])
}

/// An image that is to be pulled.
#[derive(Debug)]
pub struct ImagePull {
    /// The image.
    pub image: String,
    /// The command to run.
    pub command: CommandLine,
}

/// Takes what came of pulling an image.
pub fn image_pulled(pull: ImagePull, outcome: &CommandOutcome) -> (r: Result<
    ImageUpdateResponse,
    AdminServiceError,
>)
    ensures
        match command_result(pull.command@, outcome@) {
            Ok(text) => r matches Ok(answer) && answer@ == (ImageUpdateView {
                success: true,
                message: "镜像拉取完成"@,
                image: pull.image@,
                output: Some(text),
                applied: false,
                need_restart: false,
            }),
            Err(e) => r matches Err(f) && f@ == e,
        },
{
    match run_command_with_env(&pull.command, outcome) {
        Ok(text) => Ok(
            ImageUpdateResponse {
                success: true,
                message: "镜像拉取完成".to_string(),
                image: pull.image,
                output: Some(text),
                applied: false,
                need_restart: false,
            },
        ),
        Err(e) => Err(e),
    }
}

/// The image that a rollback goes back to, if one is recorded.
pub open spec fn recorded_image(previous: Option<Seq<char>>) -> Option<Seq<char>> {
    match previous {
        Some(p) if trim(p).len() > 0 => Some(trim(p)),
        _ => None,
    }
}

impl RuntimeUpdateConfig {
    /// The settings after an image operation that succeeded.
    pub open spec fn after_image(self, result: ImageResult) -> RuntimeUpdateConfig {
        RuntimeUpdateConfig {
            image: match result.image {
                Some(image) => image,
                None => self.image,
            },
            previous_image: match result.previous_image {
                Some(image) => Some(image),
                None => self.previous_image,
            },
            ..self
        }
    }
}

impl Config {
    /// The stored settings after an image operation that succeeded.
    pub open spec fn after_image(self, result: ImageResult) -> Config {
        Config {
            update_image: match result.image {
                Some(image) => image,
                None => self.update_image,
            },
            update_previous_image: match result.previous_image {
                Some(image) => Some(image),
                None => self.update_previous_image,
            },
            ..self
        }
    }

    /// Records an image operation that succeeded in the stored settings.
    pub fn record_image(&mut self, result: &ImageResult)
        ensures
            *final(self) == old(self).after_image(*result),
    {
        if let Some(image) = &result.image {
            self.update_image = image.clone();
        }
        if let Some(image) = &result.previous_image {
            self.update_previous_image = Some(image.clone());
        }
    }
}

impl AdminService {
    /// Checks the configured image, and says how it is pulled.
    pub fn pull_update_image(&self) -> (r: Result<ImagePull, AdminServiceError>)
        ensures
            match image_problem(trim(self.update_config.image@)) {
                None => r matches Ok(pull) && {
                    &&& pull.image@ == trim(self.update_config.image@)
                    &&& pull.command@ == pull_call(trim(self.update_config.image@))
                },
                Some(message) => r matches Err(e) && e@ == ErrorView::Invalid(message),
            },
    {
        let image = trimmed(self.update_config.image.as_str());
        match validate_image_ref(image.as_str()) {
            Ok(()) => {},
            Err(e) => return Err(e),
        }
        let command = run_command(vec!["pull".to_string(), image.clone()]);
        assert(command@.args =~= pull_call(image@).args);
        Ok(ImagePull { image, command })
    }

    /// Checks the configured image, and starts to apply it. `hostname` is the
    /// environment variable that names the own container.
    pub fn apply_image_update(&self, hostname: Option<String>) -> (r: JobStep)
        ensures
            r@ == (match image_problem(trim(self.update_config.image@)) {
                None => starting_update(
                    trim(self.update_config.image@),
                    view_opt(hostname),
                ).read_labels(),
                Some(message) => StepView::Failed(ErrorView::Invalid(message)),
            }),
            r matches JobStep::Wait { job, .. } ==> job@.wf() && !job@.rollback,
    {
        let image = trimmed(self.update_config.image.as_str());
        match validate_image_ref(image.as_str()) {
            Ok(()) => {},
            Err(e) => return JobStep::Failed(e),
        }
        read_labels(
            ImageJob { rollback: false, image, hostname, phase: JobPhase::ReadingLabels },
        )
    }

    /// Starts to go back to the image that was running before the last update.
    pub fn rollback_image_update(&self, hostname: Option<String>) -> (r: JobStep)
        ensures
            r@ == (match recorded_image(view_opt(self.update_config.previous_image)) {
                Some(image) => StepView::Wait(
                    starting_rollback(image, view_opt(hostname)),
                    ActionView::Run(backup_call()),
                ),
                None => StepView::Failed(
                    ErrorView::Invalid("尚未记录可回退的镜像版本，请先执行一次在线更新"@),
                ),
            }),
            r matches JobStep::Wait { job, .. } ==> job@.wf() && job@.rollback,
    {
        if let Some(previous) = &self.update_config.previous_image {
            let image = trimmed(previous.as_str());
            if !image.as_str().is_empty() {
                return JobStep::Wait {
                    job: ImageJob { rollback: true, image, hostname, phase: JobPhase::CheckingBackup },
                    action: JobAction::Run(rollback_image_present()),
                };
            }
        }
        JobStep::Failed(
            AdminServiceError::InvalidCredential(
                "尚未记录可回退的镜像版本，请先执行一次在线更新".to_string(),
            ),
        )
    }

    /// Records an image operation that succeeded.
    pub fn record_image(&mut self, result: &ImageResult)
        ensures
            *final(self) == (AdminService {
                update_config: old(self).update_config.after_image(*result),
                ..*old(self)
            }),
    {
        if let Some(image) = &result.image {
            self.update_config.image = image.clone();
        }
        if let Some(image) = &result.previous_image {
            self.update_config.previous_image = Some(image.clone());
        }
    }
}

/// The start of an update.
pub open spec fn starting_update(image: Seq<char>, hostname: Option<Seq<char>>) -> JobView {
    JobView { rollback: false, image, hostname, phase: PhaseView::ReadingLabels }
}

/// The start of a rollback.
pub open spec fn starting_rollback(image: Seq<char>, hostname: Option<Seq<char>>) -> JobView {
    JobView { rollback: true, image, hostname, phase: PhaseView::CheckingBackup }
}

/// Whether a command asks a registry for an image.
pub open spec fn is_pull(command: CommandView) -> bool {
    ||| exists|image: Seq<char>| command == #[trigger] pull_call(image)
    ||| exists|ctx: ContextView, image: Seq<char>| command == #[trigger] ctx.pull(image)
}

/// A rollback never asks a registry for an image, whatever happens on the way:
/// what it runs is about its own container, about the backup, or starts the
/// backup.
pub proof fn rollback_never_pulls(
    job: JobView,
    event: EventView,
    parent: Option<Seq<char>>,
    command: CommandView,
)
    requires
        job.rollback,
        job.wf(),
        job.expects(event),
        job.next(event, parent) matches StepView::Wait(_, ActionView::Run(c)) && c == command,
    ensures
        job.next(event, parent)->Wait_0.rollback,
        job.next(event, parent)->Wait_0.image == job.image,
        !is_pull(command),
        !is_pull(backup_call()),
{
    assert(backup_call().args.len() == 3);
    assert forall|image: Seq<char>| backup_call() != #[trigger] pull_call(image) by {
        assert(pull_call(image).args.len() == 2);
    }
    assert forall|c: ContextView, image: Seq<char>| backup_call() != #[trigger] c.pull(image) by {
        assert(c.pull(image).args.len() == 7);
    }
    let ctx = job.next(event, parent)->Wait_0.phase->Starting_0;
    assert(command == inspect_call(labels_format(), job.container()) || command == ctx.up(
        rollback_tag(),
    ));
    assert(command.args.len() == 4 || command.args.len() == 8);
    if exists|image: Seq<char>| command == #[trigger] pull_call(image) {
        let image = choose|image: Seq<char>| command == #[trigger] pull_call(image);
        assert(command.args.len() == 2);
    }
    if exists|c: ContextView, image: Seq<char>| command == #[trigger] c.pull(image) {
        let (c, image) = choose|c: ContextView, image: Seq<char>| command == #[trigger] c.pull(image);
        assert(command.args.len() == 7);
    }
}

/// The image to go back to is recorded only if it was tagged, so that there is
/// something to go back to.
pub proof fn recorded_image_was_tagged(
    job: JobView,
    event: EventView,
    parent: Option<Seq<char>>,
    ctx: ContextView,
    previous: Seq<char>,
    output: Seq<char>,
)
    requires
        job.wf(),
        job.expects(event),
        job.next(event, parent) matches StepView::Wait(next, _) && next.phase == PhaseView::Pulling(
            ctx,
            Some(previous),
            output,
        ),
    ensures
        job.phase matches PhaseView::Tagging(_, image_ref, image_id) && {
            &&& previous == image_ref
            &&& event matches EventView::Ran(outcome) && command_result(
                tag_call(image_id),
                outcome,
            ) is Ok
        },
{
}

/// An operation changes the settings only after the image was started, and then
/// an update records the image to go back to, if there is one, and a rollback
/// the image that it went back to.
pub proof fn settings_change_after_the_start(
    job: JobView,
    event: EventView,
    parent: Option<Seq<char>>,
)
    requires
        job.wf(),
        job.expects(event),
        job.next(event, parent) is Finished,
    ensures
        job.phase matches PhaseView::Starting(ctx, previous, _) && {
            &&& event matches EventView::Ran(outcome) && command_result(
                ctx.up(job.image_to_start()),
                outcome,
            ) is Ok
            &&& job.next(event, parent)->Finished_0.previous_image == if job.rollback {
                None
            } else {
                previous
            }
            &&& job.next(event, parent)->Finished_0.image == if job.rollback {
                Some(job.image)
            } else {
                None
            }
        },
{
}

/// An update goes on even if the running image cannot be read or tagged.
pub proof fn missing_backup_does_not_stop_an_update(
    job: JobView,
    event: EventView,
    parent: Option<Seq<char>>,
)
    requires
        job.wf(),
        job.expects(event),
        job.phase is ReadingImageRef || job.phase is ReadingImageId || job.phase is Tagging,
    ensures
        job.next(event, parent) is Wait,
{
}

/// How many steps an operation takes at most from a phase on.
pub open spec fn steps_left(phase: PhaseView) -> nat {
    match phase {
        PhaseView::CheckingBackup => 9,
        PhaseView::ReadingLabels => 8,
        PhaseView::CheckingFiles(_) => 7,
        PhaseView::CheckingCompose(..) => 6,
        PhaseView::ReadingImageRef(_) => 5,
        PhaseView::ReadingImageId(..) => 4,
        PhaseView::Tagging(..) => 3,
        PhaseView::Pulling(..) => 2,
        PhaseView::Starting(..) => 1,
    }
}

/// Every operation comes to an end: each step leaves fewer steps.
pub proof fn image_operation_ends(
    job: JobView,
    event: EventView,
    parent: Option<Seq<char>>,
)
    requires
        job.wf(),
        job.expects(event),
        job.next(event, parent) is Wait,
    ensures
        steps_left(job.next(event, parent)->Wait_0.phase) < steps_left(job.phase),
        job.next(event, parent)->Wait_0.wf(),
{
}

/// Every step of an operation keeps what it is about: whether it goes back, the
/// image, and the own container.
pub proof fn every_step_keeps_the_goal(
    job: ImageJob,
    event: JobEvent,
    parent: Option<String>,
    next: ImageJob,
    action: JobAction,
)
    requires
        job@.wf(),
        job@.expects(event@),
        call_ensures(
            ImageJob::resume_with,
            (job, event, parent),
            JobStep::Wait { job: next, action },
        ),
    ensures
        next.rollback == job.rollback,
        next.image@ == job.image@,
        view_opt(next.hostname) == view_opt(job.hostname),
{
}

/// Once an update has pulled its image it starts that image: compose is told to
/// bring the service up with the very image that it was told to pull, in the same
/// project.
pub proof fn an_update_starts_what_it_has_pulled(
    job: ImageJob,
    ctx: ComposeContext,
    previous: Option<String>,
    output: String,
    outcome: CommandOutcome,
    parent: Option<String>,
    r: JobStep,
)
    requires
        !job.rollback,
        job.phase == (JobPhase::Pulling { ctx, previous, output }),
        outcome matches CommandOutcome::Finished { success, .. } && success,
        call_ensures(ImageJob::resume_with, (job, JobEvent::Ran(outcome), parent), r),
    ensures
        r matches JobStep::Wait { job: next, action: JobAction::Run(command) } && {
            &&& command.program@ == "docker"@
            &&& views(command.args@) == seq![
                "compose"@,
                "--project-directory"@,
                ctx.host_project_dir@,
                "-f"@,
                ctx.in_container_compose@,
                "up"@,
                "-d"@,
                ctx.service@,
            ]
            &&& command.envs@.len() == 1
            &&& command.envs@[0].0@ == "KIRO_RS_IMAGE"@
            &&& command.envs@[0].1@ == job.image@
            &&& next.phase is Starting
            &&& !next.rollback
            &&& next.image@ == job.image@
        },
{
    assert(r is Wait && r->action is Run);
    let command = r->action->Run_0;
    only_environment(command, job.image@);
    assert(views(command.args@) =~= command@.args);
}

/// An update that is about to pull tells compose the image that it is about, and
/// whatever came of the backup does not change that.
pub proof fn an_update_pulls_its_image(
    job: ImageJob,
    ctx: ComposeContext,
    event: JobEvent,
    parent: Option<String>,
    next: ImageJob,
    action: JobAction,
)
    requires
        job@.wf(),
        job@.expects(event@),
        call_ensures(
            ImageJob::resume_with,
            (job, event, parent),
            JobStep::Wait { job: next, action },
        ),
        next.phase matches JobPhase::Pulling { ctx: c, .. } && c@ == ctx@,
    ensures
        !job.rollback,
        action matches JobAction::Run(command) && {
            &&& command.program@ == "docker"@
            &&& views(command.args@) == seq![
                "compose"@,
                "--project-directory"@,
                ctx.host_project_dir@,
                "-f"@,
                ctx.in_container_compose@,
                "pull"@,
                ctx.service@,
            ]
            &&& command.envs@.len() == 1
            &&& command.envs@[0].0@ == "KIRO_RS_IMAGE"@
            &&& command.envs@[0].1@ == job.image@
        },
{
    assert(action is Run);
    let command = action->Run_0;
    only_environment(command, job.image@);
    assert(views(command.args@) =~= command@.args);
}

/// A rollback starts the backup, in the project whose compose file was found,
/// right after that file was found: nothing is pulled or tagged before.
pub proof fn a_rollback_starts_the_backup(
    job: ImageJob,
    labels: ComposeLabels,
    path: String,
    kind: FileKind,
    parent: Option<String>,
    r: JobStep,
)
    requires
        job.rollback,
        container_name(view_opt(job.hostname)) is Ok,
        job.phase == (JobPhase::CheckingCompose { labels, path }),
        kind is Regular,
        call_ensures(ImageJob::resume_with, (job, JobEvent::File(kind), parent), r),
    ensures
        r matches JobStep::Wait { job: next, action: JobAction::Run(command) } && {
            &&& command.program@ == "docker"@
            &&& views(command.args@) == seq![
                "compose"@,
                "--project-directory"@,
                match parent {
                    Some(dir) => if dir@.len() > 0 { dir@ } else { "."@ },
                    None => "."@,
                },
                "-f"@,
                path@,
                "up"@,
                "-d"@,
                labels.service@,
            ]
            &&& command.envs@.len() == 1
            &&& command.envs@[0].0@ == "KIRO_RS_IMAGE"@
            &&& command.envs@[0].1@ == "kiro-rs:rollback"@
            &&& next.phase is Starting
            &&& next.rollback
            &&& next.image@ == job.image@
        },
{
    assert(r is Wait && r->action is Run);
    let command = r->action->Run_0;
    only_environment(command, "kiro-rs:rollback"@);
    assert(views(command.args@) =~= command@.args);
}

proof fn only_environment(command: CommandLine, image: Seq<char>)
    requires
        command@.envs == seq![("KIRO_RS_IMAGE"@, image)],
    ensures
        command.envs@.len() == 1,
        command.envs@[0].0@ == "KIRO_RS_IMAGE"@,
        command.envs@[0].1@ == image,
{
    assert(command@.envs.len() == 1);
    assert(command@.envs[0] == ("KIRO_RS_IMAGE"@, image));
}

/// An update from its start to its end, where every command succeeds: docker is
/// asked for the labels, the reference and the id of the own container; the running
/// image is tagged as the backup by its id; the configured image is pulled and the
/// same image is started, with the same compose file, directory and service. The
/// answer names that image, and the image that was running before is recorded.
#[verifier::rlimit(60)]
#[verifier::spinoff_prover]
pub proof fn a_whole_update(
    service: AdminService,
    hostname: String,
    jobs: Seq<ImageJob>,
    actions: Seq<JobAction>,
    outcomes: Seq<CommandOutcome>,
    files: (bool, bool),
    kind: FileKind,
    parent: Option<String>,
    result: ImageResult,
)
    requires
        jobs.len() == 8 && actions.len() == 8 && outcomes.len() == 8,
        call_ensures(
            AdminService::apply_image_update,
            (&service, Some(hostname)),
            JobStep::Wait { job: jobs[0], action: actions[0] },
        ),
        call_ensures(
            ImageJob::resume_with,
            (jobs[0], JobEvent::Ran(outcomes[0]), None),
            JobStep::Wait { job: jobs[1], action: actions[1] },
        ),
        call_ensures(
            ImageJob::resume_with,
            (
                jobs[1],
                JobEvent::Files { host_is_file: files.0, default_is_file: files.1 },
                None,
            ),
            JobStep::Wait { job: jobs[2], action: actions[2] },
        ),
        call_ensures(
            ImageJob::resume_with,
            (jobs[2], JobEvent::File(kind), parent),
            JobStep::Wait { job: jobs[3], action: actions[3] },
        ),
        call_ensures(
            ImageJob::resume_with,
            (jobs[3], JobEvent::Ran(outcomes[3]), None),
            JobStep::Wait { job: jobs[4], action: actions[4] },
        ),
        call_ensures(
            ImageJob::resume_with,
            (jobs[4], JobEvent::Ran(outcomes[4]), None),
            JobStep::Wait { job: jobs[5], action: actions[5] },
        ),
        call_ensures(
            ImageJob::resume_with,
            (jobs[5], JobEvent::Ran(outcomes[5]), None),
            JobStep::Wait { job: jobs[6], action: actions[6] },
        ),
        call_ensures(
            ImageJob::resume_with,
            (jobs[6], JobEvent::Ran(outcomes[6]), None),
            JobStep::Wait { job: jobs[7], action: actions[7] },
        ),
        call_ensures(
            ImageJob::resume_with,
            (jobs[7], JobEvent::Ran(outcomes[7]), None),
            JobStep::Finished(result),
        ),
        forall|i: int|
            0 <= i < 8 ==> (#[trigger] outcomes[i] matches CommandOutcome::Finished { success, .. }
                && success),
    ensures
        ({
            let image = trim(service.update_config.image@);
            let name = trim(hostname@);
            let labels = first_line(
                shown_output(outcomes[0]->stdout@, outcomes[0]->stderr@),
            );
            let image_ref = first_line(
                shown_output(outcomes[3]->stdout@, outcomes[3]->stderr@),
            );
            let image_id = first_line(
                shown_output(outcomes[4]->stdout@, outcomes[4]->stderr@),
            );
            &&& image.len() > 0 && name.len() > 0 && image_id.len() > 0
            &&& actions[0]@ == ActionView::Run(
                docker(
                    seq![
                        "inspect"@,
                        "--format"@,
                        "{{index .Config.Labels \"com.docker.compose.project.config_files\"}}|{{index .Config.Labels \"com.docker.compose.service\"}}"@,
                        name,
                    ],
                ),
            )
            &&& actions[3]@ == ActionView::Run(
                docker(seq!["inspect"@, "--format"@, "{{.Config.Image}}"@, name]),
            )
            &&& actions[4]@ == ActionView::Run(
                docker(seq!["inspect"@, "--format"@, "{{.Image}}"@, name]),
            )
            &&& actions[5]@ == ActionView::Run(
                docker(seq!["tag"@, image_id, "kiro-rs:rollback"@]),
            )
            &&& kind is Regular
            &&& actions[1]@ == ActionView::CheckFiles(
                trim(before(labels, '|')),
                "/app/config/docker-compose.yml"@,
            )
            &&& actions[2] matches JobAction::CheckFile { path }
            &&& actions[6] matches JobAction::Run(pull)
            &&& actions[7] matches JobAction::Run(up)
            &&& views(pull.args@).take(4) == seq![
                "compose"@,
                "--project-directory"@,
                match parent {
                    Some(dir) => if dir@.len() > 0 { dir@ } else { "."@ },
                    None => "."@,
                },
                "-f"@,
            ]
            &&& views(pull.args@)[4] == path@
            &&& views(pull.args@)[6] == trim(behind(labels, '|'))
            &&& views(pull.args@).skip(5) == seq!["pull"@, views(pull.args@).last()]
            &&& views(up.args@) == views(pull.args@).take(5) + seq!["up"@, "-d"@] + seq![
                views(pull.args@).last(),
            ]
            &&& pull.envs@.len() == 1 && up.envs@.len() == 1
            &&& pull.envs@[0].0@ == "KIRO_RS_IMAGE"@ && up.envs@[0].0@ == "KIRO_RS_IMAGE"@
            &&& pull.envs@[0].1@ == image
            &&& up.envs@[0].1@ == image
            &&& result.response.success && result.response.applied && result.response.need_restart
            &&& result.response.image@ == image
            &&& result.response.message@ == "镜像已更新并应用，容器将由 Docker Compose 重建"@
            &&& view_opt(result.response.output) == Some(
                shown_output(outcomes[5]->stdout@, outcomes[5]->stderr@) + shown_output(
                    outcomes[6]->stdout@,
                    outcomes[6]->stderr@,
                ) + shown_output(outcomes[7]->stdout@, outcomes[7]->stderr@),
            )
            &&& result.previous_image matches Some(p) && p@ == image_ref
            &&& result.image is None
        }),
{
    assert(outcomes[0] is Finished && outcomes[3] is Finished && outcomes[4] is Finished);
    assert(outcomes[5] is Finished && outcomes[6] is Finished && outcomes[7] is Finished);
    assert(container_name(Some(hostname@)) is Ok);
    assert(jobs[0].phase is ReadingLabels);
    assert(jobs[1].phase is CheckingFiles);
    assert(jobs[2].phase is CheckingCompose);
    assert(jobs[3].phase is ReadingImageRef);
    assert(jobs[4].phase is ReadingImageId);
    assert(jobs[5].phase is Tagging);
    assert(jobs[6].phase is Pulling);
    assert(jobs[7].phase is Starting);
    let image = trim(service.update_config.image@);
    assert(actions[6] is Run && actions[7] is Run);
    let pull = actions[6]->Run_0;
    let up = actions[7]->Run_0;
    only_environment(pull, image);
    only_environment(up, image);
    assert(views(pull.args@) =~= pull@.args);
    assert(views(up.args@) =~= up@.args);
    let ctx = jobs[6].phase@->Pulling_0;
    assert(pull@.args =~= seq![
        "compose"@,
        "--project-directory"@,
        ctx.dir,
        "-f"@,
        ctx.file,
        "pull"@,
        ctx.service,
    ]);
    assert(up@.args =~= seq![
        "compose"@,
        "--project-directory"@,
        ctx.dir,
        "-f"@,
        ctx.file,
        "up"@,
        "-d"@,
        ctx.service,
    ]);
}

/// A rollback from its start to its end: docker is asked for the backup and for
/// the labels of the own container, and then the backup is started. The answer
/// names the image that was recorded, which is the configured one from then on.
#[verifier::rlimit(40)]
#[verifier::spinoff_prover]
pub proof fn a_whole_rollback(
    service: AdminService,
    hostname: String,
    jobs: Seq<ImageJob>,
    actions: Seq<JobAction>,
    outcomes: Seq<CommandOutcome>,
    files: (bool, bool),
    kind: FileKind,
    parent: Option<String>,
    result: ImageResult,
)
    requires
        jobs.len() == 5 && actions.len() == 5 && outcomes.len() == 5,
        call_ensures(
            AdminService::rollback_image_update,
            (&service, Some(hostname)),
            JobStep::Wait { job: jobs[0], action: actions[0] },
        ),
        call_ensures(
            ImageJob::resume_with,
            (jobs[0], JobEvent::Ran(outcomes[0]), None),
            JobStep::Wait { job: jobs[1], action: actions[1] },
        ),
        call_ensures(
            ImageJob::resume_with,
            (jobs[1], JobEvent::Ran(outcomes[1]), None),
            JobStep::Wait { job: jobs[2], action: actions[2] },
        ),
        call_ensures(
            ImageJob::resume_with,
            (
                jobs[2],
                JobEvent::Files { host_is_file: files.0, default_is_file: files.1 },
                None,
            ),
            JobStep::Wait { job: jobs[3], action: actions[3] },
        ),
        call_ensures(
            ImageJob::resume_with,
            (jobs[3], JobEvent::File(kind), parent),
            JobStep::Wait { job: jobs[4], action: actions[4] },
        ),
        call_ensures(
            ImageJob::resume_with,
            (jobs[4], JobEvent::Ran(outcomes[4]), None),
            JobStep::Finished(result),
        ),
    ensures
        service.update_config.previous_image matches Some(recorded) && {
            &&& trim(recorded@).len() > 0
            &&& actions[0]@ == ActionView::Run(
                docker(seq!["image"@, "inspect"@, "kiro-rs:rollback"@]),
            )
            &&& actions[1]@ == ActionView::Run(
                docker(
                    seq![
                        "inspect"@,
                        "--format"@,
                        "{{index .Config.Labels \"com.docker.compose.project.config_files\"}}|{{index .Config.Labels \"com.docker.compose.service\"}}"@,
                        trim(hostname@),
                    ],
                ),
            )
            &&& outcomes[0] matches CommandOutcome::Finished { success, .. } && success
            &&& outcomes[1] matches CommandOutcome::Finished { success, .. } && success
            &&& outcomes[4] matches CommandOutcome::Finished { success, .. } && success
            &&& actions[4] matches JobAction::Run(up)
            &&& up.envs@.len() == 1
            &&& up.envs@[0].0@ == "KIRO_RS_IMAGE"@
            &&& up.envs@[0].1@ == "kiro-rs:rollback"@
            &&& result.response.success && result.response.applied && result.response.need_restart
            &&& result.response.image@ == trim(recorded@)
            &&& result.response.message@ == "已回退到镜像 "@ + trim(recorded@)
            &&& view_opt(result.response.output) == Some(
                Seq::<char>::empty() + shown_output(
                    outcomes[4]->stdout@,
                    outcomes[4]->stderr@,
                ),
            )
            &&& result.image matches Some(i) && i@ == trim(recorded@)
            &&& result.previous_image is None
        },
{
    assert(jobs[0].phase is CheckingBackup);
    assert(jobs[1].phase is ReadingLabels);
    assert(jobs[2].phase is CheckingFiles);
    assert(jobs[3].phase is CheckingCompose);
    assert(jobs[4].phase is Starting);
    assert(actions[4] is Run);
    only_environment(actions[4]->Run_0, "kiro-rs:rollback"@);
}

/// A command that could not be started, or that reports a failure, ends an
/// operation that is pulling or starting: nothing is started after a failed pull,
/// and nothing is recorded after a failed start.
pub proof fn a_failed_command_ends_the_operation(
    job: ImageJob,
    outcome: CommandOutcome,
    parent: Option<String>,
    r: JobStep,
)
    requires
        job.phase is CheckingBackup || job.phase is ReadingLabels || job.phase is Pulling
            || job.phase is Starting,
        outcome matches CommandOutcome::Finished { success, .. } ==> !success,
        call_ensures(ImageJob::resume_with, (job, JobEvent::Ran(outcome), parent), r),
    ensures
        r matches JobStep::Failed(e) && e@.status() == 500,
        job.phase is CheckingBackup ==> r->Failed_0@ == ErrorView::Internal(
            "本地未找到备份镜像 kiro-rs:rollback，可能已被 docker image prune 清理。无法离线回退。"@,
        ),
        job.phase is ReadingLabels ==> starts_with(
            r->Failed_0@->Internal_0,
            "通过 docker inspect 读取容器信息失败："@,
        ),
{
    if job.phase is ReadingLabels {
        let m = r->Failed_0@->Internal_0;
        let p = "通过 docker inspect 读取容器信息失败："@;
        assert(m.take(p.len() as int) =~= p);
    }
}

/// An operation does not start without a name for the own container, nor a rollback
/// without a recorded image; and it ends where the compose file cannot be found, or is
/// none.
pub proof fn an_operation_needs_its_project(
    service: AdminService,
    hostname: Option<String>,
    update: JobStep,
    rollback: JobStep,
    job: ImageJob,
    files: (bool, bool),
    kind: FileKind,
    parent: Option<String>,
    r: JobStep,
    s: JobStep,
)
    requires
        call_ensures(AdminService::apply_image_update, (&service, hostname), update),
        call_ensures(AdminService::rollback_image_update, (&service, hostname), rollback),
        job@.wf(),
        call_ensures(
            ImageJob::resume_with,
            (
                job,
                JobEvent::Files { host_is_file: files.0, default_is_file: files.1 },
                parent,
            ),
            r,
        ),
        call_ensures(ImageJob::resume_with, (job, JobEvent::File(kind), parent), s),
    ensures
        (hostname is None || trim(hostname.unwrap()@).len() == 0) && image_problem(
            service.update_config.image@,
        ) is None ==> (update matches JobStep::Failed(e) && e@ == ErrorView::Internal(
            "无法获取当前容器 hostname（HOSTNAME 环境变量为空）"@,
        )),
        service.update_config.previous_image is None || trim(
            service.update_config.previous_image.unwrap()@,
        ).len() == 0 ==> (rollback matches JobStep::Failed(e) && e@ == ErrorView::Invalid(
            "尚未记录可回退的镜像版本，请先执行一次在线更新"@,
        )),
        service.update_config.previous_image is Some && trim(
            service.update_config.previous_image.unwrap()@,
        ).len() > 0 ==> (rollback matches JobStep::Wait { job: started, .. } && started.rollback
            && started.image@ == trim(service.update_config.previous_image.unwrap()@)),
        job.phase matches JobPhase::CheckingFiles { labels } ==> {
            &&& !files.0 && !files.1 ==> r is Failed
            &&& trim(labels.compose_file@).len() == 0 && !files.1 ==> r is Failed
            &&& files.0 && trim(labels.compose_file@).len() > 0 ==> (r matches JobStep::Wait {
                action: JobAction::CheckFile { path },
                ..
            } && path@ == trim(labels.compose_file@))
            &&& (!files.0 || trim(labels.compose_file@).len() == 0) && files.1 ==> (
            r matches JobStep::Wait { action: JobAction::CheckFile { path }, .. } && path@
                == "/app/config/docker-compose.yml"@)
        },
        job.phase is CheckingCompose && !(kind is Regular) ==> s is Failed,
        job.phase is CheckingCompose && kind is Regular ==> s is Wait,
{
    outer_whitespace_is_ignored(service.update_config.image@);
}

/// If the running image cannot be read or tagged, an update pulls its image all
/// the same; its output warns, and there is no image to go back to.
pub proof fn an_update_without_backup_warns(
    job: ImageJob,
    outcome: CommandOutcome,
    parent: Option<String>,
    r: JobStep,
)
    requires
        job@.wf(),
        job.phase is ReadingImageRef || job.phase is ReadingImageId || job.phase is Tagging,
        outcome matches CommandOutcome::Finished { success, .. } ==> !success,
        call_ensures(ImageJob::resume_with, (job, JobEvent::Ran(outcome), parent), r),
    ensures
        r matches JobStep::Wait { job: next, .. } && {
            &&& next.phase matches JobPhase::Pulling { previous, output, .. }
            &&& previous is None
            &&& job.phase is Tagging ==> starts_with(output@, "warning: 备份当前镜像失败: "@)
            &&& !(job.phase is Tagging) ==> starts_with(
                output@,
                "warning: 读取当前镜像信息失败: "@,
            )
        },
{
    assert(r is Wait && r->job.phase is Pulling);
    let output = r->job.phase->Pulling_output@;
    let p = if job.phase is Tagging {
        "warning: 备份当前镜像失败: "@
    } else {
        "warning: 读取当前镜像信息失败: "@
    };
    assert(output.take(p.len() as int) =~= p);
}

/// A running image without an id cannot be tagged: the update pulls all the same and has
/// no image to go back to. One with an id is tagged before anything is pulled.
pub proof fn only_an_image_with_an_id_is_tagged(
    job: ImageJob,
    outcome: CommandOutcome,
    parent: Option<String>,
    r: JobStep,
)
    requires
        job@.wf(),
        job.phase is ReadingImageId,
        outcome matches CommandOutcome::Finished { success, .. } && success,
        call_ensures(ImageJob::resume_with, (job, JobEvent::Ran(outcome), parent), r),
    ensures
        first_line(shown_output(outcome->stdout@, outcome->stderr@)).len() == 0 ==> (
        r matches JobStep::Wait { job: next, .. } && next.phase matches JobPhase::Pulling {
            previous,
            ..
        } && previous is None),
        first_line(shown_output(outcome->stdout@, outcome->stderr@)).len() > 0 ==> (
        r matches JobStep::Wait { job: next, .. } && next.phase is Tagging),
{
}

/// The configured image is checked before anything is run for it, by an update as
/// by a pull without compose: what is no reference to a Docker Hub image is refused
/// as a bad request.
pub proof fn a_bad_image_is_refused(
    service: AdminService,
    hostname: Option<String>,
    step: JobStep,
    pull: Result<ImagePull, AdminServiceError>,
)
    requires
        call_ensures(AdminService::apply_image_update, (&service, hostname), step),
        call_ensures(AdminService::pull_update_image, (&service,), pull),
    ensures
        image_problem(service.update_config.image@) is Some ==> (step matches JobStep::Failed(e)
            && e@.status() == 400) && (pull matches Err(e) && e@.status() == 400),
        image_problem(service.update_config.image@) is None ==> (pull matches Ok(p) && {
            &&& p.image@ == trim(service.update_config.image@)
            &&& p.command.program@ == "docker"@
            &&& views(p.command.args@) == seq!["pull"@, trim(service.update_config.image@)]
            &&& p.command.envs@.len() == 0
        }),
{
    outer_whitespace_is_ignored(service.update_config.image@);
    if image_problem(service.update_config.image@) is None {
        let p = pull->Ok_0;
        assert(views(p.command.args@) =~= p.command@.args);
        assert(p.command@.envs.len() == 0);
    }
}

/// Pulling an image without compose applies nothing: the answer to a success names
/// the image and says that it is not running yet, and a failure is reported.
pub proof fn a_pull_applies_nothing(
    pull: ImagePull,
    outcome: CommandOutcome,
    r: Result<ImageUpdateResponse, AdminServiceError>,
)
    requires
        call_ensures(image_pulled, (pull, &outcome), r),
    ensures
        r is Ok <==> (outcome matches CommandOutcome::Finished { success, .. } && success),
        r matches Ok(answer) ==> answer.success && answer.image@ == pull.image@ && !answer.applied
            && !answer.need_restart,
        r matches Err(e) ==> e@.status() == 500,
{
}

/// What an operation has found is recorded in the settings in use and in the file
/// alike: an update changes only the image to go back to, a rollback only the image
/// that updates come from.
pub proof fn operations_are_recorded(
    before: AdminService,
    after: AdminService,
    config: Config,
    stored: Config,
    result: ImageResult,
)
    requires
        exists|s: &mut AdminService|
            #[trigger] call_ensures(AdminService::record_image, (s, &result), ()) && *s == before
                && *final(s) == after,
        exists|c: &mut Config|
            #[trigger] call_ensures(Config::record_image, (c, &result), ()) && *c == config
                && *final(c) == stored,
    ensures
        result.previous_image is Some ==> after.update_config.previous_image
            == result.previous_image && stored.update_previous_image == result.previous_image,
        result.previous_image is None ==> after.update_config.previous_image
            == before.update_config.previous_image && stored.update_previous_image
            == config.update_previous_image,
        result.image matches Some(i) ==> after.update_config.image == i && stored.update_image == i,
        result.image is None ==> after.update_config.image == before.update_config.image
            && stored.update_image == config.update_image,
        after.update_config.auto_apply == before.update_config.auto_apply,
        after.update_config.auto_apply_time == before.update_config.auto_apply_time,
        after.balance_cache == before.balance_cache,
        after.known_endpoints == before.known_endpoints,
        after.update_check_cache == before.update_check_cache,
        after.idc_sessions == before.idc_sessions,
        after.social_sessions == before.social_sessions,
        stored.default_endpoint == config.default_endpoint,
        stored.proxy_url == config.proxy_url,
        stored.admin_api_key == config.admin_api_key,
        stored.api_key == config.api_key,
        stored.update_auto_apply == config.update_auto_apply,
        stored.update_auto_apply_time == config.update_auto_apply_time,
{
}

/// An operation that finds the directory of the compose file itself goes on as one that
/// is told it: where the directory does not matter, and where the file lies in a directory.
pub proof fn the_directory_is_found(
    job: ImageJob,
    event: JobEvent,
    parent: Option<String>,
    name: Seq<char>,
    found: JobStep,
    told: JobStep,
)
    requires
        job@.wf(),
        job@.expects(event@),
        call_ensures(ImageJob::resume, (job, event), found),
        call_ensures(ImageJob::resume_with, (job, event, parent), told),
        job.phase matches JobPhase::CheckingCompose { labels, .. } ==> (parent matches Some(dir)
            && is_plain_dir(dir@) && is_plain_name(name) && labels.compose_file@ == dir@ + "/"@
            + name),
    ensures
        found@ == told@,
{
    let p = choose|p: Option<Seq<char>>|
        job@.finds_parent(p) && found@ == #[trigger] job@.next(event@, p);
    if let JobPhase::CheckingCompose { labels, .. } = job.phase {
        assert(labels.compose_file@ == in_dir(parent.unwrap()@, name));
        assert(p == view_opt(parent));
    } else {
        assert(job@.next(event@, p) == job@.next(event@, view_opt(parent)));
    }
}

/// An operation goes on while its commands succeed: what docker says is taken up and
/// carried along, and once the image was started the operation has succeeded.
pub proof fn an_operation_goes_on_while_its_commands_succeed(
    service: AdminService,
    hostname: Option<String>,
    start: JobStep,
    job: ImageJob,
    outcome: CommandOutcome,
    parent: Option<String>,
    r: JobStep,
)
    requires
        call_ensures(AdminService::apply_image_update, (&service, hostname), start),
        job@.wf(),
        outcome matches CommandOutcome::Finished { success, .. } && success,
        call_ensures(ImageJob::resume_with, (job, JobEvent::Ran(outcome), parent), r),
    ensures
        image_problem(service.update_config.image@) is None && hostname is Some && trim(
            hostname.unwrap()@,
        ).len() > 0 ==> (start matches JobStep::Wait { job: j, action: JobAction::Run(_) }
            && !j.rollback && j.image@ == trim(service.update_config.image@) && j.phase
            is ReadingLabels),
        job.phase is CheckingBackup && job.hostname is Some && trim(job.hostname.unwrap()@).len() > 0
            ==> (r matches JobStep::Wait { job: next, .. } && next.phase is ReadingLabels),
        job.phase is ReadingLabels ==> {
            let labels = first_line(shown_output(outcome->stdout@, outcome->stderr@));
            &&& trim(behind(labels, '|')).len() > 0 ==> (r matches JobStep::Wait {
                job: next,
                action: JobAction::CheckFiles { host_path, default_path },
            } && next.phase matches JobPhase::CheckingFiles { labels: l } && l.compose_file@ == trim(
                before(labels, '|'),
            ) && l.service@ == trim(behind(labels, '|')) && host_path@ == l.compose_file@
                && default_path@ == "/app/config/docker-compose.yml"@)
            &&& trim(behind(labels, '|')).len() == 0 ==> r is Failed
        },
        job.phase matches JobPhase::ReadingImageRef { ctx } ==> (r matches JobStep::Wait {
            job: next,
            ..
        } && next.phase matches JobPhase::ReadingImageId { ctx: c, image_ref } && c@ == ctx@
            && image_ref@ == first_line(shown_output(outcome->stdout@, outcome->stderr@))),
        job.phase matches JobPhase::Tagging { ctx, image_ref, .. } ==> (r matches JobStep::Wait {
            job: next,
            ..
        } && next.phase matches JobPhase::Pulling { ctx: c, previous, output } && c@ == ctx@
            && view_opt(previous) == Some(image_ref@) && output@ == shown_output(
            outcome->stdout@,
            outcome->stderr@,
        )),
        job.phase matches JobPhase::Pulling { ctx, previous, output } ==> (r matches JobStep::Wait {
            job: next,
            ..
        } && next.phase matches JobPhase::Starting { ctx: c, previous: p, output: o } && c@ == ctx@
            && view_opt(p) == view_opt(previous) && o@ == output@ + shown_output(
            outcome->stdout@,
            outcome->stderr@,
        )),
        job.phase matches JobPhase::Starting { previous, output, .. } ==> (
        r matches JobStep::Finished(result) && {
            &&& result.response.success && result.response.applied && result.response.need_restart
            &&& result.response.image@ == job.image@
            &&& view_opt(result.response.output) == Some(
                output@ + shown_output(outcome->stdout@, outcome->stderr@),
            )
            &&& job.rollback ==> result.previous_image is None && view_opt(result.image) == Some(
                job.image@,
            )
            &&& !job.rollback ==> result.image is None && view_opt(result.previous_image)
                == view_opt(previous)
        }),
{
    outer_whitespace_is_ignored(service.update_config.image@);
}

} // verus!
