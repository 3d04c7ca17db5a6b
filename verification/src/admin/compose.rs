//! The docker compose project that the own container belongs to.

use vstd::prelude::*;

use crate::admin::commands::{docker, run_command, CommandLine, CommandView};
use crate::admin::error::{AdminServiceError, ErrorView};
use crate::encoding::{debug_notation, debug_text};
use crate::text::{
    before, behind, chars_before, chars_behind, chars_of, parts_around, starts_with, string_of, trim,
    trim_chars, trimmed, trimming_takes_the_blanks, view_opt, views,
};

verus! {

/// The tag of the image that a rollback starts.
pub open spec fn rollback_tag() -> Seq<char> {
    "kiro-rs:rollback"@
}

/// Where the compose file is mounted if nothing else is known.
pub open spec fn default_compose_path() -> Seq<char> {
    "/app/config/docker-compose.yml"@
}

/// What docker is asked for to learn the compose file and the service.
pub open spec fn labels_format() -> Seq<char> {
    "{{index .Config.Labels \"com.docker.compose.project.config_files\"}}|{{index .Config.Labels \"com.docker.compose.service\"}}"@
}

/// The place of the compose file on the host, and the name of the service.
#[derive(Debug)]
pub struct ComposeLabels {
    /// The compose file on the host.
    pub compose_file: String,
    /// The service.
    pub service: String,
}

/// What a [`ComposeLabels`] says.
#[verifier::ext_equal]
pub struct LabelsView {
    /// The compose file on the host.
    pub compose_file: Seq<char>,
    /// The service.
    pub service: Seq<char>,
}

impl View for ComposeLabels {
    type V = LabelsView;

    open spec fn view(&self) -> LabelsView {
        LabelsView { compose_file: self.compose_file@, service: self.service@ }
    }
}

/// The compose file and the service that docker's answer names: the texts
/// before and behind the first bar.
pub open spec fn compose_labels(raw: Seq<char>) -> Result<LabelsView, ErrorView> {
    let service = trim(behind(raw, '|'));
    if service.len() == 0 {
        Err(
            ErrorView::Internal(
                "当前容器缺少 docker compose service 标签，无法自动识别。请使用 `docker compose -f docker-compose.yml up -d` 启动容器后再尝试在线更新。"@,
            ),
        )
    } else {
        Ok(LabelsView { compose_file: trim(before(raw, '|')), service })
    }
}

/// Reads docker's answer about the compose file and the service.
pub fn detect_compose_metadata(raw: &str) -> (r: Result<ComposeLabels, AdminServiceError>)
    ensures
        match compose_labels(raw@) {
            Ok(labels) => r matches Ok(l) && l@ == labels,
            Err(e) => r matches Err(f) && f@ == e,
        },
{
    let chars = chars_of(raw);
    let compose_file = string_of(trim_chars(chars_before(chars.as_slice(), '|')));
    let service = string_of(trim_chars(chars_behind(chars.as_slice(), '|')));
    if service.as_str().is_empty() {
        return Err(
            AdminServiceError::InternalError(
                "当前容器缺少 docker compose service 标签，无法自动识别。请使用 `docker compose -f docker-compose.yml up -d` 启动容器后再尝试在线更新。".to_string(),
            ),
        );
    }
    Ok(ComposeLabels { compose_file, service })
}

/// The reference and the id of the image that the own container runs.
pub open spec fn running_image(image_ref: Seq<char>, image_id: Seq<char>) -> Result<
    (Seq<char>, Seq<char>),
    ErrorView,
> {
    if image_id.len() == 0 {
        Err(ErrorView::Internal("无法读取当前容器的镜像 ID"@))
    } else {
        Ok((image_ref, image_id))
    }
}

/// Checks what docker said about the image that the own container runs.
pub fn detect_running_image(image_ref: String, image_id: String) -> (r: Result<
    (String, String),
    AdminServiceError,
>)
    ensures
        match running_image(image_ref@, image_id@) {
            Ok(_) => r == Ok::<(String, String), AdminServiceError>((image_ref, image_id)),
            Err(e) => r matches Err(f) && f@ == e,
        },
{
    if image_id.as_str().is_empty() {
        return Err(
            AdminServiceError::InternalError("无法读取当前容器的镜像 ID".to_string()),
        );
    }
    Ok((image_ref, image_id))
}

/// The call that tags an image as the one to roll back to.
pub open spec fn tag_call(image_id: Seq<char>) -> CommandView {
    docker(seq!["tag"@, image_id, rollback_tag()])
}

/// Makes the call that tags an image as the one to roll back to.
pub fn tag_rollback_image(image_id: &str) -> (r: CommandLine)
    ensures
        r@ == tag_call(image_id@),
{
    let r = run_command(
        vec!["tag".to_string(), image_id.to_string(), "kiro-rs:rollback".to_string()],
    );
    assert(r@.args =~= tag_call(image_id@).args);
    r
}

/// The call that succeeds if there is an image to roll back to.
pub open spec fn backup_call() -> CommandView {
    docker(seq!["image"@, "inspect"@, rollback_tag()])
}

/// Makes the call that succeeds if there is an image to roll back to.
pub fn rollback_image_present() -> (r: CommandLine)
    ensures
        r@ == backup_call(),
{
    let r = run_command(
        vec!["image".to_string(), "inspect".to_string(), "kiro-rs:rollback".to_string()],
    );
    assert(r@.args =~= backup_call().args);
    r
}

/// Where compose finds its file, given whether the host's path and the default
/// path are files in the container.
pub open spec fn compose_path(
    host_path: Seq<char>,
    host_is_file: bool,
    default_is_file: bool,
) -> Result<Seq<char>, ErrorView> {
    let host = trim(host_path);
    if host.len() > 0 && host_is_file {
        Ok(host)
    } else if default_is_file {
        Ok(default_compose_path())
    } else {
        Err(ErrorView::Internal(unreadable_text(debug_text(host))))
    }
}

/// The message for a compose file that cannot be read, around the quoted path.
pub open spec fn unreadable_text(quoted: Seq<char>) -> Seq<char> {
    "compose 文件在容器内不可读。docker compose 标签指向宿主机路径 "@ + quoted + "，且默认挂载点 /app/config/docker-compose.yml 也不存在。请在 docker-compose.yml 中保留 `./docker-compose.yml:/app/config/docker-compose.yml:ro` 这条挂载，并确认宿主机当前目录下有 docker-compose.yml 文件。"@
}

/// The message for a compose file that cannot be read, around the quoted path.
pub fn unreadable_message(quoted: &str) -> (r: String)
    ensures
        r@ == unreadable_text(quoted@),
{
    let mut message =
        "compose 文件在容器内不可读。docker compose 标签指向宿主机路径 ".to_string();
    message.append(quoted);
    message.append("，且默认挂载点 /app/config/docker-compose.yml 也不存在。请在 docker-compose.yml 中保留 `./docker-compose.yml:/app/config/docker-compose.yml:ro` 这条挂载，并确认宿主机当前目录下有 docker-compose.yml 文件。");
    message
}

/// Finds the compose file in the container, given whether the host's path and
/// the default path are files there.
pub fn resolve_in_container_compose_path(
    host_path: &str,
    host_is_file: bool,
    default_is_file: bool,
) -> (r: Result<String, AdminServiceError>)
    ensures
        match compose_path(host_path@, host_is_file, default_is_file) {
            Ok(path) => r matches Ok(s) && s@ == path,
            Err(e) => r matches Err(f) && f@ == e,
        },
{
    let host = trimmed(host_path);
    if !host.as_str().is_empty() && host_is_file {
        return Ok(host);
    }
    if default_is_file {
        return Ok("/app/config/docker-compose.yml".to_string());
    }
    let quoted = debug_notation(host.as_str());
    Err(AdminServiceError::InternalError(unreadable_message(quoted.as_str())))
}

/// What is found at a path.
#[derive(Debug)]
pub enum FileKind {
    /// Nothing that can be looked at.
    Inaccessible {
        /// Why not.
        error: String,
    },
    /// A directory.
    Directory,
    /// A regular file.
    Regular,
    /// Something else.
    Other,
}

/// What a [`FileKind`] says.
#[verifier::ext_equal]
pub enum FileView {
    /// See [`FileKind::Inaccessible`].
    Inaccessible(Seq<char>),
    /// See [`FileKind::Directory`].
    Directory,
    /// See [`FileKind::Regular`].
    Regular,
    /// See [`FileKind::Other`].
    Other,
}

impl View for FileKind {
    type V = FileView;

    open spec fn view(&self) -> FileView {
        match self {
            FileKind::Inaccessible { error } => FileView::Inaccessible(error@),
            FileKind::Directory => FileView::Directory,
            FileKind::Regular => FileView::Regular,
            FileKind::Other => FileView::Other,
        }
    }
}

/// What is wrong with a compose file, if anything is: it has to be a regular
/// file.
pub open spec fn compose_file_problem(path: Seq<char>, kind: FileView) -> Option<ErrorView> {
    match kind {
        FileView::Inaccessible(error) => Some(
            ErrorView::Internal(
                "compose 文件 "@ + path + " 不可访问: "@ + error
                    + "。请确认宿主机上该文件存在并已挂载到容器内的同一路径。"@,
            ),
        ),
        FileView::Directory => Some(
            ErrorView::Internal(
                "compose 文件 "@ + path + " 实际是一个目录。常见原因是 docker-compose.yml 在宿主机上不存在，被 Docker 自动创建为空目录。请在宿主机上提供真实的 docker-compose.yml 后重新启动容器。"@,
            ),
        ),
        FileView::Other => Some(
            ErrorView::Internal(
                "compose 文件 "@ + path + " 不是普通文件，无法用于 docker compose -f"@,
            ),
        ),
        FileView::Regular => None,
    }
}

/// Checks that the compose file is a regular file.
pub fn ensure_compose_file_exists(path: &str, kind: &FileKind) -> (r: Result<
    (),
    AdminServiceError,
>)
    ensures
        match compose_file_problem(path@, kind@) {
            None => r is Ok,
            Some(e) => r matches Err(f) && f@ == e,
        },
{
    let mut message = "compose 文件 ".to_string();
    message.append(path);
    match kind {
        FileKind::Inaccessible { error } => {
            message.append(" 不可访问: ");
            message.append(error.as_str());
            message.append("。请确认宿主机上该文件存在并已挂载到容器内的同一路径。");
            Err(AdminServiceError::InternalError(message))
        },
        FileKind::Directory => {
            message.append(" 实际是一个目录。常见原因是 docker-compose.yml 在宿主机上不存在，被 Docker 自动创建为空目录。请在宿主机上提供真实的 docker-compose.yml 后重新启动容器。");
            Err(AdminServiceError::InternalError(message))
        },
        FileKind::Other => {
            message.append(" 不是普通文件，无法用于 docker compose -f");
            Err(AdminServiceError::InternalError(message))
        },
        FileKind::Regular => Ok(()),
    }
}

/// What every call of compose in one update has in common.
#[derive(Debug)]
pub struct ComposeContext {
    /// The directory of the project on the host.
    pub host_project_dir: String,
    /// The compose file in the container.
    pub in_container_compose: String,
    /// The service.
    pub service: String,
}

/// What a [`ComposeContext`] says.
#[verifier::ext_equal]
pub struct ContextView {
    /// The directory of the project on the host.
    pub dir: Seq<char>,
    /// The compose file in the container.
    pub file: Seq<char>,
    /// The service.
    pub service: Seq<char>,
}

impl View for ComposeContext {
    type V = ContextView;

    open spec fn view(&self) -> ContextView {
        ContextView {
            dir: self.host_project_dir@,
            file: self.in_container_compose@,
            service: self.service@,
        }
    }
}

/// A name in a directory.
pub open spec fn in_dir(dir: Seq<char>, name: Seq<char>) -> Seq<char> {
    dir + "/"@ + name
}

/// Whether a text is a single name on every platform: it is not empty and no
/// dot, and has no separator and no drive.
pub open spec fn is_plain_name(name: Seq<char>) -> bool {
    &&& name.len() > 0 && name != "."@
    &&& !name.contains('/') && !name.contains('\\') && !name.contains(':')
}

/// Whether a text is a directory in its shortest form on every platform: it has
/// no separator at its end, not two at its beginning, no single dot as its last
/// name, and no drive.
pub open spec fn is_plain_dir(dir: Seq<char>) -> bool {
    &&& dir.len() > 0
    &&& dir.last() != '/'
    &&& !(dir.last() == '.' && (dir.len() == 1 || dir[dir.len() - 2] == '/'))
    &&& !(dir.len() >= 2 && dir[0] == '/' && dir[1] == '/')
    &&& !dir.contains('\\') && !dir.contains(':')
}

/// Whether `parent` can be the path without its final name, as far as that is
/// the same on every platform: nothing for an empty path and for the root alone,
/// otherwise a beginning of the path; empty for a single name, the root for a name in the root, and the
/// directory for a name in one.
pub open spec fn is_parent(path: Seq<char>, parent: Option<Seq<char>>) -> bool {
    &&& path.len() == 0 || path == "/"@ ==> parent is None
    &&& parent matches Some(p) ==> starts_with(path, p) && p.len() < path.len()
    &&& is_plain_name(path) ==> parent == Some(Seq::<char>::empty())
    &&& path.len() > 1 && path[0] == '/' && is_plain_name(path.skip(1)) ==> parent == Some("/"@)
    &&& forall|dir: Seq<char>, name: Seq<char>|
        path == #[trigger] in_dir(dir, name) && is_plain_dir(dir) && is_plain_name(name)
            ==> parent == Some(dir)
}

/// `std::path::Path::parent`: the path without its final component. What counts
/// as a separator depends on the platform, so only what holds on all of them is
/// claimed.
#[verifier::external_body]
pub(crate) fn parent_dir(path: &str) -> (r: Option<String>)
    ensures
        is_parent(path@, view_opt(r)),
{
    match std::path::Path::new(path).parent() {
        Some(p) => Some(p.to_string_lossy().into_owned()),
        None => None,
    }
}

/// The directory of the project: that of the host's compose file, or the
/// current one.
pub open spec fn project_dir(parent: Option<Seq<char>>) -> Seq<char> {
    match parent {
        Some(dir) if dir.len() > 0 => dir,
        _ => "."@,
    }
}

impl ContextView {
    /// A call of compose for an image.
    pub open spec fn call(self, image: Seq<char>, verb: Seq<Seq<char>>) -> CommandView {
        CommandView {
            program: "docker"@,
            args: seq!["compose"@, "--project-directory"@, self.dir, "-f"@, self.file] + verb
                + seq![self.service],
            envs: seq![("KIRO_RS_IMAGE"@, image)],
        }
    }

    /// The call that pulls an image.
    pub open spec fn pull(self, image: Seq<char>) -> CommandView {
        self.call(image, seq!["pull"@])
    }

    /// The call that starts an image.
    pub open spec fn up(self, image: Seq<char>) -> CommandView {
        self.call(image, seq!["up"@, "-d"@])
    }
}

impl ComposeContext {
    /// Puts together what was found out; `parent` is the directory of the host's
    /// compose file.
    pub fn detect(labels: &ComposeLabels, path: String, parent: &Option<String>) -> (r: Self)
        ensures
            r@ == (ContextView {
                dir: project_dir(view_opt(*parent)),
                file: path@,
                service: labels@.service,
            }),
    {
        let host_project_dir = match parent {
            Some(dir) => {
                if dir.as_str().is_empty() {
                    ".".to_string()
                } else {
                    dir.clone()
                }
            },
            None => ".".to_string(),
        };
        ComposeContext {
            host_project_dir,
            in_container_compose: path,
            service: labels.service.clone(),
        }
    }

    /// Makes the call that pulls an image.
    pub fn compose_pull(&self, image: &str) -> (r: CommandLine)
        ensures
            r@ == self@.pull(image@),
    {
        let r = CommandLine {
            program: "docker".to_string(),
            args: vec![
                "compose".to_string(),
                "--project-directory".to_string(),
                self.host_project_dir.clone(),
                "-f".to_string(),
                self.in_container_compose.clone(),
                "pull".to_string(),
                self.service.clone(),
            ],
            envs: vec![("KIRO_RS_IMAGE".to_string(), image.to_string())],
        };
        assert(r@.args =~= self@.pull(image@).args);
        assert(r@.envs =~= self@.pull(image@).envs);
        r
    }

    /// Makes the call that starts an image.
    pub fn compose_up(&self, image: &str) -> (r: CommandLine)
        ensures
            r@ == self@.up(image@),
    {
        let r = CommandLine {
            program: "docker".to_string(),
            args: vec![
                "compose".to_string(),
                "--project-directory".to_string(),
                self.host_project_dir.clone(),
                "-f".to_string(),
                self.in_container_compose.clone(),
                "up".to_string(),
                "-d".to_string(),
                self.service.clone(),
            ],
            envs: vec![("KIRO_RS_IMAGE".to_string(), image.to_string())],
        };
        assert(r@.args =~= self@.up(image@).args);
        assert(r@.envs =~= self@.up(image@).envs);
        r
    }
}

/// Compose is run in the directory of the host's compose file: in the root if the
/// file lies there, and in the current directory if it is given by its name alone.
pub proof fn project_is_where_the_file_is(
    dir: Seq<char>,
    name: Seq<char>,
    in_directory: Option<Seq<char>>,
    in_root: Option<Seq<char>>,
    alone: Option<Seq<char>>,
)
    requires
        is_plain_dir(dir),
        is_plain_name(name),
        is_parent(in_dir(dir, name), in_directory),
        is_parent(seq!['/'] + name, in_root),
        is_parent(name, alone),
    ensures
        project_dir(in_directory) == dir,
        project_dir(in_root) == "/"@,
        project_dir(alone) == "."@,
{
    reveal_strlit("/");
    assert((seq!['/'] + name).skip(1) =~= name);
}

/// Docker's answer about the compose project is read at its first bar: the file
/// stands before it and the service behind it, without blanks around them. Without
/// a service there is no project.
pub proof fn labels_are_read_at_the_bar(
    file: Seq<char>,
    service: Seq<char>,
    raw: &str,
    r: Result<ComposeLabels, AdminServiceError>,
)
    requires
        !file.contains('|'),
        call_ensures(detect_compose_metadata, (raw,), r),
    ensures
        raw@ == file + seq!['|'] + service && trim(service).len() > 0 ==> (r matches Ok(l)
            && l.compose_file@ == trim(file) && l.service@ == trim(service)),
        raw@ == file + seq!['|'] + service && trim(service).len() == 0 ==> (r matches Err(e)
            && e@.status() == 500),
        raw@ == file ==> (r matches Err(e) && e@.status() == 500),
        r matches Err(e) ==> e@ == ErrorView::Internal(
            "当前容器缺少 docker compose service 标签，无法自动识别。请使用 `docker compose -f docker-compose.yml up -d` 启动容器后再尝试在线更新。"@,
        ),
{
    parts_around(file, '|', service);
    trimming_takes_the_blanks(Seq::empty(), Seq::empty(), Seq::empty());
}

/// The compose file is the one that docker names, if it is there under that path;
/// else the mounted one, if that is there; else there is none.
pub proof fn the_named_file_comes_first(
    host_path: &str,
    host_is_file: bool,
    default_is_file: bool,
    r: Result<String, AdminServiceError>,
)
    requires
        call_ensures(
            resolve_in_container_compose_path,
            (host_path, host_is_file, default_is_file),
            r,
        ),
    ensures
        host_is_file && trim(host_path@).len() > 0 ==> (r matches Ok(p) && p@ == trim(
            host_path@,
        )),
        (!host_is_file || trim(host_path@).len() == 0) && default_is_file ==> (r matches Ok(p)
            && p@ == "/app/config/docker-compose.yml"@),
        (!host_is_file || trim(host_path@).len() == 0) && !default_is_file ==> (r matches Err(e)
            && e@ == ErrorView::Internal(
            "compose 文件在容器内不可读。docker compose 标签指向宿主机路径 "@ + debug_text(
                trim(host_path@),
            ) + "，且默认挂载点 /app/config/docker-compose.yml 也不存在。请在 docker-compose.yml 中保留 `./docker-compose.yml:/app/config/docker-compose.yml:ro` 这条挂载，并确认宿主机当前目录下有 docker-compose.yml 文件。"@,
        )),
{
}

/// Only a regular file can be the compose file.
pub proof fn only_a_regular_file_will_do(
    path: &str,
    kind: FileKind,
    r: Result<(), AdminServiceError>,
)
    requires
        call_ensures(ensure_compose_file_exists, (path, &kind), r),
    ensures
        r is Ok <==> kind is Regular,
        r matches Err(e) ==> e@.status() == 500,
        kind is Directory ==> r->Err_0@ == ErrorView::Internal(
            "compose 文件 "@ + path@ + " 实际是一个目录。常见原因是 docker-compose.yml 在宿主机上不存在，被 Docker 自动创建为空目录。请在宿主机上提供真实的 docker-compose.yml 后重新启动容器。"@,
        ),
        kind is Other ==> r->Err_0@ == ErrorView::Internal(
            "compose 文件 "@ + path@ + " 不是普通文件，无法用于 docker compose -f"@,
        ),
        kind matches FileKind::Inaccessible { error } ==> r->Err_0@ == ErrorView::Internal(
            "compose 文件 "@ + path@ + " 不可访问: "@ + error@
                + "。请确认宿主机上该文件存在并已挂载到容器内的同一路径。"@,
        ),
{
}

/// The running image is known once its id is; then it is taken as docker named it.
pub proof fn the_running_image_has_an_id(
    image_ref: String,
    image_id: String,
    r: Result<(String, String), AdminServiceError>,
)
    requires
        call_ensures(detect_running_image, (image_ref, image_id), r),
    ensures
        image_id@.len() > 0 ==> r == Ok::<(String, String), AdminServiceError>(
            (image_ref, image_id),
        ),
        image_id@.len() == 0 ==> (r matches Err(e) && e@ == ErrorView::Internal(
            "无法读取当前容器的镜像 ID"@,
        )),
{
}

/// Pulling and starting differ in the verb alone: both run in the directory of the
/// project with its file, for its service, and both set the image.
pub proof fn pulling_and_starting_agree(
    ctx: ComposeContext,
    image: &str,
    pull: CommandLine,
    up: CommandLine,
)
    requires
        call_ensures(ComposeContext::compose_pull, (&ctx, image), pull),
        call_ensures(ComposeContext::compose_up, (&ctx, image), up),
    ensures
        pull.program@ == "docker"@ && up.program@ == "docker"@,
        views(pull.args@) == seq![
            "compose"@,
            "--project-directory"@,
            ctx.host_project_dir@,
            "-f"@,
            ctx.in_container_compose@,
            "pull"@,
            ctx.service@,
        ],
        views(up.args@) == seq![
            "compose"@,
            "--project-directory"@,
            ctx.host_project_dir@,
            "-f"@,
            ctx.in_container_compose@,
            "up"@,
            "-d"@,
            ctx.service@,
        ],
        pull.envs@.len() == 1 && up.envs@.len() == 1,
        pull.envs@[0].0@ == "KIRO_RS_IMAGE"@ && up.envs@[0].0@ == "KIRO_RS_IMAGE"@,
        pull.envs@[0].1@ == image@ && up.envs@[0].1@ == image@,
{
    assert(views(pull.args@) =~= pull@.args);
    assert(views(up.args@) =~= up@.args);
    assert(pull@.envs.len() == 1 && up@.envs.len() == 1);
    assert(pull@.envs[0] == ("KIRO_RS_IMAGE"@, image@));
    assert(up@.envs[0] == ("KIRO_RS_IMAGE"@, image@));
}

/// The backup is tagged and looked for under one name, so that what was tagged is
/// found.
pub proof fn the_backup_is_found_where_it_was_tagged(
    image_id: &str,
    tag: CommandLine,
    look: CommandLine,
)
    requires
        call_ensures(tag_rollback_image, (image_id,), tag),
        call_ensures(rollback_image_present, (), look),
    ensures
        tag.program@ == "docker"@ && look.program@ == "docker"@,
        views(tag.args@) == seq!["tag"@, image_id@, "kiro-rs:rollback"@],
        views(look.args@) == seq!["image"@, "inspect"@, "kiro-rs:rollback"@],
        tag.envs@.len() == 0 && look.envs@.len() == 0,
{
    assert(views(tag.args@) =~= tag@.args);
    assert(views(look.args@) =~= look@.args);
    assert(tag@.envs.len() == 0 && look@.envs.len() == 0);
}

/// The calls of compose name the file that was found, the service that docker named,
/// and the directory of the file on the host, or the current one if it has none.
pub proof fn the_project_is_put_together(
    labels: ComposeLabels,
    path: String,
    parent: Option<String>,
    r: ComposeContext,
)
    requires
        call_ensures(ComposeContext::detect, (&labels, path, &parent), r),
    ensures
        r.in_container_compose@ == path@,
        r.service@ == labels.service@,
        parent matches Some(dir) ==> dir@.len() > 0 ==> r.host_project_dir@ == dir@,
        parent is None || parent.unwrap()@.len() == 0 ==> r.host_project_dir@ == "."@,
{
    assert(r@.file == path@ && r@.service == labels@.service);
}

} // verus!
