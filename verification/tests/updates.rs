use kiro_rs::admin::commands::{
    command_output_text, inspect_self_container, inspected, join_streams, run_command,
    run_command_with_env, CommandLine, CommandOutcome,
};
use kiro_rs::admin::compose::{
    detect_compose_metadata, ensure_compose_file_exists, resolve_in_container_compose_path,
    unreadable_message, FileKind,
};
use kiro_rs::admin::image_update::{
    image_pulled, ImageJob, ImageResult, JobAction, JobEvent, JobStep,
};
use kiro_rs::admin::release::{
    describe_release, describe_release_now, fetch_github_release, fetch_latest_release,
    latest_release_candidate, refusal_text, DockerHubTag, GitHubRelease, TagsReply,
};
use kiro_rs::admin::service::AdminService;
use kiro_rs::admin::types::UpdateCheckInfo;
use kiro_rs::clock::Timestamp;
use kiro_rs::model::config::Config;

fn config(image: &str, previous: Option<&str>) -> Config {
    Config {
        default_endpoint: "q".to_string(),
        proxy_url: None,
        admin_api_key: None,
        api_key: None,
        update_image: image.to_string(),
        update_previous_image: previous.map(|s| s.to_string()),
        update_auto_apply: false,
        update_auto_apply_time: "03:00".to_string(),
    }
}

fn service(image: &str, previous: Option<&str>) -> AdminService {
    AdminService::new_at(&config(image, previous), vec![], vec![], 0)
}

fn tag(name: &str, date: &str) -> DockerHubTag {
    DockerHubTag { name: name.to_string(), last_updated: date.to_string() }
}

fn at(seconds: i64) -> Timestamp {
    Timestamp { seconds, nanos: 0 }
}

fn ok(stdout: &str) -> JobEvent {
    JobEvent::Ran(finished(stdout, "", true))
}

fn finished(stdout: &str, stderr: &str, success: bool) -> CommandOutcome {
    CommandOutcome::Finished {
        stdout: stdout.as_bytes().to_vec(),
        stderr: stderr.as_bytes().to_vec(),
        success,
        status: if success { "exit status: 0" } else { "exit status: 1" }.to_string(),
    }
}

fn failed() -> JobEvent {
    JobEvent::Ran(finished("", "boom", false))
}

fn wait(step: JobStep) -> (ImageJob, JobAction) {
    match step {
        JobStep::Wait { job, action } => (job, action),
        other => panic!("{:?}", other),
    }
}

fn run(action: &JobAction) -> &CommandLine {
    match action {
        JobAction::Run(command) => command,
        other => panic!("{:?}", other),
    }
}

fn to_compose(step: JobStep) -> JobStep {
    let (job, action) = wait(step);
    assert_eq!(run(&action).args[0], "inspect");
    assert_eq!(run(&action).args[3], "box");
    let (job, action) = wait(job.resume(ok("/srv/app/docker-compose.yml|gateway\n")));
    match action {
        JobAction::CheckFiles { host_path, default_path } => {
            assert_eq!(host_path, "/srv/app/docker-compose.yml");
            assert_eq!(default_path, "/app/config/docker-compose.yml");
        }
        other => panic!("{:?}", other),
    }
    let (job, action) =
        wait(job.resume(JobEvent::Files { host_is_file: false, default_is_file: true }));
    assert!(matches!(action, JobAction::CheckFile { path } if path == "/app/config/docker-compose.yml"));
    job.resume(JobEvent::File(FileKind::Regular))
}

fn finish(step: JobStep) -> ImageResult {
    match step {
        JobStep::Finished(result) => result,
        other => panic!("{:?}", other),
    }
}

#[test]
fn the_newest_version_is_found() {
    let query = fetch_latest_release("docker.io/owner/image:1").unwrap();
    assert_eq!((query.owner.as_str(), query.repo.as_str()), ("owner", "image"));
    assert_eq!(
        query.url,
        "https://hub.docker.com/v2/repositories/owner/image/tags?page_size=100&page=1"
    );
    let tags = vec![
        tag("latest", "x"),
        tag("v1.9.0", "a"),
        tag("1.10.0", "b"),
        tag("v1.10.0-alpine", "c"),
        tag("1.2.0", "d"),
        tag("99", "e"),
    ];
    let c = latest_release_candidate(&query, TagsReply::Tags(tags), "1.9.5").unwrap();
    assert_eq!(c.latest_version, "1.10.0-alpine");
    assert_eq!(c.published_at, Some("c".to_string()));
    assert_eq!(c.release_url, Some("https://hub.docker.com/r/owner/image/tags".to_string()));
    assert!(c.has_update);
    assert_eq!(c.current_version, "1.9.5");
}

#[test]
fn there_may_be_no_version() {
    let query = fetch_latest_release("  ").unwrap();
    assert_eq!((query.owner.as_str(), query.repo.as_str()), ("zyphrzero", "kiro-rs"));
    let reply = TagsReply::Tags(vec![tag("latest", "x")]);
    let c = latest_release_candidate(&query, reply, "1.0.0").unwrap();
    assert_eq!((c.latest_version.as_str(), c.has_update), ("", false));
    assert_eq!((c.release_url, c.published_at), (None, None));
    let reply = TagsReply::Tags(vec![tag("1.0.0", "")]);
    let c = latest_release_candidate(&query, reply, "1.0.0").unwrap();
    assert_eq!((c.latest_version.as_str(), c.has_update), ("1.0.0", false));
    assert_eq!(c.published_at, None);
}

#[test]
fn answers_without_tags_are_told_apart() {
    let query = fetch_latest_release("owner/image").unwrap();
    let of = |reply: TagsReply| latest_release_candidate(&query, reply, "1").unwrap_err().message();
    assert_eq!(of(TagsReply::NoAnswer("x".to_string())), "内部错误: 请求 Docker Hub API 失败: x");
    assert_eq!(of(TagsReply::Unreadable("x".to_string())), "内部错误: 解析 Docker Hub 响应失败: x");
    assert!(of(TagsReply::Refused { status: 404, body: "gone".to_string() })
        .starts_with("内部错误: Docker Hub 上未找到镜像 owner/image（可能仓库还未发布或为私有）。"));
    let body = "字".repeat(300);
    assert_eq!(
        of(TagsReply::Refused { status: 503, body }),
        format!("内部错误: Docker Hub API 返回 503 Service Unavailable: {}", "字".repeat(200))
    );
    assert_eq!(refusal_text("429 Too Many Requests", "b"), "Docker Hub API 返回 429 Too Many Requests: b");
    assert_eq!(
        fetch_latest_release("a/b/c").unwrap_err().message(),
        "内部错误: 无法从镜像 a/b/c 解析出 Docker Hub owner/repo"
    );
}

#[test]
fn the_release_comes_before_docker_hub() {
    assert_eq!(
        fetch_github_release(" 1.2.3 "),
        Some("https://api.github.com/repos/ZyphrZero/kiro.rs/releases/tags/v1.2.3".to_string())
    );
    assert_eq!(fetch_github_release(""), None);
    let candidate = || {
        let query = fetch_latest_release("o/i").unwrap();
        latest_release_candidate(&query, TagsReply::Tags(vec![tag("2.0.0", "hub")]), "1.0.0").unwrap()
    };
    let release = GitHubRelease {
        name: "Two".to_string(),
        body: String::new(),
        html_url: "https://gh".to_string(),
        published_at: String::new(),
    };
    let info = describe_release(candidate(), Some(release), &at(0));
    assert_eq!(info.release_name, Some("Two".to_string()));
    assert_eq!(info.release_notes, None);
    assert_eq!(info.release_url, Some("https://gh".to_string()));
    assert_eq!(info.published_at, Some("hub".to_string()));
    assert_eq!(info.checked_at, "1970-01-01T00:00:00+00:00");
    assert_eq!(info.build_type, "docker-compose");
    let plain = describe_release_now(candidate(), None);
    assert_eq!(plain.release_name, None);
    assert_eq!(plain.release_url, Some("https://hub.docker.com/r/o/i/tags".to_string()));
    assert!(plain.checked_at.starts_with("20") && plain.has_update && !plain.cached);
}

fn info(version: &str) -> UpdateCheckInfo {
    UpdateCheckInfo {
        current_version: "1.0.0".to_string(),
        latest_version: version.to_string(),
        has_update: true,
        build_type: "docker-compose".to_string(),
        release_name: None,
        release_notes: None,
        release_url: None,
        published_at: None,
        checked_at: "then".to_string(),
        cached: false,
        warning: None,
    }
}

#[test]
fn what_was_found_is_used_for_half_an_hour() {
    let mut s = service("a/b", None);
    assert!(s.check_update_at(false, &at(0)).is_none());
    let answer = s.check_update_done_at(Ok(info("2.0.0")), "1.0.0", &at(0));
    assert!(!answer.cached);
    let again = s.check_update_at(false, &at(1799)).unwrap();
    assert!(again.cached && again.latest_version == "2.0.0");
    assert!(s.check_update_at(true, &at(1)).is_none());
    assert!(s.check_update_at(false, &at(1800)).is_none());
    assert!(s.check_update(false).is_none());
}

#[test]
fn a_failed_look_gives_what_was_found_last() {
    let mut s = service("a/b", None);
    let e = || fetch_latest_release("a/b/c").unwrap_err();
    let answer = s.check_update_done_at(Err(e()), "1.0.0", &at(0));
    assert_eq!(answer.latest_version, "");
    assert!(!answer.has_update && !answer.cached);
    assert_eq!(answer.checked_at, "1970-01-01T00:00:00+00:00");
    assert_eq!(
        answer.warning,
        Some("检查更新失败：内部错误: 无法从镜像 a/b/c 解析出 Docker Hub owner/repo".to_string())
    );
    s.check_update_done(Ok(info("2.0.0")), "1.0.0");
    let answer = s.check_update_done(Err(e()), "1.0.0");
    assert!(answer.cached && answer.has_update && answer.warning.is_some());
    assert_eq!(answer.latest_version, "2.0.0");
    assert!(s.check_update(false).unwrap().warning.is_none());
}

#[test]
fn an_image_is_pulled() {
    let pull = service(" a/b:2 ", None).pull_update_image().unwrap();
    assert_eq!(pull.command.program, "docker");
    assert_eq!(pull.command.args, vec!["pull".to_string(), "a/b:2".to_string()]);
    let r = image_pulled(pull, &finished("done\n\n", "", true)).unwrap();
    assert_eq!(r.message, "镜像拉取完成");
    assert_eq!(r.output, Some("done\n".to_string()));
    assert!(r.success && !r.applied && !r.need_restart);
    assert!(service("bad", None).pull_update_image().is_err());
    let pull = service("a/b", None).pull_update_image().unwrap();
    let e = image_pulled(pull, &finished("", "denied\n", false)).unwrap_err();
    assert_eq!(e.message(), "内部错误: 命令 docker pull a/b 执行失败（exit status: 1）: denied");
}

#[test]
fn an_update_tags_pulls_and_starts() {
    let mut s = service("a/b:2", Some("old"));
    let step = to_compose(s.apply_image_update(Some(" box ".to_string())));
    let (job, action) = wait(step);
    assert_eq!(run(&action).args[2], "{{.Config.Image}}");
    let (job, action) = wait(job.resume(ok("a/b:1\n")));
    assert_eq!(run(&action).args[2], "{{.Image}}");
    let (job, action) = wait(job.resume(ok("sha256:77\n")));
    assert_eq!(run(&action).args, vec!["tag", "sha256:77", "kiro-rs:rollback"]);
    let (job, action) = wait(job.resume(ok("tagged")));
    assert_eq!(
        run(&action).args,
        vec![
            "compose",
            "--project-directory",
            "/srv/app",
            "-f",
            "/app/config/docker-compose.yml",
            "pull",
            "gateway"
        ]
    );
    assert_eq!(
        run(&action).envs,
        vec![("KIRO_RS_IMAGE".to_string(), "a/b:2".to_string())]
    );
    let (job, action) = wait(job.resume(ok("pulled")));
    assert_eq!(run(&action).args[5..], ["up", "-d", "gateway"]);
    let result = finish(job.resume(ok("started")));
    assert_eq!(result.response.message, "镜像已更新并应用，容器将由 Docker Compose 重建");
    assert_eq!(result.response.output, Some("tagged\npulled\nstarted\n".to_string()));
    assert!(result.response.applied && result.response.need_restart);
    assert_eq!(result.previous_image, Some("a/b:1".to_string()));
    assert_eq!(result.image, None);
    s.record_image(&result);
    let mut c = config("a/b:2", Some("old"));
    c.record_image(&result);
    assert_eq!(s.get_update_config().previous_image, Some("a/b:1".to_string()));
    assert_eq!(c.update_previous_image, Some("a/b:1".to_string()));
    assert_eq!((c.update_image.as_str(), s.get_update_config().image.as_str()), ("a/b:2", "a/b:2"));
}

#[test]
fn an_update_goes_on_without_a_backup() {
    for stage in 0..3 {
        let s = service("a/b:2", None);
        let (mut job, _) = wait(to_compose(s.apply_image_update(Some("box".to_string()))));
        for _ in 0..stage {
            job = wait(job.resume(ok("x"))).0;
        }
        let (job, action) = wait(job.resume(failed()));
        assert_eq!(run(&action).args[5], "pull");
        let (job, _) = wait(job.resume(ok("")));
        let result = finish(job.resume(ok("")));
        assert_eq!(result.previous_image, None);
        let head = if stage == 2 {
            "warning: 备份当前镜像失败: 内部错误: "
        } else {
            "warning: 读取当前镜像信息失败: 内部错误: "
        };
        assert!(result.response.output.unwrap().starts_with(head));
    }
}

#[test]
fn an_update_without_an_image_id_has_no_backup() {
    let s = service("a/b:2", None);
    let (job, _) = wait(to_compose(s.apply_image_update(Some("box".to_string()))));
    let (job, _) = wait(job.resume(ok("a/b:1")));
    let (job, action) = wait(job.resume(ok("  \n")));
    assert_eq!(run(&action).args[5], "pull");
    assert!(matches!(job.resume(failed()), JobStep::Failed(_)));
}

#[test]
fn a_rollback_starts_the_backup_without_pulling() {
    let mut s = service("a/b:2", Some(" a/b:1 "));
    let (job, action) = wait(s.rollback_image_update(Some("box".to_string())));
    assert_eq!(run(&action).args, vec!["image", "inspect", "kiro-rs:rollback"]);
    let (job, action) = wait(to_compose(job.resume(ok("[]"))));
    assert_eq!(run(&action).args[5], "up");
    assert_eq!(run(&action).envs[0].1, "kiro-rs:rollback");
    let result = finish(job.resume(ok("up")));
    assert_eq!(result.response.message, "已回退到镜像 a/b:1");
    assert_eq!(result.image, Some("a/b:1".to_string()));
    assert_eq!(result.previous_image, None);
    s.record_image(&result);
    assert_eq!(s.get_update_config().image, "a/b:1");
    assert_eq!(s.get_update_config().previous_image, Some(" a/b:1 ".to_string()));
}

#[test]
fn a_rollback_needs_a_recorded_image_and_its_backup() {
    for previous in [None, Some("  ")] {
        match service("a/b", previous).rollback_image_update(None) {
            JobStep::Failed(e) => assert_eq!(
                e.message(),
                "凭据无效: 尚未记录可回退的镜像版本，请先执行一次在线更新"
            ),
            other => panic!("{:?}", other),
        }
    }
    let (job, _) = wait(service("a/b", Some("x")).rollback_image_update(None));
    match job.resume(failed()) {
        JobStep::Failed(e) => assert!(e.message().contains("本地未找到备份镜像 kiro-rs:rollback")),
        other => panic!("{:?}", other),
    }
    let (job, _) = wait(service("a/b", Some("x")).rollback_image_update(None));
    match job.resume(ok("")) {
        JobStep::Failed(e) => {
            assert_eq!(e.message(), "内部错误: 无法获取当前容器 hostname（HOSTNAME 环境变量为空）")
        }
        other => panic!("{:?}", other),
    }
}

#[test]
fn an_update_needs_a_compose_file() {
    let start = || service("a/b", None).apply_image_update(Some("box".to_string()));
    let (job, _) = wait(start());
    match job.resume(ok("/x/docker-compose.yml|")) {
        JobStep::Failed(e) => assert!(e.message().contains("缺少 docker compose service 标签")),
        other => panic!("{:?}", other),
    }
    let (job, _) = wait(start());
    assert!(matches!(job.resume(failed()), JobStep::Failed(_)));
    let (job, _) = wait(start());
    let (job, _) = wait(job.resume(ok("/x \"y|svc")));
    match job.resume(JobEvent::Files { host_is_file: false, default_is_file: false }) {
        JobStep::Failed(e) => assert!(e.message().contains("宿主机路径 \"/x \\\"y\"，")),
        other => panic!("{:?}", other),
    }
    assert!(matches!(service("", None).apply_image_update(None), JobStep::Failed(_)));
}

#[test]
fn compose_files_are_checked() {
    assert!(ensure_compose_file_exists("/c", &FileKind::Regular).is_ok());
    let of = |kind: FileKind| ensure_compose_file_exists("/c", &kind).unwrap_err().message();
    assert!(of(FileKind::Directory).contains("compose 文件 /c 实际是一个目录"));
    assert!(of(FileKind::Other).contains("compose 文件 /c 不是普通文件"));
    assert!(of(FileKind::Inaccessible { error: "gone".to_string() })
        .contains("compose 文件 /c 不可访问: gone。"));
    assert_eq!(resolve_in_container_compose_path(" /h ", true, true).unwrap(), "/h");
    assert_eq!(
        resolve_in_container_compose_path(" ", true, true).unwrap(),
        "/app/config/docker-compose.yml"
    );
    assert!(unreadable_message("Q").contains("宿主机路径 Q，"));
    let labels = detect_compose_metadata(" /a | b ").unwrap();
    assert_eq!((labels.compose_file.as_str(), labels.service.as_str()), ("/a", "b"));
}

#[test]
fn command_output_is_shown_in_whole_lines() {
    assert_eq!(command_output_text(b"a \n", b"\n b"), "a\n\n b\n");
    assert_eq!(command_output_text(b" \n", b""), "");
    assert_eq!(command_output_text(&[0x61, 0xff], b""), "a\u{fffd}\n");
    assert_eq!(join_streams("out", "err"), "out\nerr\n");
}

#[test]
fn failed_commands_are_reported() {
    let command = run_command(vec!["ps".to_string()]);
    let e = run_command_with_env(
        &command,
        &CommandOutcome::NotStarted { error: "not found".to_string() },
    )
    .unwrap_err();
    assert_eq!(e.message(), "内部错误: 执行 docker 失败: not found");
    assert_eq!(run_command_with_env(&command, &finished("x", "", true)).unwrap(), "x\n");
    let inspect = inspect_self_container("{{.Id}}", &Some("h".to_string())).unwrap();
    assert_eq!(inspect.args, vec!["inspect", "--format", "{{.Id}}", "h"]);
    assert_eq!(inspected(&inspect, &finished(" one \r\ntwo", "", true)).unwrap(), "one");
    assert_eq!(
        inspected(&inspect, &finished("", "no", false)).unwrap_err().message(),
        "内部错误: 通过 docker inspect 读取容器信息失败：内部错误: 命令 docker inspect --format {{.Id}} h 执行失败（exit status: 1）: no。请确认容器内已安装 docker CLI 并挂载 /var/run/docker.sock。"
    );
}

#[test]
fn compose_runs_in_the_directory_of_its_file() {
    for (file, dir) in [
        ("/srv/app/docker-compose.yml", "/srv/app"),
        ("docker-compose.yml", "."),
        ("a b/c.yml", "a b"),
        ("/docker-compose.yml", "/"),
        ("../docker-compose.yml", ".."),
        ("/srv/v1./docker-compose.yml", "/srv/v1."),
        ("", "."),
    ] {
        let (job, _) = wait(service("a/b", None).apply_image_update(Some("box".to_string())));
        let (job, _) = wait(job.resume(ok(&format!("{}|gateway", file))));
        let (job, _) =
            wait(job.resume(JobEvent::Files { host_is_file: false, default_is_file: true }));
        let (job, _) = wait(job.resume(JobEvent::File(FileKind::Regular)));
        let (job, action) = wait(job.resume(failed()));
        assert_eq!(run(&action).args[2], dir, "{}", file);
        assert!(matches!(job.resume(failed()), JobStep::Failed(_)));
    }
}

#[test]
fn the_directory_can_be_given() {
    let (job, _) = wait(service("a/b", None).apply_image_update(Some("box".to_string())));
    let (job, _) = wait(job.resume(ok("/x/c.yml|gateway")));
    let (job, _) = wait(job.resume(JobEvent::Files { host_is_file: true, default_is_file: true }));
    let (job, _) =
        wait(job.resume_with(JobEvent::File(FileKind::Regular), Some("/given".to_string())));
    let (_, action) = wait(job.resume(failed()));
    assert_eq!(run(&action).args[2], "/given");
    assert_eq!(run(&action).args[4], "/x/c.yml");
}
