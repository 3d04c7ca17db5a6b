use std::cmp::Ordering;

use kiro_rs::admin::images::{
    comes_before, compare_semver, dockerhub_owner_repo, is_semver_tag, parse_semver_core,
    validate_image_ref,
};

#[test]
fn validates_image_refs() {
    assert!(validate_image_ref("zyphrzero/kiro-rs:latest").is_ok());
    assert!(validate_image_ref(" docker.io/owner/kiro-rs:v1 ").is_ok());
    assert!(validate_image_ref("registry-1.docker.io/owner/kiro-rs").is_ok());

    assert!(validate_image_ref("").is_err());
    assert!(validate_image_ref("ghcr.io/owner/kiro-rs:latest").is_err());
    assert!(validate_image_ref("docker.io/owner/").is_err());
    assert!(validate_image_ref("docker.io//kiro-rs:latest").is_err());
    assert!(validate_image_ref("docker.io/owner/kiro rs:latest").is_err());
    assert!(validate_image_ref("kiro-rs").is_err());
}

#[test]
fn bad_references_are_told_apart() {
    let of = |s: &str| validate_image_ref(s).unwrap_err().message();
    assert_eq!(of("  "), "凭据无效: 镜像地址不能为空");
    assert_eq!(of("a/b\u{7}c"), "凭据无效: 镜像地址不能包含空白或控制字符");
    assert_eq!(
        of("localhost:5000/a/b"),
        "凭据无效: 在线更新只支持 Docker Hub 镜像（如 owner/image:tag 或 docker.io/owner/image:tag）"
    );
    assert_eq!(of("a//b"), "凭据无效: Docker Hub 镜像需为 owner/image[:tag] 格式");
}

#[test]
fn owner_and_repository_are_found() {
    let of = |s: &str| dockerhub_owner_repo(s);
    assert_eq!(
        of("zyphrzero/kiro-rs:latest"),
        Some(("zyphrzero".to_string(), "kiro-rs".to_string()))
    );
    assert_eq!(
        of(" docker.io/library/redis "),
        Some(("library".to_string(), "redis".to_string()))
    );
    assert_eq!(of("a/b@sha256:00ff"), Some(("a".to_string(), "b".to_string())));
    assert_eq!(of("redis"), None);
    assert_eq!(of("a/b/c"), None);
    assert_eq!(of("/b"), None);
}

#[test]
fn versions_are_read() {
    assert_eq!(parse_semver_core("v1.20.3-rc.1+5"), [1, 20, 3]);
    assert_eq!(parse_semver_core("1.2.3+a-b"), [1, 2, 3]);
    assert_eq!(parse_semver_core("1.2"), [1, 2, 0]);
    assert_eq!(parse_semver_core("1.2.3.4"), [1, 2, 0]);
    assert_eq!(parse_semver_core("x.7.y"), [0, 7, 0]);
    assert_eq!(parse_semver_core("4294967296.1.1"), [0, 1, 1]);
}

#[test]
fn versions_are_compared_by_number() {
    assert_eq!(compare_semver("1.9.0", "1.10.0"), Ordering::Less);
    assert_eq!(compare_semver("2.0.0", "v1.99.99"), Ordering::Greater);
    assert_eq!(compare_semver("v1.2.3-alpha", "1.2.3+build"), Ordering::Equal);
    assert!(comes_before("1.2.3", "1.2.4"));
    assert!(!comes_before("1.2.4", "1.2.4"));
}

#[test]
fn tags_that_are_no_versions_are_told_apart() {
    assert!(is_semver_tag("1.2.3"));
    assert!(is_semver_tag(" v1.2.3-beta "));
    assert!(is_semver_tag("2026.1.0"));
    for tag in ["latest", "rolling", "dev", "", "v", "1", "1.2", "1.2.", "1..3", "1.x.3", "-1.2.3"] {
        assert!(!is_semver_tag(tag), "{}", tag);
    }
}
