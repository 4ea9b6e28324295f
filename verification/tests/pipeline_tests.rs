//! The pipeline: acquisition plans and integrity, unpack plans and
//! idempotence, the build assembly, packaging and the stage switchboard.

use ports::acquire::{
    accept_download, plan_archive, plan_git, AcquireError, ArchiveAction, GitAction,
};
use ports::builder::{
    configure_args, configure_binary, configure_environment, detect_build_tool, expand_env,
    install_copy_mode, install_directive_target, install_plan, prototype_copy_target, rsync_args,
    BuildError, BuildTool, InstallCopyMode,
};
use ports::bundle::{
    ArchiveSource, BuildFlagNode, BuildOptionNode, GitSource, PackageBuilder, PatchSource,
    SourceNode, SourceSection,
};
use ports::ips::{manifest_vars, render_manifest, IpsError};
use ports::unpack::{
    archive_unpack_outcome, plan_section_unpack, unpack_sources, UnpackError, UnpackOutcome,
    UnpackStep,
};
use ports::workspace::{HasherKind, Workspace};

fn archive(src: &str, sha512: Option<&str>, sha256: Option<&str>) -> ArchiveSource {
    ArchiveSource {
        src: String::from(src),
        sha512: sha512.map(String::from),
        sha256: sha256.map(String::from),
        signature_url_extension: None,
        signature_url: None,
    }
}

fn git(repo: &str, directory: Option<&str>) -> GitSource {
    GitSource {
        repository: String::from(repo),
        branch: None,
        tag: Some(String::from("v1")),
        archive: None,
        must_stay_as_repo: None,
        directory: directory.map(String::from),
    }
}

#[test]
fn a_warm_cache_downloads_nothing_again() {
    let a = archive("https://host/f.tar.gz", Some("d"), None);
    let plan = plan_archive(&a, true, false);
    assert!(!plan.remove_cached);
    assert_eq!(plan.action, ArchiveAction::UseCached);
    let g = git("https://host/r.git", None);
    let plan = plan_git(&g, true, false, false, "/cache/archives");
    assert!(plan.action.is_none());
}

#[test]
fn a_cold_cache_downloads_with_the_declared_hasher() {
    let a = archive("https://host/f.tar.gz", None, Some("d"));
    match plan_archive(&a, false, false).action {
        ArchiveAction::Download { url, hasher } => {
            assert_eq!(url, "https://host/f.tar.gz");
            assert_eq!(hasher, HasherKind::Sha256);
        },
        other => panic!("expected a download, got {:?}", other),
    }
    let strong = archive("https://host/f.tar.gz", Some("x"), Some("d"));
    match plan_archive(&strong, true, true).action {
        ArchiveAction::Download { hasher, .. } => assert_eq!(hasher, HasherKind::Sha512),
        other => panic!("expected a download under archive-clean, got {:?}", other),
    }
}

#[test]
fn a_digest_mismatch_reaches_no_cache() {
    let a = archive("https://host/f.tar.gz", Some("feed"), None);
    let err = accept_download(&a, "beef").unwrap_err();
    match err {
        AcquireError::IntegrityError { url, expected, actual } => {
            assert_eq!(url, "https://host/f.tar.gz");
            assert_eq!(expected, "feed");
            assert_eq!(actual, "beef");
        },
        other => panic!("expected an integrity refusal, got {:?}", other),
    }
    assert!(accept_download(&a, "feed").unwrap().record_digest.is_none());
    let bare = archive("https://host/f.tar.gz", None, None);
    let acc = accept_download(&bare, "beef").unwrap();
    assert_eq!(acc.record_digest.as_deref(), Some("beef"));
}

#[test]
fn a_clone_selects_the_tag_over_the_branch() {
    let mut g = git("https://host/widget.git", None);
    g.branch = Some(String::from("main"));
    let plan = plan_git(&g, false, false, false, "/cache");
    match plan.action.unwrap() {
        GitAction::Clone { clone_args, .. } => {
            let args: Vec<&str> = clone_args.iter().map(|s| s.as_str()).collect();
            assert_eq!(
                args,
                ["clone", "--single-branch", "--branch", "v1", "https://host/widget.git",
                    "widget-v1"],
            );
        },
        other => panic!("expected a clone, got {:?}", other),
    }
}

#[test]
fn an_existing_checkout_is_archived_in_place() {
    let mut g = git("https://host/widget.git", None);
    g.must_stay_as_repo = Some(true);
    let plan = plan_git(&g, false, true, false, "/cache");
    match plan.action.unwrap() {
        GitAction::TarCheckout { args } => {
            assert_eq!(args[1], "/cache/widget-v1.tar.gz");
            assert_eq!(args[2], "widget-v1");
        },
        other => panic!("expected a tar archive, got {:?}", other),
    }
}

#[test]
fn a_second_git_source_needs_its_own_directory() {
    let section = SourceSection {
        name: None,
        sources: vec![
            SourceNode::Git(git("https://host/main.git", None)),
            SourceNode::Git(git("https://host/aux.git", None)),
        ],
    };
    let err = plan_section_unpack("pkg", "/b", "/w/build", "/cache", &section).unwrap_err();
    assert!(matches!(err, UnpackError::MissingDirectory(_)));

    let ok = SourceSection {
        name: None,
        sources: vec![
            SourceNode::Git(git("https://host/main.git", None)),
            SourceNode::Git(git("https://host/aux.git", Some("aux"))),
        ],
    };
    let steps = plan_section_unpack("pkg", "/b", "/w/build", "/cache", &ok).unwrap();
    assert_eq!(steps.len(), 2);
    match (&steps[0], &steps[1]) {
        (
            UnpackStep::ExtractArchive { unpack_path: first, .. },
            UnpackStep::ExtractArchive { unpack_path: second, .. },
        ) => {
            assert_eq!(first, "/w/build/pkg");
            assert_eq!(second, "/w/build/aux");
        },
        other => panic!("expected two extractions, got {:?}", other),
    }
}

#[test]
fn unpack_steps_follow_document_order() {
    let section = SourceSection {
        name: Some(String::from("srv/ng")),
        sources: vec![
            SourceNode::Archive(archive("https://host/ng-1.0.tar.gz", Some("d"), None)),
            SourceNode::Patch(PatchSource::new(String::from("fix.patch"), Some(1))),
        ],
    };
    let steps = unpack_sources("pkg", "/bundles/ng", "/w/build", "/cache", &vec![section]).unwrap();
    assert_eq!(steps.len(), 2);
    match &steps[0] {
        UnpackStep::ExtractArchive { archive_path, unpack_path } => {
            assert_eq!(archive_path, "/cache/ng-1.0.tar.gz");
            assert_eq!(unpack_path, "/w/build/srv_ng");
        },
        other => panic!("expected an extraction, got {:?}", other),
    }
    match &steps[1] {
        UnpackStep::ApplyPatch { args } => {
            let args: Vec<&str> = args.iter().map(|s| s.as_str()).collect();
            assert_eq!(args, ["-d", "/w/build/srv_ng", "-p1", "-i", "/bundles/ng/fix.patch"]);
        },
        other => panic!("expected a patch, got {:?}", other),
    }
}

#[test]
fn an_existing_unpack_path_skips_extraction() {
    let path = String::from("/cache/a.tar.gz");
    let outcome = archive_unpack_outcome(&path, true, true, &vec![]).unwrap();
    assert_eq!(outcome, UnpackOutcome::SkipExisting);
    let moved = archive_unpack_outcome(&path, true, false, &vec![String::from("a-1.0")]).unwrap();
    assert_eq!(moved, UnpackOutcome::MoveTopLevel(String::from("a-1.0")));
    assert!(matches!(
        archive_unpack_outcome(&path, true, false, &vec![]),
        Err(UnpackError::NotSingleTopLevel(_))
    ));
    assert!(matches!(
        archive_unpack_outcome(&path, false, false, &vec![]),
        Err(UnpackError::MissingArchive(_))
    ));
}

#[test]
fn the_configure_call_is_assembled_exactly() {
    let options = vec![
        BuildOptionNode { option: String::from("enable-http2") },
        BuildOptionNode { option: String::from("with-zlib") },
    ];
    let args = configure_args(&options, &Some(String::from("/usr")), "/w/proto");
    let got: Vec<&str> = args.iter().map(|s| s.as_str()).collect();
    assert_eq!(got, ["--enable-http2", "--with-zlib", "--prefix=/usr", "DESTDIR=/w/proto"]);
    assert_eq!(configure_binary(true, "/w/build/pkg"), "/w/build/pkg/configure");
    assert_eq!(configure_binary(false, "/w/build/pkg"), "./configure");
}

#[test]
fn the_configure_environment_lands_flags_on_their_variables() {
    let search = vec![String::from("/usr/bin"), String::from("/sbin")];
    let dotenv = vec![(String::from("SYSROOT"), String::from("/cross"))];
    let flags = vec![
        BuildFlagNode { flag: String::from("-m64"), flag_name: None },
        BuildFlagNode {
            flag: String::from("--sysroot=${SYSROOT}"),
            flag_name: Some(String::from("ldflags")),
        },
    ];
    let env = configure_environment(&search, &dotenv, &flags, "/w/proto").unwrap();
    let lookup = |k: &str| -> Option<String> {
        env.iter().find(|p| p.0 == k).map(|p| p.1.clone())
    };
    assert_eq!(lookup("PATH").as_deref(), Some("/usr/bin:/sbin"));
    assert_eq!(lookup("SYSROOT").as_deref(), Some("/cross"));
    assert_eq!(lookup("CFLAGS").as_deref(), Some("-m64"));
    assert_eq!(lookup("CXXFLAGS").as_deref(), Some("-m64"));
    assert_eq!(lookup("CPPFLAGS").as_deref(), Some("-m64"));
    assert_eq!(lookup("FFLAGS").as_deref(), Some("-m64"));
    assert_eq!(lookup("LDFLAGS").as_deref(), Some("--sysroot=/cross"));
    assert_eq!(lookup("DESTDIR").as_deref(), Some("/w/proto"));
}

#[test]
fn expansion_fails_on_an_unknown_variable() {
    let dotenv = vec![(String::from("A"), String::from("1"))];
    assert_eq!(expand_env("x$A-y", &dotenv).unwrap(), "x1-y");
    assert_eq!(expand_env("${A}${A}", &dotenv).unwrap(), "11");
    assert_eq!(expand_env("plain", &dotenv).unwrap(), "plain");
    assert_eq!(expand_env("a$ b", &dotenv).unwrap(), "a$ b");
    assert!(matches!(expand_env("$MISSING", &dotenv), Err(BuildError::UnknownVariable(_))));
    assert!(matches!(expand_env("${OPEN", &dotenv), Err(BuildError::UnterminatedReference(_))));
}

#[test]
fn the_install_step_repeats_the_staging_root() {
    let dotenv = vec![(String::from("A"), String::from("1"))];
    let (env, args) = install_plan(&dotenv, "/w/proto");
    assert!(env.iter().any(|p| p.0 == "DESTDIR" && p.1 == "/w/proto"));
    assert!(env.iter().any(|p| p.0 == "A" && p.1 == "1"));
    let got: Vec<&str> = args.iter().map(|s| s.as_str()).collect();
    assert_eq!(got, ["install", "DESTDIR=/w/proto"]);
}

#[test]
fn driver_detection_prefers_make() {
    assert_eq!(detect_build_tool(true, true).unwrap(), BuildTool::Make);
    assert_eq!(detect_build_tool(false, true).unwrap(), BuildTool::Ninja);
    assert!(matches!(detect_build_tool(false, false), Err(BuildError::NoBuildToolFound)));
    assert_eq!(BuildTool::Make.to_string(), "make");
    assert_eq!(BuildTool::Ninja.to_string(), "ninja");
}

#[test]
fn a_staged_prototype_lands_below_the_prefix() {
    assert_eq!(prototype_copy_target(&Some(String::from("/opt/x")), "/w/proto"), "/w/proto/opt/x");
    assert_eq!(prototype_copy_target(&None, "/w/proto"), "/w/proto");
    assert_eq!(
        install_directive_target(&Some(String::from("/opt/x")), "/w/proto", "bin"),
        "/w/proto/opt/x/bin",
    );
    let d = ports::bundle::InstallDirectiveNode {
        src: String::from("out"),
        target: String::from("bin"),
        name: String::from("tools"),
        pattern: Some(String::from(".*\\.so")),
        fmatch: None,
    };
    assert_eq!(install_copy_mode(&d), InstallCopyMode::RsyncPattern(String::from(".*\\.so")));
    let args = rsync_args("/w/build/list.txt", "/w/build/out", "/w/proto/bin");
    let got: Vec<&str> = args.iter().map(|s| s.as_str()).collect();
    assert_eq!(got, ["-avp", "--files-from=/w/build/list.txt", "/w/build/out", "/w/proto/bin"]);
}

#[test]
fn the_manifest_carries_the_package_identity() {
    let mut p = PackageBuilder::default()
        .name("foo")
        .project_name("foo")
        .classification("System")
        .summary("a tool")
        .license("MIT")
        .license_file("LICENSE")
        .version("1.0")
        .project_url("https://foo.dev")
        .build()
        .unwrap();
    p.sources = vec![SourceSection {
        name: None,
        sources: vec![SourceNode::Archive(archive("https://foo.dev/foo-1.0.tar.gz", Some("d"), None))],
    }];
    let b = ports::bundle::Bundle::new(String::from("/bundles/foo"), p, false);
    let vars = manifest_vars(&b, "0.5.11", "2023.0.0").unwrap();
    let text = render_manifest(&vars);
    assert!(text.contains("set name=pkg.fmri value=pkg:/foo@1.0,0.5.11-2023.0.0.1"));
    assert!(text.contains("set name=pkg.summary value=\"a tool\""));
    assert!(text.contains("set name=info.source-url value=\"https://foo.dev/foo-1.0.tar.gz\""));
    assert!(text.contains("license LICENSE license='MIT'"));
}

#[test]
fn a_missing_summary_refuses_the_manifest() {
    let p = PackageBuilder::default().name("foo").project_name("foo").build().unwrap();
    let b = ports::bundle::Bundle::new(String::from("/bundles/foo"), p, false);
    assert!(matches!(
        manifest_vars(&b, "0.5.11", "2023.0.0"),
        Err(IpsError::MissingRequiredField(_))
    ));
}

#[test]
fn workspace_paths_follow_the_fixed_layout() {
    let wks = Workspace::new(String::from("/data/wks"));
    assert_eq!(wks.get_or_create_download_dir(), "/data/wks/downloads");
    assert_eq!(wks.get_or_create_build_dir(), "/data/wks/build");
    assert_eq!(wks.get_or_create_prototype_dir(), "/data/wks/proto");
    assert_eq!(wks.get_or_create_manifest_dir(), "/data/wks/manifests");
    assert_eq!(wks.get_name(), "wks");
    let p = wks.get_file_path("https://host/dir/f.tar.gz?x=1").unwrap();
    assert_eq!(p, "/data/wks/downloads/f.tar.gz");
    assert!(wks.get_file_path("not a url").is_err());
    assert!(wks.get_file_path("https://host/dir/").is_err());
}
