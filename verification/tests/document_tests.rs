//! The document model: building packages, writing them out, reading
//! them back, and merging gate stubs.

use ports::bundle::{
    ArchiveSource, BuildFlagNode, BuildOptionNode, BuildSection, Bundle, BundleError,
    ConfigureBuildSection, Dependency, DependencyKind, GitSource, Package, PackageBuilder,
    SourceNode, SourceSection,
};
use ports::edit::{apply_license_action, detect_license_action, LicenseAction};
use ports::schema::decode_package;

fn sample_package() -> Package {
    let mut p = PackageBuilder::default()
        .name("web/server/nginx")
        .project_name("nginx")
        .classification("Web Servers")
        .summary("a web server")
        .license("BSD-2-Clause")
        .license_file("LICENSE")
        .prefix("/usr")
        .version("1.24.0")
        .revision("2")
        .project_url("https://nginx.org")
        .maintainers(vec![String::from("alex"), String::from("sam")])
        .build()
        .unwrap();
    p.seperate_build_dir = true;
    p.sources = vec![SourceSection {
        name: None,
        sources: vec![
            SourceNode::Archive(ArchiveSource {
                src: String::from("https://nginx.org/download/nginx-1.24.0.tar.gz"),
                sha512: Some(String::from("abc123")),
                sha256: None,
                signature_url_extension: None,
                signature_url: Some(String::from("https://nginx.org/download/nginx-1.24.0.tar.gz.asc")),
            }),
            SourceNode::Git(GitSource {
                repository: String::from("https://example.org/aux/helpers.git"),
                branch: Some(String::from("main")),
                tag: None,
                archive: None,
                must_stay_as_repo: Some(true),
                directory: Some(String::from("helpers")),
            }),
        ],
    }];
    p.dependencies = vec![Dependency {
        name: String::from("library/pcre2"),
        dev: true,
        kind: Some(DependencyKind::Require),
    }];
    p.build_section = vec![BuildSection::Configure(ConfigureBuildSection {
        options: vec![BuildOptionNode { option: String::from("enable-http2") }],
        flags: vec![BuildFlagNode {
            flag: String::from("-O2"),
            flag_name: None,
        }],
        compiler: Some(String::from("gcc")),
        linker: None,
    })];
    p
}

#[test]
fn document_roundtrip_keeps_every_field() {
    let p = sample_package();
    let doc = p.to_document();
    let q = decode_package(&doc).expect("an emitted document reads back");
    assert_eq!(p, q);
}

#[test]
fn document_roundtrip_of_a_minimal_package() {
    let p = PackageBuilder::default().name("a").project_name("a").build().unwrap();
    let doc = p.to_document();
    let q = decode_package(&doc).expect("an emitted document reads back");
    assert_eq!(p, q);
}

#[test]
fn decode_refuses_an_unknown_node() {
    let mut doc = sample_package().to_document();
    doc.push(ports::doc::PkgItem::Leaf(ports::doc::Leaf {
        name: String::from("surprise"),
        args: vec![],
        props: vec![],
    }));
    assert!(matches!(decode_package(&doc), Err(BundleError::UnknownNode(_))));
}

#[test]
fn decode_refuses_a_missing_name() {
    let doc: Vec<ports::doc::PkgItem> = vec![];
    assert!(matches!(decode_package(&doc), Err(BundleError::MissingNode(_))));
}

#[test]
fn builder_refuses_a_missing_required_field() {
    let r = PackageBuilder::default().name("only-a-name").build();
    assert!(matches!(r, Err(BundleError::UninitializedField(_))));
}

#[test]
fn merge_of_an_empty_stub_changes_nothing() {
    let mut target = sample_package();
    let before = target.clone();
    let stub = PackageBuilder::default()
        .name("web/server/nginx")
        .project_name("nginx")
        .build()
        .unwrap();
    let stub = Package { project_name: before.project_name.clone(), build_section: vec![], ..stub };
    target.merge_into_mut(&stub).unwrap();
    assert_eq!(target, before);
}

#[test]
fn merge_unions_configure_sections() {
    let mut target = PackageBuilder::default().name("x").project_name("x").build().unwrap();
    target.build_section = vec![BuildSection::Configure(ConfigureBuildSection {
        options: vec![BuildOptionNode { option: String::from("with-x") }],
        flags: vec![],
        compiler: None,
        linker: Some(String::from("ld.gold")),
    })];
    let mut stub = PackageBuilder::default().name("x").project_name("x").build().unwrap();
    stub.build_section = vec![BuildSection::Configure(ConfigureBuildSection {
        options: vec![BuildOptionNode { option: String::from("with-y") }],
        flags: vec![],
        compiler: Some(String::from("gcc")),
        linker: None,
    })];
    target.merge_into_mut(&stub).unwrap();
    match &target.build_section[0] {
        BuildSection::Configure(c) => {
            assert_eq!(c.options.len(), 2);
            assert_eq!(c.options[0].option, "with-x");
            assert_eq!(c.options[1].option, "with-y");
            assert_eq!(c.compiler.as_deref(), Some("gcc"));
            assert_eq!(c.linker.as_deref(), Some("ld.gold"));
        },
        other => panic!("expected a configure section, got {:?}", other),
    }
}

#[test]
fn merge_refuses_an_impossible_pairing() {
    let mut target = PackageBuilder::default().name("x").project_name("x").build().unwrap();
    target.build_section = vec![BuildSection::Configure(ConfigureBuildSection {
        options: vec![],
        flags: vec![],
        compiler: None,
        linker: None,
    })];
    let before = target.clone();
    let mut stub = PackageBuilder::default().name("x").project_name("x").build().unwrap();
    stub.build_section = vec![BuildSection::CMake];
    let err = target.merge_into_mut(&stub).unwrap_err();
    match err {
        BundleError::NonMergableBuildSections(a, b) => {
            assert_eq!(a, "configure");
            assert_eq!(b, "cmake");
        },
        other => panic!("expected a merge refusal, got {:?}", other),
    }
    assert_eq!(target, before);
}

#[test]
fn merge_overwrites_set_scalars_and_appends_lists() {
    let mut target = sample_package();
    let mut stub = PackageBuilder::default()
        .name("web/server/nginx")
        .project_name("nginx")
        .summary("a better summary")
        .build()
        .unwrap();
    stub.build_section = vec![];
    stub.dependencies = vec![Dependency { name: String::from("extra"), dev: false, kind: None }];
    target.merge_into_mut(&stub).unwrap();
    assert_eq!(target.summary.as_deref(), Some("a better summary"));
    assert_eq!(target.license.as_deref(), Some("BSD-2-Clause"));
    assert_eq!(target.dependencies.len(), 2);
    assert_eq!(target.dependencies[1].name, "extra");
}

#[test]
fn add_source_creates_and_extends_the_first_section() {
    let pkg = PackageBuilder::default().name("a").project_name("a").build().unwrap();
    let mut bundle = Bundle::new(String::from("/bundles/a"), pkg, false);
    let node = SourceNode::Git(GitSource {
        repository: String::from("https://example.org/a.git"),
        branch: None,
        tag: None,
        archive: None,
        must_stay_as_repo: None,
        directory: None,
    });
    bundle.add_source(node.clone());
    assert_eq!(bundle.package_document.sources.len(), 1);
    assert_eq!(bundle.package_document.sources[0].sources.len(), 1);
    bundle.add_source(node);
    assert_eq!(bundle.package_document.sources.len(), 1);
    assert_eq!(bundle.package_document.sources[0].sources.len(), 2);
}

#[test]
fn mogrify_manifest_path_follows_the_flag() {
    let pkg = PackageBuilder::default().name("a").project_name("a").build().unwrap();
    let with = Bundle::new(String::from("/bundles/a"), pkg.clone(), true);
    assert_eq!(with.get_mogrify_manifest().as_deref(), Some("/bundles/a/manifest.mog"));
    let without = Bundle::new(String::from("/bundles/a"), pkg, false);
    assert_eq!(without.get_mogrify_manifest(), None);
}

#[test]
fn repo_prefix_prefers_the_tag() {
    let mut g = GitSource {
        repository: String::from("https://github.com/acme/widget.git"),
        branch: Some(String::from("devel")),
        tag: Some(String::from("v2.1")),
        archive: None,
        must_stay_as_repo: None,
        directory: None,
    };
    assert_eq!(g.get_repo_prefix(), "widget-v2.1");
    g.tag = None;
    assert_eq!(g.get_repo_prefix(), "widget-devel");
    g.branch = None;
    assert_eq!(g.get_repo_prefix(), "widget");
    g.repository = String::from("plain");
    assert_eq!(g.get_repo_prefix(), "plain");
}

#[test]
fn license_edits_resolve_to_one_action() {
    assert_eq!(
        detect_license_action(Some(String::from("MIT")), None),
        LicenseAction::SetID(String::from("MIT")),
    );
    assert_eq!(
        detect_license_action(Some(String::from("MIT")), Some(String::from("LICENSE"))),
        LicenseAction::SetIDAndFile(String::from("MIT"), String::from("LICENSE")),
    );
    assert_eq!(
        detect_license_action(None, Some(String::from("LICENSE"))),
        LicenseAction::GetIDFromFile(String::from("LICENSE")),
    );
    assert_eq!(detect_license_action(None, None), LicenseAction::Bad);
    let mut pkg = PackageBuilder::default().name("a").project_name("a").build().unwrap();
    assert!(apply_license_action(
        &mut pkg,
        LicenseAction::SetIDAndFile(String::from("MIT"), String::from("LICENSE")),
    ));
    assert_eq!(pkg.license.as_deref(), Some("MIT"));
    assert_eq!(pkg.license_file.as_deref(), Some("LICENSE"));
    assert!(!apply_license_action(&mut pkg, LicenseAction::Bad));
}
