//! Gates: their documents and transforms, the distribution choice,
//! the naming helpers, the settings, and the metadata builder.

use ports::bundle::PackageBuilder;
use ports::config::Settings;
use ports::gate::{Distribution, DistributionType, Gate, GateError, Transform};
use ports::ips::transforms_text;
use ports::paths::{add_extension, derive_source_name};
use ports::pipeline::{select_distribution, should_stop_after, BuildSteps, CrossTriple};
use ports::repology::MetadataBuilder;
use ports::schema::decode_gate;
use ports::tarball::{derive_output_name, tarball_args};

#[test]
fn derived_source_names_fold_separators() {
    let unnamed = ports::bundle::SourceSection { name: None, sources: vec![] };
    assert_eq!(derive_source_name(String::from("a/b"), &unnamed), "a_b");
    let named = ports::bundle::SourceSection {
        name: Some(String::from("x/y")),
        sources: vec![],
    };
    assert_eq!(derive_source_name(String::from("a/b"), &named), "x_y");
}

#[test]
fn extensions_append_after_the_existing_one() {
    assert_eq!(add_extension("widget-1.2", "tar.gz"), "widget-1.2.tar.gz");
    assert_eq!(add_extension("widget", "tar.gz"), "widget.tar.gz");
}

#[test]
fn the_tarball_name_carries_the_version() {
    assert_eq!(derive_output_name("a/b", &Some(String::from("2.3"))), "a_b-2.3.tar.gz");
    assert_eq!(derive_output_name("a/b", &None), "a_b.tar.gz");
    let args = tarball_args("/out/a_b-2.3.tar.gz", &vec![String::from("usr"), String::from("etc")]);
    let got: Vec<&str> = args.iter().map(|s| s.as_str()).collect();
    assert_eq!(got, ["-czf", "/out/a_b-2.3.tar.gz", "usr", "etc"]);
}

#[test]
fn distribution_types_parse_and_print() {
    assert_eq!(DistributionType::from_str("tarball").unwrap(), DistributionType::Tarbball);
    assert_eq!(DistributionType::from_str("tar").unwrap(), DistributionType::Tarbball);
    assert_eq!(DistributionType::from_str("ips").unwrap(), DistributionType::IPS);
    assert_eq!(DistributionType::from_str("IPS").unwrap(), DistributionType::IPS);
    assert!(matches!(
        DistributionType::from_str("zip"),
        Err(GateError::UnknownDistributionType(_))
    ));
    assert_eq!(DistributionType::Tarbball.to_string(), "tarball");
    assert_eq!(DistributionType::IPS.to_string(), "ips");
}

#[test]
fn the_pack_stage_follows_the_gate_distribution() {
    assert_eq!(select_distribution(&None), DistributionType::IPS);
    let mut gate = Gate::default();
    assert_eq!(select_distribution(&Some(gate.clone())), DistributionType::IPS);
    gate.distribution = Some(Distribution { distribution_type: DistributionType::Tarbball });
    assert_eq!(select_distribution(&Some(gate)), DistributionType::Tarbball);
}

#[test]
fn runs_stop_exactly_after_the_named_stage() {
    assert!(should_stop_after(&Some(BuildSteps::Download), BuildSteps::Download));
    assert!(!should_stop_after(&Some(BuildSteps::Pack), BuildSteps::Download));
    assert!(!should_stop_after(&None, BuildSteps::Publish));
}

#[test]
fn transforms_render_their_lines() {
    let t = Transform {
        actions: vec![
            String::from("<transform file path=usr/bin/.* -> set mode 0555>"),
            String::from("<transform dir -> drop>"),
        ],
        include_prop: Some(String::from("extra.mog")),
    };
    assert_eq!(
        t.to_string(),
        "<transform file path=usr/bin/.* -> set mode 0555>\n<transform dir -> drop>\n<include extra.mog>",
    );
    let bare = Transform { actions: vec![String::from("a")], include_prop: None };
    assert_eq!(transforms_text(&vec![bare, t]), "a\n<transform file path=usr/bin/.* -> set mode 0555>\n<transform dir -> drop>\n<include extra.mog>\n");
}

#[test]
fn gate_documents_read_back() {
    let pkg = PackageBuilder::default()
        .name("web/server/nginx")
        .project_name("nginx")
        .summary("stub summary")
        .build()
        .unwrap();
    let gate = Gate {
        path: String::new(),
        name: String::from("userland-gate"),
        version: String::from("0.6.0"),
        branch: String::from("2024.0.0"),
        distribution: Some(Distribution { distribution_type: DistributionType::Tarbball }),
        packages: vec![pkg],
        default_transforms: vec![Transform {
            actions: vec![String::from("<transform dir -> drop>")],
            include_prop: None,
        }],
        publisher: String::from("acme"),
    };
    let doc = gate.to_document();
    let read = decode_gate(&doc, "/gates/gate.kdl").unwrap();
    assert_eq!(read.name, "userland-gate");
    assert_eq!(read.version, "0.6.0");
    assert_eq!(read.branch, "2024.0.0");
    assert_eq!(read.publisher, "acme");
    assert_eq!(read.path, "/gates/gate.kdl");
    assert_eq!(read.distribution, gate.distribution);
    assert_eq!(read.default_transforms, gate.default_transforms);
    assert_eq!(read.packages, gate.packages);
}

#[test]
fn gates_hand_out_their_stub_by_name() {
    let a = PackageBuilder::default().name("a").project_name("a").build().unwrap();
    let b = PackageBuilder::default().name("b").project_name("b").build().unwrap();
    let gate = Gate { packages: vec![a, b.clone()], ..Gate::default() };
    assert_eq!(gate.get_package("b"), Some(b));
    assert_eq!(gate.get_package("c"), None);
}

#[test]
fn the_default_gate_carries_the_stock_values() {
    let g = Gate::default();
    assert_eq!(g.version, "0.5.11");
    assert_eq!(g.branch, "2023.0.0");
    assert_eq!(g.publisher, "userland");
    assert!(g.distribution.is_none());
}

#[test]
fn settings_fall_back_to_their_stock_values() {
    let mut s = Settings::new();
    assert_eq!(s.get_output_dir(), "output");
    assert_eq!(
        s.get_search_path(),
        vec!["/opt/solarm/bin", "/usr/gnu/bin", "/usr/bin", "/usr/sbin", "/sbin"],
    );
    s.add_path_to_search(String::from("/usr/local/bin"));
    assert_eq!(s.get_search_path(), vec!["/usr/local/bin"]);
    s.add_path_to_search(String::from("/tmp/bin"));
    s.remove_path_from_search(String::from("/usr/local/bin"));
    assert_eq!(s.get_search_path(), vec!["/tmp/bin"]);
    let wks = s.get_current_wks("/data");
    assert_eq!(wks.path, "/data/wks");
    let named = s.change_current_workspace("/data", "ci");
    assert_eq!(named.path, "/data/ci");
    assert_eq!(s.get_current_wks("/data").path, "/data/ci");
    assert_eq!(ports::config::list_workspaces(vec![]), vec!["wks"]);
    assert_eq!(
        ports::config::list_workspaces(vec![String::from("a")]),
        vec![String::from("a")],
    );
}

#[test]
fn cross_triples_print_their_family() {
    assert_eq!(CrossTriple::Arm.to_string(), "arm");
    assert_eq!(CrossTriple::Riscv.to_string(), "riscv");
    assert_eq!(CrossTriple::Sparc.to_string(), "sparc");
}

#[test]
fn lib_it_works() {
    let actual = MetadataBuilder::default()
        .summary("ansible - Radically simple IT automation")
        .source_name("python/ansible")
        .fmri("library/python/ansible@7.4.0,5.11-2023.0.0.1:20230421T131743Z")
        .project_name("ansible")
        .homepages(vec![String::from("https://ansible.com/")])
        .licenses(vec![String::from("GPL-3.0-only")])
        .version(semver::Version::parse("7.4.0").unwrap().to_string().as_str())
        .source_links(vec![String::from("https://files.pythonhosted.org/packages/45/4b/2087a0fe8265828df067e57d7d156426cdc8f7cd94ad3178c6510d81e2c0/ansible-7.4.0.tar.gz")])
        .categories(vec![String::from("Development/Python")])
        .build()
        .unwrap();
    assert_eq!("7.4.0", actual.version.as_str());
    assert_eq!("ansible - Radically simple IT automation", actual.summary.as_str());
    assert_eq!("python/ansible", actual.source_name.as_str());
}

#[test]
fn the_metadata_builder_appends_one_by_one() {
    let mut b = MetadataBuilder::default();
    b.add_maintainer("alex");
    b.add_maintainer("sam");
    b.add_homepage("https://a.dev");
    b.add_license("MIT");
    b.add_category("System");
    assert_eq!(b.maintainers.as_deref(), Some(&[String::from("alex"), String::from("sam")][..]));
    assert_eq!(b.homepages.as_deref(), Some(&[String::from("https://a.dev")][..]));
    let r = b.build();
    assert!(matches!(r, Err(ports::repology::Error::UninitializedField(_))));
}
