use tinymist::package::{
    check_package, get_manifest, get_manifest_id, list_package_by_namespace, NamespaceDir,
    OnceLog, PackageDir, PackageInfo, PackageSpec, PackageVersion, VersionDir,
};

fn info(version: &str) -> PackageInfo {
    PackageInfo {
        path: "/data/preview/cetz/0.2.0".to_owned(),
        namespace: "preview".to_owned(),
        name: "cetz".to_owned(),
        version: version.to_owned(),
    }
}

const MANIFEST: &str = "[package]\nname = \"cetz\"\nversion = \"0.2.0\"\nentrypoint = \"src/lib.typ\"\n";

#[test]
fn package_info_from_spec_prints_version() {
    let spec = PackageSpec {
        namespace: "preview".to_owned(),
        name: "cetz".to_owned(),
        version: PackageVersion { major: 0, minor: 2, patch: 10 },
    };
    let got = PackageInfo::from("/p".to_owned(), spec);
    assert_eq!(got.version, "0.2.10");
    assert_eq!(got.namespace, "preview");
    assert_eq!(got.name, "cetz");
    assert_eq!(got.path, "/p");
}

#[test]
fn manifest_id_takes_parsed_version() {
    let id = get_manifest_id(&info("1.22.3")).unwrap();
    assert_eq!(id.package.version, PackageVersion { major: 1, minor: 22, patch: 3 });
    assert_eq!(id.package.namespace, "preview");
    assert_eq!(id.package.name, "cetz");
    assert_eq!(id.path, "typst.toml");
    assert_eq!(id.vpath, "/typst.toml");
}

#[test]
fn manifest_id_refuses_bad_version() {
    assert_eq!(
        get_manifest_id(&info("1.2")),
        Err("version number is missing patch version".to_owned())
    );
    assert_eq!(
        get_manifest_id(&info("1.x.3")),
        Err("`x` is not a valid minor version".to_owned())
    );
}

#[test]
fn manifest_is_read_from_bytes() {
    let m = get_manifest(Ok(MANIFEST.as_bytes().to_vec())).unwrap();
    assert_eq!(m.name, "cetz");
    assert_eq!(m.version, PackageVersion { major: 0, minor: 2, patch: 0 });
    assert_eq!(m.entrypoint, "src/lib.typ");
}

#[test]
fn manifest_errors_say_what_failed() {
    assert_eq!(
        get_manifest(Err("gone".to_owned())),
        Err("failed to read package manifest (gone)".to_owned())
    );
    let e = get_manifest(Ok(vec![0xff, 0xfe])).unwrap_err();
    assert!(e.starts_with("package manifest is not valid UTF-8 ("));
    let e = get_manifest(Ok(b"[package".to_vec())).unwrap_err();
    assert!(e.starts_with("package manifest is malformed ("));
}

#[test]
fn check_package_names_entrypoint() {
    let entry = check_package(&info("0.2.0"), Ok(MANIFEST.as_bytes().to_vec())).unwrap();
    assert_eq!(entry.path, "src/lib.typ");
    assert_eq!(entry.vpath, "/src/lib.typ");
    assert_eq!(entry.package.name, "cetz");
    assert!(check_package(&info("0.2"), Ok(MANIFEST.as_bytes().to_vec())).is_err());
    assert_eq!(
        check_package(&info("0.2.0"), Err("gone".to_owned())),
        Err("failed to read package manifest (gone)".to_owned())
    );
}

fn version(name: &str, is_dir: bool) -> Result<VersionDir, String> {
    Ok(VersionDir { name: name.to_owned(), path: format!("/data/local/pkg/{name}"), is_dir })
}

#[test]
fn listing_finds_version_directories() {
    let dirs = vec![
        NamespaceDir { is_dir: false, packages: Ok(vec![]) },
        NamespaceDir {
            is_dir: true,
            packages: Ok(vec![
                Ok(PackageDir {
                    name: "pkg".to_owned(),
                    is_dir: true,
                    versions: Ok(vec![
                        version("0.1.0", true),
                        version(".git", true),
                        version("0.2.0", false),
                        version("nightly", true),
                        Err("denied".to_owned()),
                        version("also-bad", true),
                        version("1.0.0", true),
                    ]),
                }),
                Ok(PackageDir { name: ".hidden".to_owned(), is_dir: true, versions: Ok(vec![version("0.1.0", true)]) }),
                Ok(PackageDir { name: "file".to_owned(), is_dir: false, versions: Ok(vec![]) }),
                Ok(PackageDir { name: "locked".to_owned(), is_dir: true, versions: Err("no access".to_owned()) }),
                Err("broken entry".to_owned()),
            ]),
        },
        NamespaceDir { is_dir: true, packages: Err("unreadable".to_owned()) },
    ];
    let mut log = OnceLog::new();
    let got = list_package_by_namespace(&mut log, &dirs, "local");
    assert_eq!(got.len(), 2);
    assert_eq!(got[0].0, "/data/local/pkg/0.1.0");
    assert_eq!(
        got[0].1,
        PackageSpec {
            namespace: "local".to_owned(),
            name: "pkg".to_owned(),
            version: PackageVersion { major: 0, minor: 1, patch: 0 },
        }
    );
    assert_eq!(got[1].1.version, PackageVersion { major: 1, minor: 0, patch: 0 });
    assert_eq!(
        log.reports,
        vec![
            "failed to perform parse package version: `nightly` is not a valid major version".to_owned(),
            "failed to perform read package version: denied".to_owned(),
            "failed to perform read package versions: no access".to_owned(),
            "failed to perform read package name: broken entry".to_owned(),
            "failed to perform read local pacakge: unreadable".to_owned(),
        ]
    );
}

#[test]
fn once_log_reports_each_site_once() {
    let mut log = OnceLog::new();
    assert_eq!(log.once_log(Ok::<u8, String>(7), "read"), Some(7));
    assert!(log.reports.is_empty());
    assert_eq!(log.once_log(Err::<u8, String>("a".to_owned()), "read"), None);
    assert_eq!(log.once_log(Err::<u8, String>("b".to_owned()), "read"), None);
    assert_eq!(log.once_log(Err::<u8, String>("c".to_owned()), "parse"), None);
    assert_eq!(
        log.reports,
        vec!["failed to perform read: a".to_owned(), "failed to perform parse: c".to_owned()]
    );
}
