//! Packages: their specifications, their manifests, and the packages found
//! in a data directory.

use vstd::prelude::*;
use vstd::utf8::{decode_utf8, valid_utf8};
use crate::text::{chars_of, push_chars, same_text};

verus! {

/// A result whose error is a message.
pub type StrResult<T> = Result<T, String>;

/// A package's version.
#[derive(Debug, Clone, Copy, PartialEq, Eq, Structural)]
pub struct PackageVersion {
    pub major: u32,
    pub minor: u32,
    pub patch: u32,
}

/// Identifies a package.
#[derive(Debug, Clone, PartialEq, Eq)]
pub struct PackageSpec {
    pub namespace: String,
    pub name: String,
    pub version: PackageVersion,
}

/// Identifies a package, but not a version of it.
#[derive(Debug, Clone, PartialEq, Eq)]
pub struct VersionlessPackageSpec {
    pub namespace: String,
    pub name: String,
}

/// A package as it is listed.
#[derive(Debug, Clone, PartialEq, Eq)]
pub struct PackageInfo {
    /// Where the package lies.
    pub path: String,
    /// The namespace of the package.
    pub namespace: String,
    /// The name under which the namespace knows the package.
    pub name: String,
    /// The package's version, as text.
    pub version: String,
}

/// A file of a package: the package and the path of the file within it.
#[derive(Debug, Clone, PartialEq, Eq)]
pub struct ManifestId {
    pub package: PackageSpec,
    /// The path of the file as it was asked for, from the root of the
    /// package.
    pub path: String,
    /// The same path as the virtual file system of the package writes it.
    pub vpath: String,
}

/// What the session reads of a package manifest.
#[derive(Debug, Clone, PartialEq, Eq)]
pub struct PackageManifest {
    pub name: String,
    pub version: PackageVersion,
    /// The path of the entrypoint into the package.
    pub entrypoint: String,
}

/// A package specification as plain values.
pub struct PackageSpecView {
    pub namespace: Seq<char>,
    pub name: Seq<char>,
    pub version: PackageVersion,
}

/// A manifest as plain values.
pub struct PackageManifestView {
    pub name: Seq<char>,
    pub version: PackageVersion,
    pub entrypoint: Seq<char>,
}

impl View for PackageSpec {
    type V = PackageSpecView;

    open spec fn view(&self) -> PackageSpecView {
        PackageSpecView { namespace: self.namespace@, name: self.name@, version: self.version }
    }
}

impl View for PackageManifest {
    type V = PackageManifestView;

    open spec fn view(&self) -> PackageManifestView {
        PackageManifestView {
            name: self.name@,
            version: self.version,
            entrypoint: self.entrypoint@,
        }
    }
}

/// The version that the text spells, as major, minor and patch number, or
/// the message that says why it spells none.
pub uninterp spec fn version_of(text: Seq<char>) -> Result<(u32, u32, u32), Seq<char>>;

/// The text of a version.
pub uninterp spec fn version_text(major: u32, minor: u32, patch: u32) -> Seq<char>;

/// The namespace, name and version that a package specification spells, or
/// the message that says why it spells none.
pub uninterp spec fn spec_of(text: Seq<char>) -> Result<
    (Seq<char>, Seq<char>, (u32, u32, u32)),
    Seq<char>,
>;

/// The namespace and name that a specification without version spells, or
/// the message that says why it spells none.
pub uninterp spec fn versionless_of(text: Seq<char>) -> Result<(Seq<char>, Seq<char>), Seq<char>>;

/// The name, version and entrypoint of the package that the manifest text
/// describes, or the message that says why it describes none.
pub uninterp spec fn manifest_of(text: Seq<char>) -> Result<
    (Seq<char>, (u32, u32, u32), Seq<char>),
    Seq<char>,
>;

/// The message that says where the bytes stop being UTF-8.
pub uninterp spec fn utf8_fault(bytes: Seq<u8>) -> Seq<char>;

/// A parsed version, or the message of its refusal, as plain values.
pub open spec fn version_view(r: StrResult<PackageVersion>) -> Result<(u32, u32, u32), Seq<char>> {
    match r {
        Ok(v) => Ok((v.major, v.minor, v.patch)),
        Err(e) => Err(e@),
    }
}

/// A parsed specification, or the message of its refusal, as plain values.
pub open spec fn spec_view(r: StrResult<PackageSpec>) -> Result<
    (Seq<char>, Seq<char>, (u32, u32, u32)),
    Seq<char>,
> {
    match r {
        Ok(s) => Ok(
            (s.namespace@, s.name@, (s.version.major, s.version.minor, s.version.patch)),
        ),
        Err(e) => Err(e@),
    }
}

/// A parsed specification without version, or the message of its refusal,
/// as plain values.
pub open spec fn versionless_view(r: StrResult<VersionlessPackageSpec>) -> Result<
    (Seq<char>, Seq<char>),
    Seq<char>,
> {
    match r {
        Ok(s) => Ok((s.namespace@, s.name@)),
        Err(e) => Err(e@),
    }
}

/// A parsed manifest, or the message of its refusal, as plain values.
pub open spec fn manifest_view(r: StrResult<PackageManifest>) -> Result<
    (Seq<char>, (u32, u32, u32), Seq<char>),
    Seq<char>,
> {
    match r {
        Ok(m) => Ok(
            (m.name@, (m.version.major, m.version.minor, m.version.patch), m.entrypoint@),
        ),
        Err(e) => Err(e@),
    }
}

/// `typst_syntax::package::PackageVersion::from_str`: the version that the
/// text spells is named `version_of` of the text.
#[verifier::external_body]
pub(crate) fn parse_version(text: &str) -> (r: StrResult<PackageVersion>)
    ensures
        version_of(text@) == version_view(r),
{
    match text.parse::<typst_syntax::package::PackageVersion>() {
        Ok(v) => Ok(PackageVersion { major: v.major, minor: v.minor, patch: v.patch }),
        Err(e) => Err(e.to_string()),
    }
}

/// The `Display` of `typst_syntax::package::PackageVersion`: the text of a
/// version is named `version_text` of its three numbers.
#[verifier::external_body]
pub(crate) fn version_string(v: PackageVersion) -> (r: String)
    ensures
        r@ == version_text(v.major, v.minor, v.patch),
{
    let (major, minor, patch) = (v.major, v.minor, v.patch);
    typst_syntax::package::PackageVersion { major, minor, patch }.to_string()
}

/// `typst_syntax::package::PackageSpec::from_str`: what the text spells is
/// named `spec_of` of the text.
#[verifier::external_body]
pub(crate) fn parse_spec(text: &str) -> (r: StrResult<PackageSpec>)
    ensures
        spec_of(text@) == spec_view(r),
{
    let s = text.parse::<typst_syntax::package::PackageSpec>().map_err(|e| e.to_string())?;
    let v = s.version;
    let version = PackageVersion { major: v.major, minor: v.minor, patch: v.patch };
    Ok(PackageSpec { namespace: s.namespace.to_string(), name: s.name.to_string(), version })
}

/// `typst_syntax::package::VersionlessPackageSpec::from_str`: what the text
/// spells is named `versionless_of` of the text.
#[verifier::external_body]
pub(crate) fn parse_versionless(text: &str) -> (r: StrResult<VersionlessPackageSpec>)
    ensures
        versionless_of(text@) == versionless_view(r),
{
    let parsed = text.parse::<typst_syntax::package::VersionlessPackageSpec>();
    let s = parsed.map_err(|e| e.to_string())?;
    Ok(VersionlessPackageSpec { namespace: s.namespace.to_string(), name: s.name.to_string() })
}

/// `toml::from_str` into `typst_syntax::package::PackageManifest`: what the
/// text describes is named `manifest_of` of the text; the error is the
/// message of the TOML error.
#[verifier::external_body]
pub(crate) fn parse_manifest(text: &str) -> (r: StrResult<PackageManifest>)
    ensures
        manifest_of(text@) == manifest_view(r),
{
    let parsed = toml::from_str::<typst_syntax::package::PackageManifest>(text);
    let m = parsed.map_err(|e| e.message().to_owned())?.package;
    let version =
        PackageVersion { major: m.version.major, minor: m.version.minor, patch: m.version.patch };
    Ok(PackageManifest { name: m.name.to_string(), version, entrypoint: m.entrypoint.to_string() })
}

/// `String::from_utf8`: the text that the bytes encode, where they are
/// UTF-8; else the text of the error, which is named `utf8_fault` of the
/// bytes.
#[verifier::external_body]
pub(crate) fn text_from_utf8(bytes: Vec<u8>) -> (r: StrResult<String>)
    ensures
        match r {
            Ok(s) => valid_utf8(bytes@) && s@ == decode_utf8(bytes@),
            Err(e) => !valid_utf8(bytes@) && e@ == utf8_fault(bytes@),
        },
{
    match String::from_utf8(bytes) {
        Ok(s) => Ok(s),
        Err(e) => Err(e.utf8_error().to_string()),
    }
}

/// `typst_syntax::VirtualPath::new`, as text: the path as the virtual file
/// system of a package writes it. How it is written depends on the
/// platform, so nothing is claimed of it.
#[verifier::external_body]
pub(crate) fn virtual_path(path: &str) -> (r: String)
{
    let v = typst_syntax::VirtualPath::new(path);
    v.as_rooted_path().to_string_lossy().into_owned()
}

/// `typst_syntax::VirtualPath::join`, as text: the path that `path` names
/// relative to the file `base`. How it is written depends on the platform,
/// so nothing is claimed of it.
#[verifier::external_body]
pub(crate) fn virtual_join(base: &str, path: &str) -> (r: String)
{
    let v = typst_syntax::VirtualPath::new(base).join(path);
    v.as_rooted_path().to_string_lossy().into_owned()
}

/// `prefix`, `detail` and `suffix` in a row.
pub fn wrap_message(prefix: &str, detail: &str, suffix: &str) -> (r: String)
    ensures
        r@ == prefix@ + detail@ + suffix@,
{
    let mut out = prefix.to_owned();
    let d = chars_of(detail);
    push_chars(&mut out, &d);
    let s = chars_of(suffix);
    push_chars(&mut out, &s);
    out
}

impl PackageInfo {
    /// The information about the package at `path` that `spec` identifies.
    pub fn from(path: String, spec: PackageSpec) -> (r: PackageInfo)
        ensures
            r.path == path,
            r.namespace == spec.namespace,
            r.name == spec.name,
            r.version@ == version_text(spec.version.major, spec.version.minor, spec.version.patch),
    {
        PackageInfo {
            path,
            namespace: spec.namespace,
            name: spec.name,
            version: version_string(spec.version),
        }
    }
}

/// The name of the manifest within a package.
pub open spec fn manifest_name() -> Seq<char> {
    "typst.toml"@
}

/// The manifest file of the package: of the package with the version that
/// `spec.version` spells, or the message that says why it spells none.
pub fn get_manifest_id(spec: &PackageInfo) -> (r: StrResult<ManifestId>)
    ensures
        match r {
            Ok(id) => version_of(spec.version@) == version_view(Ok(id.package.version))
                && id.package.namespace@ == spec.namespace@ && id.package.name@ == spec.name@
                && id.path@ == manifest_name(),
            Err(e) => version_of(spec.version@) == version_view(Err(e)),
        },
{
    match parse_version(spec.version.as_str()) {
        Ok(version) => Ok(
            ManifestId {
                package: PackageSpec {
                    namespace: spec.namespace.clone(),
                    name: spec.name.clone(),
                    version,
                },
                path: "typst.toml".to_owned(),
                vpath: virtual_path("typst.toml"),
            },
        ),
        Err(e) => Err(e),
    }
}

/// What reading a manifest gives: for a file that could not be read, for
/// bytes that are not UTF-8 and for text that is no manifest, the message
/// that says so; else the manifest.
pub open spec fn spec_get_manifest(file: StrResult<Vec<u8>>) -> Result<
    (Seq<char>, (u32, u32, u32), Seq<char>),
    Seq<char>,
> {
    match file {
        Err(e) => Err("failed to read package manifest ("@ + e@ + ")"@),
        Ok(bytes) => if !valid_utf8(bytes@) {
            Err("package manifest is not valid UTF-8 ("@ + utf8_fault(bytes@) + ")"@)
        } else {
            match manifest_of(decode_utf8(bytes@)) {
                Ok(m) => Ok(m),
                Err(e) => Err("package manifest is malformed ("@ + e + ")"@),
            }
        },
    }
}

/// Reads the manifest of a package from what reading its manifest file gave.
pub fn get_manifest(file: StrResult<Vec<u8>>) -> (r: StrResult<PackageManifest>)
    ensures
        spec_get_manifest(file) == manifest_view(r),
{
    let bytes = match file {
        Ok(bytes) => bytes,
        Err(e) => {
            return Err(wrap_message("failed to read package manifest (", e.as_str(), ")"));
        },
    };
    let text = match text_from_utf8(bytes) {
        Ok(text) => text,
        Err(e) => {
            return Err(wrap_message("package manifest is not valid UTF-8 (", e.as_str(), ")"));
        },
    };
    match parse_manifest(text.as_str()) {
        Ok(m) => Ok(m),
        Err(e) => Err(wrap_message("package manifest is malformed (", e.as_str(), ")")),
    }
}

/// Checks a package: finds its manifest and names the entrypoint to preload.
/// `file` is what reading the manifest file of the package gave. The result
/// is the entrypoint within the package, which the manifest names from the
/// root of the package where the manifest lies, or the message of the first
/// step that failed: the version of the package, then the manifest.
pub fn check_package(spec: &PackageInfo, file: StrResult<Vec<u8>>) -> (r: StrResult<ManifestId>)
    ensures
        match r {
            Ok(entry) => {
                &&& version_of(spec.version@) == version_view(Ok(entry.package.version))
                &&& entry.package.namespace@ == spec.namespace@
                &&& entry.package.name@ == spec.name@
                &&& spec_get_manifest(file) is Ok
                &&& entry.path@ == (spec_get_manifest(file)->Ok_0).2
            },
            Err(e) => match version_of(spec.version@) {
                Err(v) => e@ == v,
                Ok(_) => spec_get_manifest(file) == manifest_view(Err(e)),
            },
        },
{
    let toml_id = match get_manifest_id(spec) {
        Ok(id) => id,
        Err(e) => { return Err(e); },
    };
    let manifest = match get_manifest(file) {
        Ok(m) => m,
        Err(e) => { return Err(e); },
    };
    let vpath = virtual_join(toml_id.vpath.as_str(), manifest.entrypoint.as_str());
    Ok(ManifestId { package: toml_id.package, path: manifest.entrypoint, vpath })
}

/// The failures that were reported, each place of failure once.
#[derive(Debug, Clone, PartialEq, Eq)]
pub struct OnceLog {
    /// The places at which a failure was reported.
    pub sites: Vec<String>,
    /// The reports, oldest first.
    pub reports: Vec<String>,
}

/// A log as plain values.
pub struct OnceLogView {
    pub sites: Seq<Seq<char>>,
    pub reports: Seq<Seq<char>>,
}

/// The report of a failure.
pub open spec fn report_text(site: Seq<char>, error: Seq<char>) -> Seq<char> {
    "failed to perform "@ + site + ": "@ + error
}

/// The log after a failure at `site`: with one more report where the place
/// is new, unchanged where it is not.
pub open spec fn spec_once(log: OnceLogView, site: Seq<char>, error: Seq<char>) -> OnceLogView {
    if log.sites.contains(site) {
        log
    } else {
        OnceLogView {
            sites: log.sites.push(site),
            reports: log.reports.push(report_text(site, error)),
        }
    }
}

impl View for OnceLog {
    type V = OnceLogView;

    open spec fn view(&self) -> OnceLogView {
        OnceLogView {
            sites: Seq::new(self.sites@.len(), |i: int| self.sites@[i]@),
            reports: Seq::new(self.reports@.len(), |i: int| self.reports@[i]@),
        }
    }
}

impl OnceLog {
    /// The log without reports.
    pub fn new() -> (r: OnceLog)
        ensures
            r@.sites.len() == 0,
            r@.reports.len() == 0,
    {
        OnceLog { sites: Vec::new(), reports: Vec::new() }
    }

    /// Notes a failure at `site` and reports it if it is the first there.
    pub fn fail(&mut self, site: &str, error: &str)
        ensures
            final(self)@ == spec_once(old(self)@, site@, error@),
    {
        let mut i: usize = 0;
        while i < self.sites.len()
            invariant
                i <= self.sites.len(),
                *self == *old(self),
                forall|k: int| 0 <= k < i ==> self@.sites[k] != site@,
            decreases self.sites.len() - i,
        {
            if same_text(self.sites[i].as_str(), site) {
                assert(self@.sites[i as int] == site@);
                return ;
            }
            i += 1;
        }
        assert(!self@.sites.contains(site@));
        let mut report = wrap_message("failed to perform ", site, ": ");
        let e = chars_of(error);
        push_chars(&mut report, &e);
        self.sites.push(site.to_owned());
        self.reports.push(report);
        assert(self@.sites =~= old(self)@.sites.push(site@));
        assert(self@.reports =~= old(self)@.reports.push(report_text(site@, error@)));
    }

    /// The value of a result; a failure is reported, once for each place,
    /// and gives nothing.
    pub fn once_log<T>(&mut self, result: StrResult<T>, site: &str) -> (r: Option<T>)
        ensures
            r == match result {
                Ok(value) => Some(value),
                Err(_) => None,
            },
            final(self)@ == match result {
                Ok(_) => old(self)@,
                Err(e) => spec_once(old(self)@, site@, e@),
            },
    {
        match result {
            Ok(value) => Some(value),
            Err(e) => {
                self.fail(site, e.as_str());
                None
            },
        }
    }
}

/// A reported place is reported only once: a second failure at the same
/// place changes nothing.
pub proof fn lemma_reported_once(log: OnceLogView, site: Seq<char>, first: Seq<char>, second: Seq<char>)
    ensures
        spec_once(spec_once(log, site, first), site, second) == spec_once(log, site, first),
{
    let once = spec_once(log, site, first);
    if !log.sites.contains(site) {
        assert(once.sites[log.sites.len() as int] == site);
    }
}

/// A directory that holds one version of a package.
#[derive(Debug, Clone, PartialEq, Eq)]
pub struct VersionDir {
    pub name: String,
    pub path: String,
    pub is_dir: bool,
}

/// A directory that holds the versions of one package, with what listing it
/// gave.
#[derive(Debug, PartialEq, Eq)]
pub struct PackageDir {
    pub name: String,
    pub is_dir: bool,
    pub versions: StrResult<Vec<StrResult<VersionDir>>>,
}

/// The directory of a namespace under one data directory, with what listing
/// it gave.
#[derive(Debug, PartialEq, Eq)]
pub struct NamespaceDir {
    /// Whether the directory exists and is one.
    pub is_dir: bool,
    pub packages: StrResult<Vec<StrResult<PackageDir>>>,
}

/// What a search comes upon: a package, or a failure at some place.
#[derive(Debug, Clone, PartialEq, Eq)]
pub enum Found {
    Package { path: String, spec: PackageSpec },
    Failure { site: String, error: String },
}

/// What a search comes upon, as plain values.
pub enum FoundView {
    Package { path: Seq<char>, spec: PackageSpecView },
    Failure { site: Seq<char>, error: Seq<char> },
}

impl View for Found {
    type V = FoundView;

    open spec fn view(&self) -> FoundView {
        match self {
            Found::Package { path, spec } => FoundView::Package { path: path@, spec: spec@ },
            Found::Failure { site, error } => FoundView::Failure { site: site@, error: error@ },
        }
    }
}

/// The views of what was found.
pub open spec fn found_views(found: Seq<Found>) -> Seq<FoundView> {
    Seq::new(found.len(), |i: int| found[i]@)
}

/// Whether the name starts with a dot.
pub open spec fn hidden(name: Seq<char>) -> bool {
    name.len() > 0 && name[0] == '.'
}

/// What the search comes upon at one version directory: nothing at what is
/// no directory or is hidden; else the package, or the failure to read its
/// version from the name.
pub open spec fn scan_version(
    ns: Seq<char>,
    package: Seq<char>,
    entry: StrResult<VersionDir>,
) -> Seq<FoundView> {
    match entry {
        Err(e) => seq![FoundView::Failure { site: "read package version"@, error: e@ }],
        Ok(d) => if !d.is_dir || hidden(d.name@) {
            Seq::empty()
        } else {
            match version_of(d.name@) {
                Ok((major, minor, patch)) => seq![
                    FoundView::Package {
                        path: d.path@,
                        spec: PackageSpecView {
                            namespace: ns,
                            name: package,
                            version: PackageVersion { major, minor, patch },
                        },
                    },
                ],
                Err(e) => seq![FoundView::Failure { site: "parse package version"@, error: e }],
            }
        },
    }
}

/// What the search comes upon at the version directories, in order.
pub open spec fn scan_versions(
    ns: Seq<char>,
    package: Seq<char>,
    entries: Seq<StrResult<VersionDir>>,
) -> Seq<FoundView>
    decreases entries.len(),
{
    if entries.len() == 0 {
        Seq::empty()
    } else {
        scan_versions(ns, package, entries.drop_last()) + scan_version(ns, package, entries.last())
    }
}

/// What the search comes upon at one package directory.
pub open spec fn scan_package(ns: Seq<char>, entry: StrResult<PackageDir>) -> Seq<FoundView> {
    match entry {
        Err(e) => seq![FoundView::Failure { site: "read package name"@, error: e@ }],
        Ok(d) => if !d.is_dir || hidden(d.name@) {
            Seq::empty()
        } else {
            match d.versions {
                Err(e) => seq![FoundView::Failure { site: "read package versions"@, error: e@ }],
                Ok(versions) => scan_versions(ns, d.name@, versions@),
            }
        },
    }
}

/// What the search comes upon at the package directories, in order.
pub open spec fn scan_packages(ns: Seq<char>, entries: Seq<StrResult<PackageDir>>) -> Seq<
    FoundView,
>
    decreases entries.len(),
{
    if entries.len() == 0 {
        Seq::empty()
    } else {
        scan_packages(ns, entries.drop_last()) + scan_package(ns, entries.last())
    }
}

/// What the search comes upon under one data directory.
pub open spec fn scan_dir(ns: Seq<char>, dir: NamespaceDir) -> Seq<FoundView> {
    if !dir.is_dir {
        Seq::empty()
    } else {
        match dir.packages {
            Err(e) => seq![FoundView::Failure { site: "read local pacakge"@, error: e@ }],
            Ok(packages) => scan_packages(ns, packages@),
        }
    }
}

/// What the search comes upon under the data directories, in order.
pub open spec fn scan_dirs(ns: Seq<char>, dirs: Seq<NamespaceDir>) -> Seq<FoundView>
    decreases dirs.len(),
{
    if dirs.len() == 0 {
        Seq::empty()
    } else {
        scan_dirs(ns, dirs.drop_last()) + scan_dir(ns, dirs.last())
    }
}

/// The packages among what was found, in order.
pub open spec fn packages_of(found: Seq<FoundView>) -> Seq<(Seq<char>, PackageSpecView)>
    decreases found.len(),
{
    if found.len() == 0 {
        Seq::empty()
    } else {
        match found.last() {
            FoundView::Package { path, spec } => packages_of(found.drop_last()).push((path, spec)),
            FoundView::Failure { .. } => packages_of(found.drop_last()),
        }
    }
}

/// The log after the failures among what was found, in order.
pub open spec fn reported(log: OnceLogView, found: Seq<FoundView>) -> OnceLogView
    decreases found.len(),
{
    if found.len() == 0 {
        log
    } else {
        match found.last() {
            FoundView::Package { .. } => reported(log, found.drop_last()),
            FoundView::Failure { site, error } => spec_once(
                reported(log, found.drop_last()),
                site,
                error,
            ),
        }
    }
}

/// The views of listed packages.
pub open spec fn listed_views(list: Seq<(String, PackageSpec)>) -> Seq<(Seq<char>, PackageSpecView)> {
    Seq::new(list.len(), |i: int| (list[i].0@, list[i].1@))
}

/// Puts one more find at the end.
fn note(out: &mut Vec<Found>, item: Found)
    ensures
        found_views(final(out)@) == found_views(old(out)@).push(item@),
{
    out.push(item);
    assert(found_views(out@) =~= found_views(old(out)@).push(item@));
}

/// Puts a failure at the end.
fn note_failure(out: &mut Vec<Found>, site: &str, error: &String)
    ensures
        found_views(final(out)@) == found_views(old(out)@).push(
            FoundView::Failure { site: site@, error: error@ },
        ),
{
    note(out, Found::Failure { site: site.to_owned(), error: error.clone() });
}

/// Whether the name starts with a dot.
fn is_hidden(name: &String) -> (r: bool)
    ensures
        r == hidden(name@),
{
    let chars = chars_of(name.as_str());
    chars.len() > 0 && chars[0] == '.'
}

/// Searches the version directories of a package.
fn search_versions(
    out: &mut Vec<Found>,
    ns: &str,
    package: &String,
    entries: &Vec<StrResult<VersionDir>>,
)
    ensures
        found_views(final(out)@) == found_views(old(out)@) + scan_versions(
            ns@,
            package@,
            entries@,
        ),
{
    let mut i: usize = 0;
    assert(entries@.take(0) =~= Seq::<StrResult<VersionDir>>::empty());
    assert(found_views(out@) =~= found_views(old(out)@) + scan_versions(
        ns@,
        package@,
        entries@.take(0),
    ));
    while i < entries.len()
        invariant
            i <= entries.len(),
            found_views(out@) == found_views(old(out)@) + scan_versions(
                ns@,
                package@,
                entries@.take(i as int),
            ),
        decreases entries.len() - i,
    {
        let ghost before = found_views(out@);
        let ghost done = scan_versions(ns@, package@, entries@.take(i as int));
        proof {
            assert(entries@.take(i + 1).drop_last() =~= entries@.take(i as int));
            assert(entries@.take(i + 1).last() == entries@[i as int]);
        }
        match &entries[i] {
            Err(e) => {
                note_failure(out, "read package version", e);
            },
            Ok(d) => {
                if d.is_dir && !is_hidden(&d.name) {
                    match parse_version(d.name.as_str()) {
                        Ok(version) => {
                            let spec = PackageSpec {
                                namespace: ns.to_owned(),
                                name: package.clone(),
                                version,
                            };
                            note(out, Found::Package { path: d.path.clone(), spec });
                        },
                        Err(e) => {
                            note_failure(out, "parse package version", &e);
                        },
                    }
                }
            },
        }
        proof {
            let one = scan_version(ns@, package@, entries@[i as int]);
            assert(found_views(out@) =~= before + one);
            assert(before + one =~= found_views(old(out)@) + (done + one));
        }
        i += 1;
    }
    assert(entries@.take(entries.len() as int) =~= entries@);
}

/// Searches the package directories of a namespace.
fn search_packages(out: &mut Vec<Found>, ns: &str, entries: &Vec<StrResult<PackageDir>>)
    ensures
        found_views(final(out)@) == found_views(old(out)@) + scan_packages(ns@, entries@),
{
    let mut i: usize = 0;
    assert(entries@.take(0) =~= Seq::<StrResult<PackageDir>>::empty());
    assert(found_views(out@) =~= found_views(old(out)@) + scan_packages(ns@, entries@.take(0)));
    while i < entries.len()
        invariant
            i <= entries.len(),
            found_views(out@) == found_views(old(out)@) + scan_packages(
                ns@,
                entries@.take(i as int),
            ),
        decreases entries.len() - i,
    {
        let ghost before = found_views(out@);
        let ghost done = scan_packages(ns@, entries@.take(i as int));
        proof {
            assert(entries@.take(i + 1).drop_last() =~= entries@.take(i as int));
            assert(entries@.take(i + 1).last() == entries@[i as int]);
        }
        match &entries[i] {
            Err(e) => {
                note_failure(out, "read package name", e);
            },
            Ok(d) => {
                if d.is_dir && !is_hidden(&d.name) {
                    match &d.versions {
                        Err(e) => {
                            note_failure(out, "read package versions", e);
                        },
                        Ok(versions) => {
                            search_versions(out, ns, &d.name, versions);
                        },
                    }
                } else {
                    assert(found_views(out@) =~= before + Seq::<FoundView>::empty());
                }
            },
        }
        proof {
            let one = scan_package(ns@, entries@[i as int]);
            assert(found_views(out@) =~= before + one);
            assert(before + one =~= found_views(old(out)@) + (done + one));
        }
        i += 1;
    }
    assert(entries@.take(entries.len() as int) =~= entries@);
}

/// Searches the data directories for the packages of a namespace and gives
/// what it comes upon, packages and failures, in the order of the search.
pub fn search_namespace(dirs: &Vec<NamespaceDir>, ns: &str) -> (out: Vec<Found>)
    ensures
        found_views(out@) == scan_dirs(ns@, dirs@),
{
    let mut out: Vec<Found> = Vec::new();
    let mut i: usize = 0;
    assert(dirs@.take(0) =~= Seq::<NamespaceDir>::empty());
    assert(found_views(out@) =~= scan_dirs(ns@, dirs@.take(0)));
    while i < dirs.len()
        invariant
            i <= dirs.len(),
            found_views(out@) == scan_dirs(ns@, dirs@.take(i as int)),
        decreases dirs.len() - i,
    {
        let ghost before = found_views(out@);
        proof {
            assert(dirs@.take(i + 1).drop_last() =~= dirs@.take(i as int));
            assert(dirs@.take(i + 1).last() == dirs@[i as int]);
        }
        let dir = &dirs[i];
        if dir.is_dir {
            match &dir.packages {
                Err(e) => {
                    note_failure(&mut out, "read local pacakge", e);
                },
                Ok(packages) => {
                    search_packages(&mut out, ns, packages);
                },
            }
        } else {
            assert(found_views(out@) =~= before + Seq::<FoundView>::empty());
        }
        assert(found_views(out@) =~= before + scan_dir(ns@, dirs@[i as int]));
        i += 1;
    }
    assert(dirs@.take(dirs.len() as int) =~= dirs@);
    out
}

/// Lists the packages of a namespace that lie in the data directories, as
/// `namespace/package/version` directories. What is no directory or is hidden
/// is passed over. A directory that could not be read and a version that
/// could not be parsed are passed over too and reported in the log, each
/// place of failure once.
pub fn list_package_by_namespace(log: &mut OnceLog, dirs: &Vec<NamespaceDir>, ns: &str) -> (r: Vec<
    (String, PackageSpec),
>)
    ensures
        listed_views(r@) == packages_of(scan_dirs(ns@, dirs@)),
        final(log)@ == reported(old(log)@, scan_dirs(ns@, dirs@)),
{
    let found = search_namespace(dirs, ns);
    let mut packages: Vec<(String, PackageSpec)> = Vec::new();
    let mut i: usize = 0;
    assert(found_views(found@).take(0) =~= Seq::<FoundView>::empty());
    assert(listed_views(packages@) =~= packages_of(found_views(found@).take(0)));
    while i < found.len()
        invariant
            i <= found.len(),
            listed_views(packages@) == packages_of(found_views(found@).take(i as int)),
            log@ == reported(old(log)@, found_views(found@).take(i as int)),
        decreases found.len() - i,
    {
        let ghost before = listed_views(packages@);
        proof {
            let views = found_views(found@);
            assert(views.take(i + 1).drop_last() =~= views.take(i as int));
            assert(views.take(i + 1).last() == found@[i as int]@);
        }
        match &found[i] {
            Found::Package { path, spec } => {
                let copy = PackageSpec {
                    namespace: spec.namespace.clone(),
                    name: spec.name.clone(),
                    version: spec.version,
                };
                packages.push((path.clone(), copy));
                assert(listed_views(packages@) =~= before.push((path@, spec@)));
            },
            Found::Failure { site, error } => {
                log.fail(site.as_str(), error.as_str());
            },
        }
        i += 1;
    }
    assert(found_views(found@).take(found.len() as int) =~= found_views(found@));
    packages
}

} // verus!
