//! The safe-path resolver: a path is usable only in canonical form, outside
//! the system directories and under one of the configured safe roots.
//!
//! Canonical forms come from the host. The resolver decides on what the host
//! reported ([`HostPaths`]) and touches no file system itself.

use vstd::prelude::*;
use serde_json::Value;
use crate::params::{field, json_of, member, text_field, text_of, Json};
use crate::text::{
    contains,
    lossy_text,
    lossy_text_of,
    lowercase_of,
    occurs_in,
    str_eq,
    to_lowercase,
    views,
};
use crate::types::{invalid, outcome, ToolError, ToolErrorView};

verus! {

/// The byte sequences of a list of byte vectors, in order.
pub open spec fn byte_views(items: Seq<Vec<u8>>) -> Seq<Seq<u8>> {
    Seq::new(items.len(), |i: int| items[i]@)
}

/// A path in canonical form: absolute, with every link resolved and no `.` or
/// `..` left. It is held as its components, each with the bytes of its name
/// as the host has them, so that two names are equal only where the host
/// holds them equal.
#[derive(Debug)]
pub struct CanonicalPath {
    /// The components of the path, the root first.
    pub components: Vec<Vec<u8>>,
}

impl View for CanonicalPath {
    type V = Seq<Seq<u8>>;

    /// The components of the path, the root first.
    open spec fn view(&self) -> Seq<Seq<u8>> {
        byte_views(self.components@)
    }
}

/// A copy of a byte vector.
fn copy_bytes(bytes: &Vec<u8>) -> (copy: Vec<u8>)
    ensures
        copy@ == bytes@,
{
    let mut copy: Vec<u8> = Vec::new();
    append(&mut copy, bytes);
    copy
}

/// Appends the bytes of `part` to `out`.
fn append(out: &mut Vec<u8>, part: &Vec<u8>)
    ensures
        final(out)@ == old(out)@ + part@,
{
    let ghost before = out@;
    let mut i: usize = 0;
    while i < part.len()
        invariant
            i <= part.len(),
            out@ == before + part@.take(i as int),
        decreases part.len() - i,
    {
        out.push(part[i]);
        assert(part@.take(i + 1) =~= part@.take(i as int).push(part@[i as int]));
        i += 1;
    }
    assert(part@.take(part.len() as int) =~= part@);
}

impl Clone for CanonicalPath {
    fn clone(&self) -> (copy: CanonicalPath)
        ensures
            copy@ == self@,
    {
        let mut components: Vec<Vec<u8>> = Vec::new();
        let mut i: usize = 0;
        while i < self.components.len()
            invariant
                i <= self.components.len(),
                components@.len() == i,
                forall|j: int| 0 <= j < i ==> components@[j]@ == self.components@[j]@,
            decreases self.components.len() - i,
        {
            components.push(copy_bytes(&self.components[i]));
            i += 1;
        }
        proof {
            assert(byte_views(components@) =~= byte_views(self.components@));
        }
        CanonicalPath { components }
    }
}

/// Whether a separator stands between what is written so far and the next
/// component: not at the start, not after a separator, and not before a
/// component that is the separator itself, as the root is.
pub open spec fn needs_separator(written: Seq<u8>, part: Seq<u8>, separator: u8) -> bool {
    written.len() > 0 && written.last() != separator && part != seq![separator]
}

/// The bytes of a path written out: its components in order, with the
/// separator of the host between them where one is needed.
pub open spec fn written(components: Seq<Seq<u8>>, separator: u8) -> Seq<u8>
    decreases components.len(),
{
    if components.len() == 0 {
        Seq::empty()
    } else {
        let before = written(components.drop_last(), separator);
        if needs_separator(before, components.last(), separator) {
            before + seq![separator] + components.last()
        } else {
            before + components.last()
        }
    }
}

/// The text of a path: its written bytes read as text.
pub open spec fn text_of_path(components: Seq<Seq<u8>>, separator: u8) -> Seq<char> {
    lossy_text_of(written(components, separator))
}

impl CanonicalPath {
    /// The bytes of the path written out with `separator`.
    pub fn write(&self, separator: u8) -> (bytes: Vec<u8>)
        ensures
            bytes@ == written(self@, separator),
    {
        let mut bytes: Vec<u8> = Vec::new();
        let mut i: usize = 0;
        while i < self.components.len()
            invariant
                i <= self.components.len(),
                bytes@ == written(self@.take(i as int), separator),
            decreases self.components.len() - i,
        {
            let part = &self.components[i];
            let ghost upto = self@.take(i + 1);
            assert(upto.drop_last() =~= self@.take(i as int));
            assert(upto.last() == part@);
            let root = part.len() == 1 && part[0] == separator;
            assert(root == (part@ == seq![separator])) by {
                if root {
                    assert(part@ =~= seq![separator]);
                }
            }
            if bytes.len() > 0 && bytes[bytes.len() - 1] != separator && !root {
                bytes.push(separator);
            }
            append(&mut bytes, part);
            i += 1;
        }
        assert(self@.take(self.components.len() as int) =~= self@);
        bytes
    }

    /// The path as text, written with `separator`.
    pub fn text(&self, separator: u8) -> (text: String)
        ensures
            text@ == text_of_path(self@, separator),
    {
        let bytes = self.write(separator);
        lossy_text(bytes.as_slice())
    }
}

/// What the host reported of one path.
#[derive(Debug)]
pub struct PathReport {
    /// The path as it was asked about.
    pub path: String,
    /// Whether the host takes the path as absolute.
    pub absolute: bool,
    /// The canonical form of the path, or `None` where the host could not resolve it.
    pub canonical: Option<CanonicalPath>,
}

/// What a [`PathReport`] holds.
pub struct PathReportView {
    pub path: Seq<char>,
    pub absolute: bool,
    pub canonical: Option<Seq<Seq<u8>>>,
}

impl View for PathReport {
    type V = PathReportView;

    open spec fn view(&self) -> PathReportView {
        PathReportView {
            path: self.path@,
            absolute: self.absolute,
            canonical: match self.canonical {
                Some(canonical) => Some(canonical@),
                None => None,
            },
        }
    }
}

/// What the host reported of the paths that a check may ask about: of the
/// paths that calls name, each resolved against the working directory, and of
/// the safe directories, each resolved as it is configured. The first report
/// of a path counts; a path without a report is one that does not resolve.
#[derive(Debug)]
pub struct HostPaths {
    /// The byte that separates the components of a path on the host.
    pub separator: u8,
    /// Whether the host could name its working directory.
    pub working_dir_known: bool,
    /// The reports on the paths that calls name.
    pub reports: Vec<PathReport>,
    /// The reports on the safe directories; of these only the canonical form is read.
    pub roots: Vec<PathReport>,
}

/// What a [`HostPaths`] holds.
pub struct HostPathsView {
    pub separator: u8,
    pub working_dir_known: bool,
    pub reports: Seq<PathReportView>,
    pub roots: Seq<PathReportView>,
}

/// The views of a list of reports, in order.
pub open spec fn report_views(reports: Seq<PathReport>) -> Seq<PathReportView> {
    Seq::new(reports.len(), |i: int| reports[i]@)
}

impl View for HostPaths {
    type V = HostPathsView;

    open spec fn view(&self) -> HostPathsView {
        HostPathsView {
            separator: self.separator,
            working_dir_known: self.working_dir_known,
            reports: report_views(self.reports@),
            roots: report_views(self.roots@),
        }
    }
}

/// The first report of `path` among `reports`, if there is one.
pub open spec fn find_report(reports: Seq<PathReportView>, path: Seq<char>) -> Option<
    PathReportView,
>
    decreases reports.len(),
{
    if reports.len() == 0 {
        None
    } else if reports[0].path == path {
        Some(reports[0])
    } else {
        find_report(reports.drop_first(), path)
    }
}

/// The canonical form that the host reported for the safe directory `dir`, if
/// it reported one.
pub open spec fn root_of(host: HostPathsView, dir: Seq<char>) -> Option<Seq<Seq<u8>>> {
    match find_report(host.roots, dir) {
        Some(report) => report.canonical,
        None => None,
    }
}

/// The first report of `path` among `reports`, if there is one.
pub fn first_report<'a>(reports: &'a Vec<PathReport>, path: &str) -> (found: Option<&'a PathReport>)
    ensures
        match found {
            Some(report) => find_report(report_views(reports@), path@) == Some(report@),
            None => find_report(report_views(reports@), path@) is None,
        },
{
    let ghost all = report_views(reports@);
    let mut i: usize = 0;
    assert(all.subrange(0, all.len() as int) =~= all);
    while i < reports.len()
        invariant
            i <= reports.len(),
            all == report_views(reports@),
            find_report(all, path@) == find_report(
                all.subrange(i as int, all.len() as int),
                path@,
            ),
        decreases reports.len() - i,
    {
        let ghost rest = all.subrange(i as int, all.len() as int);
        assert(rest[0] == reports@[i as int]@);
        if str_eq(reports[i].path.as_str(), path) {
            return Some(&reports[i]);
        }
        assert(rest.drop_first() =~= all.subrange(i + 1, all.len() as int));
        i += 1;
    }
    None
}

impl HostPaths {
    /// The first report on `path` as a call names it, if the host has reported on it.
    pub fn report_for(&self, path: &str) -> (found: Option<&PathReport>)
        ensures
            match found {
                Some(report) => find_report(self@.reports, path@) == Some(report@),
                None => find_report(self@.reports, path@) is None,
            },
    {
        first_report(&self.reports, path)
    }

    /// The canonical form reported for the safe directory `dir`, if the host reported one.
    pub fn root_for(&self, dir: &str) -> (found: Option<&CanonicalPath>)
        ensures
            match found {
                Some(canonical) => root_of(self@, dir@) == Some(canonical@),
                None => root_of(self@, dir@) is None,
            },
    {
        match first_report(&self.roots, dir) {
            Some(report) => report.canonical.as_ref(),
            None => None,
        }
    }
}

/// Whether a lowercase text names one of the system directories.
pub open spec fn names_system_segment(lowered: Seq<char>) -> bool {
    ||| occurs_in("/etc/"@, lowered)
    ||| occurs_in("/usr/bin/"@, lowered)
    ||| occurs_in("/bin/"@, lowered)
    ||| occurs_in("/sbin/"@, lowered)
    ||| occurs_in("/boot/"@, lowered)
    ||| occurs_in("/dev/"@, lowered)
    ||| occurs_in("/proc/"@, lowered)
    ||| occurs_in("/sys/"@, lowered)
}

/// Whether a path, whatever its letter case, names one of the system directories.
pub open spec fn system_path(text: Seq<char>) -> bool {
    names_system_segment(lowercase_of(text))
}

/// Whether a text that is already lowercase names one of the system directories.
pub fn mentions_system_segment(lowered: &str) -> (yes: bool)
    ensures
        yes == names_system_segment(lowered@),
{
    contains(lowered, "/etc/") || contains(lowered, "/usr/bin/") || contains(lowered, "/bin/")
        || contains(lowered, "/sbin/") || contains(lowered, "/boot/") || contains(lowered, "/dev/")
        || contains(lowered, "/proc/") || contains(lowered, "/sys/")
}

/// Whether a path names one of the system directories, in any letter case.
pub fn is_system_path(text: &str) -> (yes: bool)
    ensures
        yes == system_path(text@),
{
    let lowered = to_lowercase(text);
    mentions_system_segment(lowered.as_str())
}

/// Whether two byte vectors hold the same bytes.
fn same_bytes(a: &Vec<u8>, b: &Vec<u8>) -> (same: bool)
    ensures
        same == (a@ == b@),
{
    if a.len() != b.len() {
        return false;
    }
    let mut i: usize = 0;
    while i < a.len()
        invariant
            i <= a.len(),
            a.len() == b.len(),
            forall|j: int| 0 <= j < i ==> a@[j] == b@[j],
        decreases a.len() - i,
    {
        if a[i] != b[i] {
            return false;
        }
        i += 1;
    }
    assert(a@ =~= b@);
    true
}

/// Whether the components of `root` are the leading components of `path`, one for one.
pub fn starts_with(path: &CanonicalPath, root: &CanonicalPath) -> (yes: bool)
    ensures
        yes == root@.is_prefix_of(path@),
{
    if root.components.len() > path.components.len() {
        return false;
    }
    let mut i: usize = 0;
    while i < root.components.len()
        invariant
            i <= root.components.len(),
            root.components.len() <= path.components.len(),
            forall|j: int| 0 <= j < i ==> root@[j] == path@[j],
        decreases root.components.len() - i,
    {
        if !same_bytes(&root.components[i], &path.components[i]) {
            assert(path@.subrange(0, root@.len() as int)[i as int] == path@[i as int]);
            return false;
        }
        i += 1;
    }
    assert(root@ =~= path@.subrange(0, root@.len() as int));
    true
}

/// Whether `canonical` lies under the safe directory `dir`: the host resolved
/// `dir`, and its components lead those of `canonical`.
pub open spec fn under_root(host: HostPathsView, dir: Seq<char>, canonical: Seq<Seq<u8>>) -> bool {
    root_of(host, dir) matches Some(root) && root.is_prefix_of(canonical)
}

/// Whether `canonical` lies under one of the safe directories.
pub open spec fn within_safe_dirs(
    host: HostPathsView,
    safe_dirs: Seq<Seq<char>>,
    canonical: Seq<Seq<u8>>,
) -> bool {
    exists|k: int| 0 <= k < safe_dirs.len() && under_root(host, #[trigger] safe_dirs[k], canonical)
}

/// Whether `canonical` lies under one of the safe directories that the host resolved.
pub fn lies_within(canonical: &CanonicalPath, safe_dirs: &[String], host: &HostPaths) -> (yes:
    bool)
    ensures
        yes == within_safe_dirs(host@, views(safe_dirs@), canonical@),
{
    let ghost dirs = views(safe_dirs@);
    let mut i: usize = 0;
    while i < safe_dirs.len()
        invariant
            i <= safe_dirs.len(),
            dirs == views(safe_dirs@),
            forall|k: int| 0 <= k < i ==> !under_root(host@, #[trigger] dirs[k], canonical@),
        decreases safe_dirs.len() - i,
    {
        assert(dirs[i as int] == safe_dirs@[i as int]@);
        if let Some(root) = host.root_for(safe_dirs[i].as_str()) {
            if starts_with(canonical, root) {
                assert(under_root(host@, dirs[i as int], canonical@));
                return true;
            }
        }
        i += 1;
    }
    false
}

/// Whether the host could place `path`: it reported on it, knew the working
/// directory if the path is relative, and resolved it.
pub open spec fn placed(path: Seq<char>, host: HostPathsView) -> bool {
    find_report(host.reports, path) matches Some(report) && (report.absolute
        || host.working_dir_known) && report.canonical is Some
}

/// The decision of the resolver on `path`.
pub open spec fn resolution(
    path: Seq<char>,
    safe_dirs: Seq<Seq<char>>,
    host: HostPathsView,
) -> Result<Seq<Seq<u8>>, ToolErrorView> {
    match find_report(host.reports, path) {
        None => Err(ToolErrorView::Denied("Path cannot be resolved"@)),
        Some(report) => if !report.absolute && !host.working_dir_known {
            Err(ToolErrorView::Invalid("Cannot resolve current dir"@))
        } else {
            match report.canonical {
                None => Err(ToolErrorView::Denied("Path cannot be resolved"@)),
                Some(canonical) => if system_path(text_of_path(canonical, host.separator)) {
                    Err(ToolErrorView::Denied("System paths are not allowed"@))
                } else if within_safe_dirs(host, safe_dirs, canonical) {
                    Ok(canonical)
                } else {
                    Err(ToolErrorView::Denied("Path not within safe directories"@))
                },
            }
        },
    }
}

/// The outcome of a resolution as contracts speak of it.
pub open spec fn path_outcome(result: Result<CanonicalPath, ToolError>) -> Result<
    Seq<Seq<u8>>,
    ToolErrorView,
> {
    match result {
        Ok(canonical) => Ok(canonical@),
        Err(error) => Err(error@),
    }
}

/// Resolves `path` to its canonical form, if the path may be used.
///
/// In this order: a path the host did not report is denied; a relative path
/// is invalid while the working directory is unknown; a path that does not
/// resolve is denied; so is one whose canonical form, written out as text,
/// names a system directory, whatever the safe directories are; and so is
/// one that lies under no safe directory that resolves. Otherwise the result
/// is the canonical form.
pub fn resolve_safe_path(path: &str, safe_dirs: &[String], host: &HostPaths) -> (result: Result<
    CanonicalPath,
    ToolError,
>)
    ensures
        path_outcome(result) == resolution(path@, views(safe_dirs@), host@),
{
    let report = match host.report_for(path) {
        Some(report) => report,
        None => {
            return Err(ToolError::Denied("Path cannot be resolved".to_string()));
        },
    };
    if !report.absolute && !host.working_dir_known {
        return Err(ToolError::Invalid("Cannot resolve current dir".to_string()));
    }
    let canonical = match &report.canonical {
        Some(canonical) => canonical,
        None => {
            return Err(ToolError::Denied("Path cannot be resolved".to_string()));
        },
    };
    let text = canonical.text(host.separator);
    if is_system_path(text.as_str()) {
        return Err(ToolError::Denied("System paths are not allowed".to_string()));
    }
    if lies_within(canonical, safe_dirs, host) {
        Ok(canonical.clone())
    } else {
        Err(ToolError::Denied("Path not within safe directories".to_string()))
    }
}

/// A path whose canonical form names a system directory never resolves, not
/// even where a safe directory holds it; once the host could place the path,
/// it is denied as a system path.
pub proof fn lemma_system_path_denied(
    path: Seq<char>,
    safe_dirs: Seq<Seq<char>>,
    host: HostPathsView,
)
    requires
        find_report(host.reports, path) matches Some(report) && report.canonical matches Some(
            canonical,
        ) && system_path(text_of_path(canonical, host.separator)),
    ensures
        resolution(path, safe_dirs, host) is Err,
        placed(path, host) ==> resolution(path, safe_dirs, host) == Err::<
            Seq<Seq<u8>>,
            ToolErrorView,
        >(ToolErrorView::Denied("System paths are not allowed"@)),
{
}

/// A path that the host could place, whose canonical form names no system
/// directory and has the components of a resolved safe directory as its
/// leading components, resolves to that canonical form.
pub proof fn lemma_path_under_safe_root_resolves(
    path: Seq<char>,
    safe_dirs: Seq<Seq<char>>,
    host: HostPathsView,
)
    requires
        placed(path, host),
        ({
            let canonical = find_report(host.reports, path)->Some_0.canonical->Some_0;
            &&& !system_path(text_of_path(canonical, host.separator))
            &&& within_safe_dirs(host, safe_dirs, canonical)
        }),
    ensures
        resolution(path, safe_dirs, host) == Ok::<Seq<Seq<u8>>, ToolErrorView>(
            find_report(host.reports, path)->Some_0.canonical->Some_0,
        ),
{
}

/// A path that the host could place, whose canonical form names no system
/// directory and lies under no safe directory that resolves, is denied as
/// outside the safe directories.
pub proof fn lemma_path_outside_safe_roots_denied(
    path: Seq<char>,
    safe_dirs: Seq<Seq<char>>,
    host: HostPathsView,
)
    requires
        placed(path, host),
        ({
            let canonical = find_report(host.reports, path)->Some_0.canonical->Some_0;
            &&& !system_path(text_of_path(canonical, host.separator))
            &&& !within_safe_dirs(host, safe_dirs, canonical)
        }),
    ensures
        resolution(path, safe_dirs, host) == Err::<Seq<Seq<u8>>, ToolErrorView>(
            ToolErrorView::Denied("Path not within safe directories"@),
        ),
{
}

/// Without a safe directory no path resolves.
pub proof fn lemma_no_safe_dirs_no_path(path: Seq<char>, host: HostPathsView)
    ensures
        resolution(path, Seq::empty(), host) is Err,
{
}

/// The decision on one member of the parameters that may name a path: a
/// member that is absent passes, one that is no string is invalid, and a
/// string is judged by the resolver.
pub open spec fn member_verdict(
    params: Json,
    name: Seq<char>,
    safe_dirs: Seq<Seq<char>>,
    host: HostPathsView,
) -> Result<(), ToolErrorView> {
    match field(params, name) {
        None => Ok(()),
        Some(inner) => match text_of(inner) {
            None => invalid("Missing path parameter"),
            Some(path) => match resolution(path, safe_dirs, host) {
                Ok(_) => Ok(()),
                Err(error) => Err(error),
            },
        },
    }
}

/// Whether the parameters hold one of the members that name a path.
pub open spec fn names_a_path(params: Json) -> bool {
    ||| field(params, "path"@) is Some
    ||| field(params, "source"@) is Some
    ||| field(params, "destination"@) is Some
    ||| field(params, "dest"@) is Some
}

/// The decision on the parameters of a call that touches a file: one of
/// `path`, `source`, `destination` and `dest` must be present, and every one
/// that is present must pass. The first that fails, in that order, decides.
pub open spec fn path_params_verdict(
    params: Json,
    safe_dirs: Seq<Seq<char>>,
    host: HostPathsView,
) -> Result<(), ToolErrorView> {
    if !names_a_path(params) {
        invalid("Missing path parameter")
    } else if member_verdict(params, "path"@, safe_dirs, host) is Err {
        member_verdict(params, "path"@, safe_dirs, host)
    } else if member_verdict(params, "source"@, safe_dirs, host) is Err {
        member_verdict(params, "source"@, safe_dirs, host)
    } else if member_verdict(params, "destination"@, safe_dirs, host) is Err {
        member_verdict(params, "destination"@, safe_dirs, host)
    } else {
        member_verdict(params, "dest"@, safe_dirs, host)
    }
}

/// The parameters of a file call pass exactly when they name a path and
/// every member that names one is a string that resolves: a call with a
/// source that resolves and a destination that does not is not accepted.
pub proof fn lemma_every_named_path_is_judged(
    params: Json,
    safe_dirs: Seq<Seq<char>>,
    host: HostPathsView,
)
    ensures
        path_params_verdict(params, safe_dirs, host) is Ok <==> {
            &&& names_a_path(params)
            &&& member_verdict(params, "path"@, safe_dirs, host) is Ok
            &&& member_verdict(params, "source"@, safe_dirs, host) is Ok
            &&& member_verdict(params, "destination"@, safe_dirs, host) is Ok
            &&& member_verdict(params, "dest"@, safe_dirs, host) is Ok
        },
{
}

/// Parameters that name one path, under `path`, get the decision of the
/// resolver on that path.
pub proof fn lemma_single_path_follows_resolver(
    params: Json,
    path: Seq<char>,
    safe_dirs: Seq<Seq<char>>,
    host: HostPathsView,
)
    requires
        field(params, "path"@) == Some(Json::String(path)),
        field(params, "source"@) is None,
        field(params, "destination"@) is None,
        field(params, "dest"@) is None,
    ensures
        path_params_verdict(params, safe_dirs, host) == match resolution(path, safe_dirs, host) {
            Ok(_) => Ok::<(), ToolErrorView>(()),
            Err(error) => Err(error),
        },
{
}

/// Judges the member `name` of `params`, and says whether it is present.
fn judge_member(params: &Value, name: &str, safe_dirs: &[String], host: &HostPaths) -> (judged: (
    bool,
    Result<(), ToolError>,
))
    ensures
        judged.0 == field(json_of(*params), name@) is Some,
        outcome(judged.1) == member_verdict(json_of(*params), name@, views(safe_dirs@), host@),
{
    match member(params, name) {
        None => (false, Ok(())),
        Some(inner) => match inner.as_str() {
            None => (true, Err(ToolError::Invalid("Missing path parameter".to_string()))),
            Some(path) => match resolve_safe_path(path, safe_dirs, host) {
                Ok(_) => (true, Ok(())),
                Err(error) => (true, Err(error)),
            },
        },
    }
}

/// Decides whether the paths that `params` names may be used.
///
/// `Invalid("Missing path parameter")` comes when none of `path`, `source`,
/// `destination` and `dest` is present. Otherwise each one that is present is
/// judged in that order: one that is no string is invalid with the same
/// reason, and a string is judged by [`resolve_safe_path`]. The first
/// failure is the result; where there is none, the call passes.
pub fn validate_safe_path_from_params(
    params: &Value,
    safe_dirs: &[String],
    host: &HostPaths,
) -> (result: Result<(), ToolError>)
    ensures
        outcome(result) == path_params_verdict(json_of(*params), views(safe_dirs@), host@),
{
    let (has_path, path) = judge_member(params, "path", safe_dirs, host);
    let (has_source, source) = judge_member(params, "source", safe_dirs, host);
    let (has_destination, destination) = judge_member(params, "destination", safe_dirs, host);
    let (has_dest, dest) = judge_member(params, "dest", safe_dirs, host);
    if !(has_path || has_source || has_destination || has_dest) {
        return Err(ToolError::Invalid("Missing path parameter".to_string()));
    }
    match path {
        Err(error) => Err(error),
        Ok(_) => match source {
            Err(error) => Err(error),
            Ok(_) => match destination {
                Err(error) => Err(error),
                Ok(_) => dest,
            },
        },
    }
}

/// The path under `name`, where `params` holds a string there.
pub open spec fn named_path(params: Json, name: Seq<char>) -> Seq<Seq<char>> {
    match text_field(params, name) {
        Some(path) => seq![path],
        None => Seq::empty(),
    }
}

/// The paths that `params` names: the strings under `path`, `source`,
/// `destination` and `dest`, in that order.
pub open spec fn named_paths(params: Json) -> Seq<Seq<char>> {
    named_path(params, "path"@) + named_path(params, "source"@) + named_path(
        params,
        "destination"@,
    ) + named_path(params, "dest"@)
}

/// Adds to `paths` the string under `name`, if `params` holds one there.
fn push_named_path(paths: &mut Vec<String>, params: &Value, name: &str)
    ensures
        views(final(paths)@) == views(old(paths)@) + named_path(json_of(*params), name@),
{
    let ghost before = views(paths@);
    if let Some(inner) = member(params, name) {
        if let Some(path) = inner.as_str() {
            paths.push(path.to_string());
            assert(views(paths@) =~= before + seq![path@]);
            return ;
        }
    }
    assert(views(paths@) =~= before + Seq::<Seq<char>>::empty());
}

/// Reads the paths that a call names: the strings under `path`, `source`,
/// `destination` and `dest`, in that order. These are the paths that the
/// resolver will ask the host about.
pub fn path_params(params: &Value) -> (paths: Vec<String>)
    ensures
        views(paths@) == named_paths(json_of(*params)),
{
    let mut paths: Vec<String> = Vec::new();
    assert(views(paths@) =~= Seq::<Seq<char>>::empty());
    push_named_path(&mut paths, params, "path");
    push_named_path(&mut paths, params, "source");
    push_named_path(&mut paths, params, "destination");
    push_named_path(&mut paths, params, "dest");
    paths
}

} // verus!
