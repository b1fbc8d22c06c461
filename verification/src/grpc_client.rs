//! What a masternode's status reply says about the software it runs, and the verdict of
//! a version check on it.

use crate::text::{copy_text, decimal, to_decimal};
use crate::version::{is_modern, modern};
use vstd::prelude::*;
use vstd::string::*;

verus! {

/// The software versions in a masternode's status reply. A reply may leave any of them
/// out, and all of them where it carries no version information.
#[derive(Debug, PartialEq, Eq)]
pub struct SoftwareVersions {
    pub dapi: Option<String>,
    pub drive: Option<String>,
    pub tenderdash: Option<String>,
}

pub struct SoftwareVersionsView {
    pub dapi: Option<Seq<char>>,
    pub drive: Option<Seq<char>>,
    pub tenderdash: Option<Seq<char>>,
}

impl View for SoftwareVersions {
    type V = SoftwareVersionsView;

    open spec fn view(&self) -> SoftwareVersionsView {
        SoftwareVersionsView {
            dapi: self.dapi.deep_view(),
            drive: self.drive.deep_view(),
            tenderdash: self.tenderdash.deep_view(),
        }
    }
}

impl DeepView for SoftwareVersions {
    type V = SoftwareVersionsView;

    open spec fn deep_view(&self) -> SoftwareVersionsView {
        self@
    }
}

/// Whether a component reported a version, and a modern one.
pub open spec fn reports_modern(version: Option<Seq<char>>) -> bool {
    version matches Some(v) && modern(v)
}

/// Whether at least one of the reported components is modern.
pub open spec fn any_modern(software: SoftwareVersionsView) -> bool {
    reports_modern(software.drive) || reports_modern(software.tenderdash) || reports_modern(
        software.dapi,
    )
}

/// The verdict of a version check: whether any component is modern, with the DAPI and
/// Drive versions that were reported.
#[derive(Debug, PartialEq, Eq)]
pub struct VersionCheckResult {
    pub success: bool,
    pub dapi_version: Option<String>,
    pub drive_version: Option<String>,
}

pub struct VersionCheckResultView {
    pub success: bool,
    pub dapi_version: Option<Seq<char>>,
    pub drive_version: Option<Seq<char>>,
}

impl View for VersionCheckResult {
    type V = VersionCheckResultView;

    open spec fn view(&self) -> VersionCheckResultView {
        VersionCheckResultView {
            success: self.success,
            dapi_version: self.dapi_version.deep_view(),
            drive_version: self.drive_version.deep_view(),
        }
    }
}

/// The verdict that a version check reaches on the given software versions.
pub open spec fn check_verdict(software: SoftwareVersionsView) -> VersionCheckResultView {
    VersionCheckResultView {
        success: any_modern(software),
        dapi_version: software.dapi,
        drive_version: software.drive,
    }
}

/// Whether a component reported a version, and a modern one.
pub fn component_is_modern(version: &Option<String>) -> (verdict: bool)
    ensures
        verdict == reports_modern(version.deep_view()),
{
    match version {
        Some(v) => is_modern(v.as_str()),
        None => false,
    }
}

impl Clone for SoftwareVersions {
    fn clone(&self) -> (copy: Self)
        ensures
            copy@ == self@,
    {
        SoftwareVersions {
            dapi: copy_text(&self.dapi),
            drive: copy_text(&self.drive),
            tenderdash: copy_text(&self.tenderdash),
        }
    }
}

impl SoftwareVersions {
    /// Whether at least one of the reported components is modern.
    pub fn any_modern(&self) -> (verdict: bool)
        ensures
            verdict == any_modern(self@),
    {
        let drive = component_is_modern(&self.drive);
        let tenderdash = component_is_modern(&self.tenderdash);
        let dapi = component_is_modern(&self.dapi);
        drive || tenderdash || dapi
    }
}

/// The address at which a masternode serves its status: `https://`, the host, a colon
/// and the port in decimal digits.
pub open spec fn endpoint_of(host: Seq<char>, port: u16) -> Seq<char> {
    "https://"@ + host + ":"@ + decimal(port as nat)
}

/// The address at which to ask the masternode at `host` for its status.
pub fn endpoint(host: &str, port: u16) -> (url: String)
    ensures
        url@ == endpoint_of(host@, port),
{
    let mut url = String::from_str("https://");
    url.append(host);
    url.append(":");
    url.append(to_decimal(port as u64).as_str());
    url
}

/// Checks the software versions of a status reply: the check succeeds where Drive,
/// Tenderdash or DAPI is at version 2.0 or later. A reply without version information
/// fails the check and reports no version.
pub fn check_node_version(software: &SoftwareVersions) -> (result: VersionCheckResult)
    ensures
        result@ == check_verdict(software@),
{
    VersionCheckResult {
        success: software.any_modern(),
        dapi_version: copy_text(&software.dapi),
        drive_version: copy_text(&software.drive),
    }
}

} // verus!
