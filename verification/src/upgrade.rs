//! The firmware-upgrade orchestrator: a state machine over one upgrade
//! run.
//!
//! An upgrade compares the installed firmware version against the
//! latest release tag — by plain string equality, never by version
//! ordering — and, when out of date and executing, uploads the
//! firmware image and then the web-asset bundle. The firmware upload
//! makes the device reboot by itself, so between the two uploads the
//! run polls for the device to come back: transient failures mean
//! "still rebooting" and the run keeps waiting, while a rejected
//! request aborts it at once with the status code surfaced.
//!
//! The machine here holds every decision of that workflow. The caller
//! runs the loop: it performs each [`UpgradeAction`] — fetch, download,
//! upload, sleep and poll — and feeds the outcome back as an
//! [`UpgradeEvent`] until the run reaches a terminal phase. The base
//! design polls without bound; a caller may instead set a maximum
//! number of poll attempts, after which the run fails with a distinct
//! timeout error.

use vstd::prelude::*;

use crate::models::{Error, SystemInfo};

verus! {

/// The fixed file name of a release's firmware image.
pub fn firmware_filename() -> (r: &'static str)
    ensures
        r@ == "esp-miner.bin"@,
{
    "esp-miner.bin"
}

/// The fixed file name of a release's web-asset bundle.
pub fn www_filename() -> (r: &'static str)
    ensures
        r@ == "www.bin"@,
{
    "www.bin"
}

/// The URL a release asset is downloaded from, built from the release
/// tag and the asset's fixed file name.
pub open spec fn spec_download_url(version: Seq<char>, filename: Seq<char>) -> Seq<char> {
    "https://github.com/skot/ESP-Miner/releases/download/"@ + version + "/"@ + filename
}

/// Build a release asset's download URL.
pub fn download_url(version: &str, filename: &str) -> (r: String)
    ensures
        r@ == spec_download_url(version@, filename@),
{
    let mut url = "https://github.com/skot/ESP-Miner/releases/download/".to_owned();
    url.append(version);
    url.append("/");
    url.append(filename);
    url
}

/// The phase an upgrade run is in. `UpToDate`, `DryRun`, `Done` and
/// `Failed` are terminal.
#[derive(Debug, Clone, Copy, PartialEq, Eq, Structural)]
pub enum UpgradePhase {
    /// Fetching the installed and latest versions.
    Checking,
    /// The device already runs the latest release and no force flag
    /// was set: the run ends without any network upload.
    UpToDate,
    /// Out of date, but no execute flag: the planned steps were
    /// reported and nothing was changed.
    DryRun,
    /// Downloading and uploading the firmware image.
    UploadingFirmware,
    /// The upload made the device reboot; polling until it answers.
    AwaitingRestart,
    /// Downloading and uploading the web-asset bundle.
    UploadingAssets,
    /// Every step completed.
    Done,
    /// Aborted; the failure is recorded in the run.
    Failed,
}

/// What the caller reports back into the machine.
#[derive(Debug)]
pub enum UpgradeEvent {
    /// Both versions were fetched: the device's installed version and
    /// the latest release tag.
    VersionsChecked { current: String, latest: String },
    /// Fetching a version failed.
    CheckFailed(Error),
    /// The firmware image was downloaded and uploaded.
    FirmwareUploaded,
    /// A download or upload failed.
    UploadFailed(Error),
    /// One restart-detection poll finished with this outcome.
    Polled(Result<SystemInfo, Error>),
    /// The web-asset bundle was downloaded and uploaded.
    AssetsUploaded,
}

/// What the caller must do next.
#[derive(Debug, Clone)]
pub enum UpgradeAction {
    /// Report that the device is up to date; the run is over.
    ReportUpToDate,
    /// Report the planned steps without performing them; the run is
    /// over.
    ReportPlan,
    /// Download the firmware image from this URL and upload it to the
    /// device's firmware endpoint.
    UploadFirmware(String),
    /// Sleep the poll interval, then try to read the device's state,
    /// and report the outcome.
    PollAfterDelay,
    /// Download the web-asset bundle from this URL and upload it to
    /// the device's asset endpoint.
    UploadAssets(String),
    /// Nothing more: the run reached a terminal phase.
    Finish,
}

/// The mathematical value of an action: URLs as their character
/// sequences.
pub enum UpgradeActionView {
    ReportUpToDate,
    ReportPlan,
    UploadFirmware(Seq<char>),
    PollAfterDelay,
    UploadAssets(Seq<char>),
    Finish,
}

impl View for UpgradeAction {
    type V = UpgradeActionView;

    open spec fn view(&self) -> UpgradeActionView {
        match self {
            UpgradeAction::ReportUpToDate => UpgradeActionView::ReportUpToDate,
            UpgradeAction::ReportPlan => UpgradeActionView::ReportPlan,
            UpgradeAction::UploadFirmware(u) => UpgradeActionView::UploadFirmware(u@),
            UpgradeAction::PollAfterDelay => UpgradeActionView::PollAfterDelay,
            UpgradeAction::UploadAssets(u) => UpgradeActionView::UploadAssets(u@),
            UpgradeAction::Finish => UpgradeActionView::Finish,
        }
    }
}

/// One upgrade run: the flags it was started with, the versions it
/// learned, how it is polling, and the phase it is in.
#[derive(Debug, Clone)]
pub struct UpgradeRun {
    /// Upgrade even when the versions already match.
    pub force: bool,
    /// Actually perform the uploads; without it the run stops after
    /// reporting its plan.
    pub execute: bool,
    /// The most transient poll outcomes tolerated before the run fails
    /// with [`Error::Timeout`]; unbounded when unset, as in the base
    /// design.
    pub max_polls: Option<u64>,
    /// Transient poll outcomes seen since the firmware upload; counted
    /// only when a bound is set.
    pub polls: u64,
    /// The device's installed version, once fetched.
    pub current_version: Option<String>,
    /// The release tag the run upgrades to, once fetched.
    pub target_version: Option<String>,
    /// Why the run failed, when it did.
    pub failure: Option<Error>,
    pub phase: UpgradePhase,
}

impl UpgradeRun {
    /// The internal consistency of a run: phases past the version
    /// check know their target version, a failed run records its
    /// failure, and a bounded poll count never exceeds its bound.
    pub open spec fn wf(self) -> bool {
        &&& ((self.phase == UpgradePhase::UploadingFirmware || self.phase
            == UpgradePhase::AwaitingRestart || self.phase == UpgradePhase::UploadingAssets)
            ==> self.target_version is Some)
        &&& (self.phase == UpgradePhase::Failed ==> self.failure is Some)
        &&& (self.phase == UpgradePhase::AwaitingRestart ==> (self.max_polls matches Some(m)
            ==> self.polls <= m))
    }

    /// The executable counterpart of [`UpgradeRun::wf`], for callers
    /// that need to check a run before stepping it.
    pub fn well_formed(&self) -> (r: bool)
        ensures
            r == self.wf(),
    {
        let knows_target = match self.phase {
            UpgradePhase::UploadingFirmware => self.target_version.is_some(),
            UpgradePhase::AwaitingRestart => self.target_version.is_some(),
            UpgradePhase::UploadingAssets => self.target_version.is_some(),
            _ => true,
        };
        let knows_failure = match self.phase {
            UpgradePhase::Failed => self.failure.is_some(),
            _ => true,
        };
        let polls_in_budget = match self.phase {
            UpgradePhase::AwaitingRestart => match self.max_polls {
                Some(m) => self.polls <= m,
                None => true,
            },
            _ => true,
        };
        knows_target && knows_failure && polls_in_budget
    }

    /// Whether a phase ends the run.
    pub open spec fn spec_is_terminal(phase: UpgradePhase) -> bool {
        phase == UpgradePhase::UpToDate || phase == UpgradePhase::DryRun || phase
            == UpgradePhase::Done || phase == UpgradePhase::Failed
    }

    pub fn is_terminal(&self) -> (r: bool)
        ensures
            r == Self::spec_is_terminal(self.phase),
    {
        match self.phase {
            UpgradePhase::UpToDate => true,
            UpgradePhase::DryRun => true,
            UpgradePhase::Done => true,
            UpgradePhase::Failed => true,
            _ => false,
        }
    }

    /// Which events a run in its current phase can take.
    pub open spec fn spec_accepts(self, event: UpgradeEvent) -> bool {
        match self.phase {
            UpgradePhase::Checking => event matches UpgradeEvent::VersionsChecked { .. }
                || event matches UpgradeEvent::CheckFailed(_),
            UpgradePhase::UploadingFirmware => event matches UpgradeEvent::FirmwareUploaded
                || event matches UpgradeEvent::UploadFailed(_),
            UpgradePhase::AwaitingRestart => event matches UpgradeEvent::Polled(_),
            UpgradePhase::UploadingAssets => event matches UpgradeEvent::AssetsUploaded
                || event matches UpgradeEvent::UploadFailed(_),
            _ => false,
        }
    }

    pub fn accepts(&self, event: &UpgradeEvent) -> (r: bool)
        ensures
            r == self.spec_accepts(*event),
    {
        match self.phase {
            UpgradePhase::Checking => match event {
                UpgradeEvent::VersionsChecked { .. } => true,
                UpgradeEvent::CheckFailed(_) => true,
                _ => false,
            },
            UpgradePhase::UploadingFirmware => match event {
                UpgradeEvent::FirmwareUploaded => true,
                UpgradeEvent::UploadFailed(_) => true,
                _ => false,
            },
            UpgradePhase::AwaitingRestart => match event {
                UpgradeEvent::Polled(_) => true,
                _ => false,
            },
            UpgradePhase::UploadingAssets => match event {
                UpgradeEvent::AssetsUploaded => true,
                UpgradeEvent::UploadFailed(_) => true,
                _ => false,
            },
            _ => false,
        }
    }

    /// A fresh run: checking versions, nothing learned yet.
    pub fn new(force: bool, execute: bool, max_polls: Option<u64>) -> (r: Self)
        ensures
            r == (UpgradeRun {
                force,
                execute,
                max_polls,
                polls: 0u64,
                current_version: None,
                target_version: None,
                failure: None,
                phase: UpgradePhase::Checking,
            }),
            r.wf(),
    {
        UpgradeRun {
            force,
            execute,
            max_polls,
            polls: 0,
            current_version: None,
            target_version: None,
            failure: None,
            phase: UpgradePhase::Checking,
        }
    }
}

/// The transition function of an upgrade run. Given a run and the
/// event the caller reports, it yields the next run and what to do.
///
/// - Versions fetched: equal versions without force end the run up to
///   date, with no upload; out of date without execute reports the
///   plan and stops; otherwise the firmware upload begins.
/// - A failed fetch, download or upload fails the run with its error.
/// - After the firmware upload the run polls for the restarted device:
///   a successful poll moves on to the asset upload; a transient error
///   (transport or device-side 5xx) keeps polling, up to the optional
///   bound, beyond which the run fails with a timeout; any other error
///   — the device rejecting the request above all — aborts at once.
/// - The asset upload completing ends the run.
pub open spec fn spec_step(pre: UpgradeRun, event: UpgradeEvent) -> (UpgradeRun, UpgradeActionView) {
    if !pre.spec_accepts(event) {
        (pre, UpgradeActionView::Finish)
    } else {
        match event {
            UpgradeEvent::VersionsChecked { current, latest } => {
                if current@ == latest@ && !pre.force {
                    (
                        UpgradeRun {
                            current_version: Some(current),
                            target_version: Some(latest),
                            phase: UpgradePhase::UpToDate,
                            ..pre
                        },
                        UpgradeActionView::ReportUpToDate,
                    )
                } else if !pre.execute {
                    (
                        UpgradeRun {
                            current_version: Some(current),
                            target_version: Some(latest),
                            phase: UpgradePhase::DryRun,
                            ..pre
                        },
                        UpgradeActionView::ReportPlan,
                    )
                } else {
                    (
                        UpgradeRun {
                            current_version: Some(current),
                            target_version: Some(latest),
                            phase: UpgradePhase::UploadingFirmware,
                            ..pre
                        },
                        UpgradeActionView::UploadFirmware(
                            spec_download_url(latest@, "esp-miner.bin"@),
                        ),
                    )
                }
            },
            UpgradeEvent::CheckFailed(e) => (
                UpgradeRun { phase: UpgradePhase::Failed, failure: Some(e), ..pre },
                UpgradeActionView::Finish,
            ),
            UpgradeEvent::FirmwareUploaded => (
                UpgradeRun { phase: UpgradePhase::AwaitingRestart, polls: 0u64, ..pre },
                UpgradeActionView::PollAfterDelay,
            ),
            UpgradeEvent::UploadFailed(e) => (
                UpgradeRun { phase: UpgradePhase::Failed, failure: Some(e), ..pre },
                UpgradeActionView::Finish,
            ),
            UpgradeEvent::Polled(outcome) => match outcome {
                Ok(_) => (
                    UpgradeRun { phase: UpgradePhase::UploadingAssets, ..pre },
                    UpgradeActionView::UploadAssets(
                        spec_download_url(pre.target_version->0@, "www.bin"@),
                    ),
                ),
                Err(e) => {
                    if e.spec_is_transient() {
                        match pre.max_polls {
                            Some(m) => {
                                if pre.polls >= m {
                                    (
                                        UpgradeRun {
                                            phase: UpgradePhase::Failed,
                                            failure: Some(Error::Timeout),
                                            ..pre
                                        },
                                        UpgradeActionView::Finish,
                                    )
                                } else {
                                    (
                                        UpgradeRun { polls: (pre.polls + 1) as u64, ..pre },
                                        UpgradeActionView::PollAfterDelay,
                                    )
                                }
                            },
                            None => (pre, UpgradeActionView::PollAfterDelay),
                        }
                    } else {
                        (
                            UpgradeRun { phase: UpgradePhase::Failed, failure: Some(e), ..pre },
                            UpgradeActionView::Finish,
                        )
                    }
                },
            },
            UpgradeEvent::AssetsUploaded => (
                UpgradeRun { phase: UpgradePhase::Done, ..pre },
                UpgradeActionView::Finish,
            ),
        }
    }
}

impl UpgradeRun {
    /// Take one step of the upgrade run, exactly as [`spec_step`]
    /// lays down.
    pub fn step(self, event: UpgradeEvent) -> (r: (UpgradeRun, UpgradeAction))
        requires
            self.wf(),
            self.spec_accepts(event),
        ensures
            r.0 == spec_step(self, event).0,
            r.1@ == spec_step(self, event).1,
            r.0.wf(),
    {
        match event {
            UpgradeEvent::VersionsChecked { current, latest } => {
                if current == latest && !self.force {
                    let next = UpgradeRun {
                        current_version: Some(current),
                        target_version: Some(latest),
                        phase: UpgradePhase::UpToDate,
                        ..self
                    };
                    (next, UpgradeAction::ReportUpToDate)
                } else if !self.execute {
                    let next = UpgradeRun {
                        current_version: Some(current),
                        target_version: Some(latest),
                        phase: UpgradePhase::DryRun,
                        ..self
                    };
                    (next, UpgradeAction::ReportPlan)
                } else {
                    let url = download_url(latest.as_str(), firmware_filename());
                    let next = UpgradeRun {
                        current_version: Some(current),
                        target_version: Some(latest),
                        phase: UpgradePhase::UploadingFirmware,
                        ..self
                    };
                    (next, UpgradeAction::UploadFirmware(url))
                }
            },
            UpgradeEvent::CheckFailed(e) => (
                UpgradeRun { phase: UpgradePhase::Failed, failure: Some(e), ..self },
                UpgradeAction::Finish,
            ),
            UpgradeEvent::FirmwareUploaded => (
                UpgradeRun { phase: UpgradePhase::AwaitingRestart, polls: 0, ..self },
                UpgradeAction::PollAfterDelay,
            ),
            UpgradeEvent::UploadFailed(e) => (
                UpgradeRun { phase: UpgradePhase::Failed, failure: Some(e), ..self },
                UpgradeAction::Finish,
            ),
            UpgradeEvent::Polled(outcome) => match outcome {
                Ok(_) => {
                    let url = match &self.target_version {
                        Some(t) => download_url(t.as_str(), www_filename()),
                        None => vstd::pervasive::unreached(),
                    };
                    (
                        UpgradeRun { phase: UpgradePhase::UploadingAssets, ..self },
                        UpgradeAction::UploadAssets(url),
                    )
                },
                Err(e) => {
                    if e.is_transient() {
                        match self.max_polls {
                            Some(m) => {
                                if self.polls >= m {
                                    (
                                        UpgradeRun {
                                            phase: UpgradePhase::Failed,
                                            failure: Some(Error::Timeout),
                                            ..self
                                        },
                                        UpgradeAction::Finish,
                                    )
                                } else {
                                    let polled = self.polls + 1;
                                    (
                                        UpgradeRun { polls: polled, ..self },
                                        UpgradeAction::PollAfterDelay,
                                    )
                                }
                            },
                            None => (self, UpgradeAction::PollAfterDelay),
                        }
                    } else {
                        (
                            UpgradeRun { phase: UpgradePhase::Failed, failure: Some(e), ..self },
                            UpgradeAction::Finish,
                        )
                    }
                },
            },
            UpgradeEvent::AssetsUploaded => (
                UpgradeRun { phase: UpgradePhase::Done, ..self },
                UpgradeAction::Finish,
            ),
        }
    }
}

/// Equal version strings without the force flag end the run up to date
/// at once: the step neither orders an upload nor leaves the run able
/// to take any further event, so no network upload occurs in such a
/// run.
pub proof fn lemma_equal_versions_no_upload(pre: UpgradeRun, current: String, latest: String)
    requires
        pre.wf(),
        pre.phase == UpgradePhase::Checking,
        !pre.force,
        current@ == latest@,
    ensures
        spec_step(pre, UpgradeEvent::VersionsChecked { current, latest }).0.phase
            == UpgradePhase::UpToDate,
        spec_step(pre, UpgradeEvent::VersionsChecked { current, latest }).1
            == UpgradeActionView::ReportUpToDate,
        forall|e: UpgradeEvent|
            !spec_step(pre, UpgradeEvent::VersionsChecked { current, latest }).0.spec_accepts(e),
{
}

/// A transient poll outcome — a transport failure or a device-side
/// 5xx — never moves an unbounded run out of its waiting phase: the
/// run is left exactly as it was, told to poll again.
pub proof fn lemma_transient_poll_keeps_waiting(pre: UpgradeRun, e: Error)
    requires
        pre.wf(),
        pre.phase == UpgradePhase::AwaitingRestart,
        pre.max_polls is None,
        e.spec_is_transient(),
    ensures
        spec_step(pre, UpgradeEvent::Polled(Err(e))).0 == pre,
        spec_step(pre, UpgradeEvent::Polled(Err(e))).1 == UpgradeActionView::PollAfterDelay,
{
}

/// The run an unbounded waiting phase reaches after any sequence of
/// transient poll outcomes.
pub open spec fn spec_run_polls(pre: UpgradeRun, errs: Seq<Error>) -> UpgradeRun
    decreases errs.len(),
{
    if errs.len() == 0 {
        pre
    } else {
        spec_run_polls(spec_step(pre, UpgradeEvent::Polled(Err(errs[0]))).0, errs.drop_first())
    }
}

/// However many transient poll outcomes arrive in a row, an unbounded
/// run keeps waiting for the restarted device and never aborts.
pub proof fn lemma_repeated_transient_polls_never_abort(pre: UpgradeRun, errs: Seq<Error>)
    requires
        pre.wf(),
        pre.phase == UpgradePhase::AwaitingRestart,
        pre.max_polls is None,
        forall|i: int| 0 <= i < errs.len() ==> (#[trigger] errs[i]).spec_is_transient(),
    ensures
        spec_run_polls(pre, errs) == pre,
    decreases errs.len(),
{
    if errs.len() > 0 {
        lemma_transient_poll_keeps_waiting(pre, errs[0]);
        lemma_repeated_transient_polls_never_abort(pre, errs.drop_first());
    }
}

/// A single poll outcome of "the device rejected the request" aborts
/// the run immediately, with the status code surfaced in the recorded
/// failure.
pub proof fn lemma_invalid_request_poll_aborts(pre: UpgradeRun, code: u16)
    requires
        pre.wf(),
        pre.phase == UpgradePhase::AwaitingRestart,
    ensures
        spec_step(pre, UpgradeEvent::Polled(Err(Error::InvalidRequest(code)))).0.phase
            == UpgradePhase::Failed,
        spec_step(pre, UpgradeEvent::Polled(Err(Error::InvalidRequest(code)))).0.failure == Some(
            Error::InvalidRequest(code),
        ),
        spec_step(pre, UpgradeEvent::Polled(Err(Error::InvalidRequest(code)))).1
            == UpgradeActionView::Finish,
{
}

} // verus!
