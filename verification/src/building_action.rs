//! Reports of the shared building action (click each detected building,
//! verify the selection panel, press `A` once) and of its read-only scan.
//!
//! The action itself talks to the desktop and waits between events; it runs
//! in the application. What it reports, and how a report reads, lives here.
use vstd::prelude::*;
use vstd::string::*;

use crate::frame::Point;
use crate::input::{input_error_text, InputError};
use crate::text::{decimal, decimal_text};

verus! {

/// How one action run ended.
#[derive(Clone, Debug, PartialEq, Eq)]
pub enum BuildingActionOutcome {
    /// The scan finished and every target was either acted on or skipped.
    Completed,
    /// Cancelled (F8/disarm) before the next event.
    Cancelled,
    /// The safety gate or a bad capture stopped the run.
    Aborted { detail: String },
    /// The OS refused an injected event.
    Failed { detail: String },
}

impl BuildingActionOutcome {
    pub fn is_success(&self) -> (yes: bool)
        ensures
            yes == (*self is Completed),
    {
        match self {
            BuildingActionOutcome::Completed => true,
            _ => false,
        }
    }
}

/// What happened to one detected building.
#[derive(Clone, Debug, PartialEq, Eq)]
pub enum BuildingTargetDisposition {
    /// The click was verified against the profile portrait and `A` was sent.
    Acted,
    /// The selection could not be confirmed, so `A` was withheld.
    Skipped { reason: String },
}

/// Per-target detail.
#[derive(Clone, Debug, PartialEq, Eq)]
pub struct BuildingTargetReport {
    /// Centre the click was aimed at.
    pub center: Point,
    /// Detector score of the building, in thousandths.
    pub score_permille: u32,
    pub disposition: BuildingTargetDisposition,
}

/// Everything one action run did, ready to log or display.
#[derive(Clone, Debug, PartialEq, Eq)]
pub struct BuildingActionReport {
    /// Short building class name this run acted on ("Spire", "Stargate").
    pub label: &'static str,
    pub outcome: BuildingActionOutcome,
    /// Buildings the single full-screen scan found.
    pub detections: usize,
    /// Per-target outcomes, in click order.
    pub targets: Vec<BuildingTargetReport>,
    /// Targets for which `A` was sent.
    pub acted: usize,
    /// Targets whose selection could not be verified.
    pub skipped: usize,
    /// Full-screen captures performed (always `0` or `1`).
    pub full_captures: usize,
    /// Small selection-panel captures performed.
    pub roi_captures: usize,
    /// Time spent on the one full-screen capture.
    pub capture_ms: u128,
    /// Time spent on the one full-screen detection.
    pub detect_ms: u128,
}

/// The suffix of a summary line for each outcome.
pub open spec fn outcome_suffix(o: BuildingActionOutcome) -> Seq<char> {
    match o {
        BuildingActionOutcome::Completed => seq![],
        BuildingActionOutcome::Cancelled => " (cancelled)"@,
        BuildingActionOutcome::Aborted { detail } => " (aborted: "@ + detail@ + ")"@,
        BuildingActionOutcome::Failed { detail } => " (failed: "@ + detail@ + ")"@,
    }
}

/// The English one-line summary of a report.
pub open spec fn summary_text(r: BuildingActionReport) -> Seq<char> {
    r.label@ + " action: "@ + decimal_text(r.detections as nat) + " found, "@ + decimal_text(
        r.acted as nat,
    ) + " command(s) sent, "@ + decimal_text(r.skipped as nat) + " skipped, "@ + decimal_text(
        r.full_captures as nat,
    ) + " full capture(s), "@ + decimal_text(r.roi_captures as nat) + " ROI capture(s), capture "@
        + decimal_text(r.capture_ms as nat) + " ms, detect "@ + decimal_text(r.detect_ms as nat)
        + " ms"@ + outcome_suffix(r.outcome)
}

impl BuildingActionReport {
    /// An empty report with the given outcome.
    pub fn new(outcome: BuildingActionOutcome, label: &'static str) -> (r: Self)
        ensures
            r.label == label,
            r.outcome == outcome,
            r.detections == 0,
            r.targets@.len() == 0,
            r.acted == 0,
            r.skipped == 0,
            r.full_captures == 0,
            r.roi_captures == 0,
            r.capture_ms == 0,
            r.detect_ms == 0,
    {
        BuildingActionReport {
            label,
            outcome,
            detections: 0,
            targets: Vec::new(),
            acted: 0,
            skipped: 0,
            full_captures: 0,
            roi_captures: 0,
            capture_ms: 0,
            detect_ms: 0,
        }
    }

    /// A report for a run that never started.
    pub fn failed(detail: &str, label: &'static str) -> (r: Self)
        ensures
            r.label == label,
            r.outcome matches BuildingActionOutcome::Failed { detail: d } && d@ == detail@,
            r.detections == 0,
            r.targets@.len() == 0,
            r.acted == 0,
            r.skipped == 0,
            r.full_captures == 0,
            r.roi_captures == 0,
            r.capture_ms == 0,
            r.detect_ms == 0,
    {
        BuildingActionReport::new(
            BuildingActionOutcome::Failed { detail: String::from_str(detail) },
            label,
        )
    }

    /// English one-line summary; it never claims a building was produced.
    pub fn summary(&self) -> (text: String)
        ensures
            text@ == summary_text(*self),
    {
        let mut t = String::from_str(self.label);
        t.append(" action: ");
        t.append(decimal(self.detections as u128).as_str());
        t.append(" found, ");
        t.append(decimal(self.acted as u128).as_str());
        t.append(" command(s) sent, ");
        t.append(decimal(self.skipped as u128).as_str());
        t.append(" skipped, ");
        t.append(decimal(self.full_captures as u128).as_str());
        t.append(" full capture(s), ");
        t.append(decimal(self.roi_captures as u128).as_str());
        t.append(" ROI capture(s), capture ");
        t.append(decimal(self.capture_ms).as_str());
        t.append(" ms, detect ");
        t.append(decimal(self.detect_ms).as_str());
        t.append(" ms");
        match &self.outcome {
            BuildingActionOutcome::Completed => {},
            BuildingActionOutcome::Cancelled => {
                t.append(" (cancelled)");
            },
            BuildingActionOutcome::Aborted { detail } => {
                t.append(" (aborted: ");
                t.append(detail.as_str());
                t.append(")");
            },
            BuildingActionOutcome::Failed { detail } => {
                t.append(" (failed: ");
                t.append(detail.as_str());
                t.append(")");
            },
        }
        t
    }
}

/// A read-only scan: where one capture and one search found buildings, with
/// timings.
#[derive(Clone, Debug, PartialEq, Eq)]
pub struct BuildingScanReport {
    /// Centres of the detections, in detection order.
    pub centers: Vec<Point>,
    pub count: usize,
    /// Time spent on the one full-screen capture.
    pub capture_ms: u128,
    /// Time spent on the one full-screen detection.
    pub detect_ms: u128,
    /// Full-screen captures performed (always 1 on success).
    pub full_captures: usize,
}

/// Why a scan-only pass produced no trustworthy result. Finding nothing is
/// not an error; these mean the frame itself could not be trusted.
#[derive(Clone, Debug, PartialEq, Eq)]
pub enum BuildingScanError {
    /// Cancelled before or during capture/detection.
    Cancelled,
    /// The adapter could not deliver a capture.
    Adapter(InputError),
    /// A capture arrived but is blank or of an unsupported size/origin.
    Unusable { detail: String },
    /// Unexpected internal failure; nothing was injected.
    Internal { detail: String },
}

/// English rendering of a scan error.
pub open spec fn scan_error_text(e: BuildingScanError) -> Seq<char> {
    match e {
        BuildingScanError::Cancelled => "the scan was cancelled"@,
        BuildingScanError::Adapter(error) => input_error_text(error),
        BuildingScanError::Unusable { detail } => detail@,
        BuildingScanError::Internal { detail } => detail@,
    }
}

impl BuildingScanError {
    /// English rendering.
    pub fn message(&self) -> (text: String)
        ensures
            text@ == scan_error_text(*self),
    {
        match self {
            BuildingScanError::Cancelled => String::from_str("the scan was cancelled"),
            BuildingScanError::Adapter(error) => error.message(),
            BuildingScanError::Unusable { detail } => detail.clone(),
            BuildingScanError::Internal { detail } => detail.clone(),
        }
    }
}

} // verus!
