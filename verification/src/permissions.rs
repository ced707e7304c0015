//! Permission probing report: guidance text for the host.

use vstd::prelude::*;

verus! {

/// Outcome of probing one capability.
#[derive(Debug, Clone, Copy, PartialEq, Eq, Structural)]
pub enum PermissionState {
    Granted,
    Denied,
    Unknown,
}

/// What the host shows the user about microphone and input permissions.
#[derive(Debug, Clone)]
pub struct PermissionReport {
    pub microphone: PermissionState,
    pub accessibility: PermissionState,
    pub guidance: Vec<String>,
}

/// The guidance lines owed for a pair of probe outcomes: one line per
/// denied capability, or a single all-clear line.
pub open spec fn spec_permission_guidance(
    microphone: PermissionState,
    accessibility: PermissionState,
) -> Seq<Seq<char>> {
    let mic: Seq<Seq<char>> = if microphone is Denied {
        seq!["Microphone is unavailable. Connect or enable a recording device."@]
    } else {
        Seq::empty()
    };
    let acc: Seq<Seq<char>> = if accessibility is Denied {
        seq![
            "Accessibility/input simulation appears blocked. Grant automation/accessibility permission."@,
        ]
    } else {
        Seq::empty()
    };
    let both = mic + acc;
    if both.len() == 0 {
        seq!["Permissions look healthy."@]
    } else {
        both
    }
}

/// Assembles the permission report from the two probe outcomes; the probes
/// themselves query the device host and the input synthesizer outside the
/// core.
pub fn check_permissions(microphone: PermissionState, accessibility: PermissionState) -> (r:
    PermissionReport)
    ensures
        r.microphone == microphone,
        r.accessibility == accessibility,
        ({
            let g = spec_permission_guidance(microphone, accessibility);
            r.guidance@.len() == g.len() && forall|i: int|
                0 <= i < g.len() ==> #[trigger] r.guidance@[i]@ == g[i]
        }),
{
    let mut guidance: Vec<String> = Vec::new();
    if matches!(microphone, PermissionState::Denied) {
        guidance.push(
            String::from_str(
                "Microphone is unavailable. Connect or enable a recording device.",
            ),
        );
    }
    if matches!(accessibility, PermissionState::Denied) {
        guidance.push(
            String::from_str(
                "Accessibility/input simulation appears blocked. Grant automation/accessibility permission.",
            ),
        );
    }
    if guidance.len() == 0 {
        guidance.push(String::from_str("Permissions look healthy."));
    }
    PermissionReport { microphone, accessibility, guidance }
}

} // verus!
