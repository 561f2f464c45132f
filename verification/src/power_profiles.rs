//! The battery popover's power-profile list.
use vstd::prelude::*;

use crate::text::{eq_str, kept_positions, lemma_kept_positions_step};

verus! {

/// The power profiles the system offers and the one in use.
#[derive(Debug, Clone, PartialEq, Eq)]
pub struct PowerProfiles {
    pub available: Vec<String>,
    pub active: String,
}

/// One row of the profile list.
#[derive(Debug, Clone, PartialEq, Eq)]
pub struct PowerProfileRowView {
    pub profile: String,
    pub display: &'static str,
    pub active: bool,
}

/// The icon of a profile; an unknown profile looks balanced.
pub open spec fn profile_icon_name(profile: Seq<char>) -> Seq<char> {
    if profile == "power-saver"@ {
        "power-profile-power-saver-symbolic"@
    } else if profile == "performance"@ {
        "power-profile-performance-symbolic"@
    } else {
        "power-profile-balanced-symbolic"@
    }
}

/// The name shown for a profile.
pub open spec fn profile_name(profile: Seq<char>) -> Seq<char> {
    if profile == "power-saver"@ {
        "Power Saver"@
    } else if profile == "balanced"@ {
        "Balanced"@
    } else if profile == "performance"@ {
        "Performance"@
    } else {
        "Unknown"@
    }
}

/// The icon of a profile.
pub fn profile_icon(profile: &str) -> (out: &'static str)
    ensures
        out@ == profile_icon_name(profile@),
{
    if eq_str(profile, "power-saver") {
        "power-profile-power-saver-symbolic"
    } else if eq_str(profile, "performance") {
        "power-profile-performance-symbolic"
    } else {
        "power-profile-balanced-symbolic"
    }
}

/// The name shown for a profile.
pub fn profile_display_name(profile: &str) -> (out: &'static str)
    ensures
        out@ == profile_name(profile@),
{
    if eq_str(profile, "power-saver") {
        "Power Saver"
    } else if eq_str(profile, "balanced") {
        "Balanced"
    } else if eq_str(profile, "performance") {
        "Performance"
    } else {
        "Unknown"
    }
}

/// A profile gets a row when it has a name.
pub open spec fn profile_keep() -> spec_fn(String) -> bool {
    |p: String| p@.len() > 0
}

/// The profile rows: one for each named profile, in order, the active one marked.
pub fn build_profile_rows(profiles: &PowerProfiles) -> (out: Vec<PowerProfileRowView>)
    ensures
        out.len() == kept_positions(profiles.available@, profile_keep()).len(),
        forall|k: int|
            0 <= k < out.len() ==> {
                let p = profiles.available@[kept_positions(profiles.available@, profile_keep())[k]];
                &&& (#[trigger] out@[k]).profile == p
                &&& out@[k].display@ == profile_name(p@)
                &&& out@[k].active == (p@ == profiles.active@)
            },
{
    let ghost all = profiles.available@;
    let mut out: Vec<PowerProfileRowView> = Vec::new();
    let mut i: usize = 0;
    while i < profiles.available.len()
        invariant
            i <= profiles.available.len(),
            all == profiles.available@,
            out.len() == kept_positions(all.take(i as int), profile_keep()).len(),
            forall|k: int|
                0 <= k < out.len() ==> {
                    let p = all[kept_positions(all.take(i as int), profile_keep())[k]];
                    &&& (#[trigger] out@[k]).profile == p
                    &&& out@[k].display@ == profile_name(p@)
                    &&& out@[k].active == (p@ == profiles.active@)
                },
        decreases profiles.available.len() - i,
    {
        proof {
            lemma_kept_positions_step(all, i as int, profile_keep());
        }
        let name = &profiles.available[i];
        if !name.as_str().is_empty() {
            out.push(
                PowerProfileRowView {
                    profile: name.clone(),
                    display: profile_display_name(name.as_str()),
                    active: eq_str(name.as_str(), profiles.active.as_str()),
                },
            );
        }
        i += 1;
    }
    proof {
        assert(all.take(profiles.available.len() as int) =~= all);
    }
    out
}

} // verus!
