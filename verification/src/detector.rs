//! Choosing which form of the worker to launch.  The surrounding
//! application probes a fixed, ordered list of candidate filesystem
//! locations relative to its own executable and hands the results here; the
//! choice of the first match, and the last-resort fallback, are verified.

use vstd::prelude::*;

verus! {

/// How the worker is launched: an interpreter running a development
/// script, or a packaged executable.
#[derive(Debug, Clone)]
pub enum DaemonMode {
    Development { script_path: String },
    Production { executable_path: String },
}

/// One probed filesystem location.
#[derive(Debug, Clone)]
pub struct DaemonCandidate {
    /// The candidate path.
    pub path: String,
    /// Whether the probe found it.
    pub exists: bool,
}

/// The position of the first candidate the probe found.
pub open spec fn spec_first_existing(cs: Seq<DaemonCandidate>) -> Option<int>
    decreases cs.len(),
{
    if cs.len() == 0 {
        None
    } else if cs[0].exists {
        Some(0)
    } else {
        match spec_first_existing(cs.drop_first()) {
            None => None,
            Some(i) => Some(i + 1),
        }
    }
}

/// A found position is always in range and names an existing candidate.
pub proof fn lemma_first_existing_in_range(cs: Seq<DaemonCandidate>)
    requires
        spec_first_existing(cs) is Some,
    ensures
        ({
            let i = spec_first_existing(cs)->Some_0;
            0 <= i < cs.len() && cs[i].exists
        }),
    decreases cs.len(),
{
    if cs.len() > 0 && !cs[0].exists {
        lemma_first_existing_in_range(cs.drop_first());
    }
}

proof fn lemma_first_existing_found(cs: Seq<DaemonCandidate>, i: int)
    requires
        0 <= i < cs.len(),
        forall|k: int| 0 <= k < i ==> !(#[trigger] cs[k]).exists,
        cs[i].exists,
    ensures
        spec_first_existing(cs) == Some(i),
    decreases i,
{
    if i > 0 {
        let rest = cs.drop_first();
        assert forall|k: int| 0 <= k < i - 1 implies !(#[trigger] rest[k]).exists by {
            assert(rest[k] == cs[k + 1]);
        }
        assert(rest[i - 1] == cs[i]);
        lemma_first_existing_found(rest, i - 1);
    }
}

proof fn lemma_first_existing_none(cs: Seq<DaemonCandidate>)
    requires
        forall|k: int| 0 <= k < cs.len() ==> !(#[trigger] cs[k]).exists,
    ensures
        spec_first_existing(cs) is None,
    decreases cs.len(),
{
    if cs.len() > 0 {
        let rest = cs.drop_first();
        assert forall|k: int| 0 <= k < rest.len() implies !(#[trigger] rest[k]).exists by {
            assert(rest[k] == cs[k + 1]);
        }
        lemma_first_existing_none(rest);
    }
}

/// The first candidate the probe found, if any.
pub fn first_existing(cs: &Vec<DaemonCandidate>) -> (r: Option<usize>)
    ensures
        r matches Some(i) ==> spec_first_existing(cs@) == Some(i as int) && i < cs@.len(),
        r is None ==> spec_first_existing(cs@) is None,
{
    let n = cs.len();
    let mut i: usize = 0;
    while i < n
        invariant
            n == cs@.len(),
            0 <= i <= n,
            forall|k: int| 0 <= k < i ==> !(#[trigger] cs@[k]).exists,
        decreases n - i,
    {
        if cs[i].exists {
            proof {
                lemma_first_existing_found(cs@, i as int);
            }
            return Some(i);
        }
        i = i + 1;
    }
    proof {
        lemma_first_existing_none(cs@);
    }
    None
}

/// Choose how to launch the worker.  In development the script locations
/// take precedence; then any packaged executable; outside development the
/// script locations are probed again as a fallback; and with nothing found
/// at all, the last-resort script path is chosen so the subsequent spawn
/// attempt produces a descriptive error rather than a silent no-op.
pub fn detect_daemon_mode(
    is_dev_mode: bool,
    dev_scripts: &Vec<DaemonCandidate>,
    sidecars: &Vec<DaemonCandidate>,
    fallback_script: String,
) -> (r: DaemonMode)
    ensures
        ({
            let dev = spec_first_existing(dev_scripts@);
            let side = spec_first_existing(sidecars@);
            if is_dev_mode && dev is Some {
                r == (DaemonMode::Development { script_path: dev_scripts@[dev->Some_0].path })
            } else if side is Some {
                r == (DaemonMode::Production { executable_path: sidecars@[side->Some_0].path })
            } else if !is_dev_mode && dev is Some {
                r == (DaemonMode::Development { script_path: dev_scripts@[dev->Some_0].path })
            } else {
                r == (DaemonMode::Development { script_path: fallback_script })
            }
        }),
{
    if is_dev_mode {
        if let Some(i) = first_existing(dev_scripts) {
            return DaemonMode::Development { script_path: dev_scripts[i].path.clone() };
        }
    }
    if let Some(i) = first_existing(sidecars) {
        return DaemonMode::Production { executable_path: sidecars[i].path.clone() };
    }
    if !is_dev_mode {
        if let Some(i) = first_existing(dev_scripts) {
            return DaemonMode::Development { script_path: dev_scripts[i].path.clone() };
        }
    }
    DaemonMode::Development { script_path: fallback_script }
}

} // verus!
