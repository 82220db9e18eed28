use vstd::prelude::*;
use crate::error::BootstrapError;

verus! {

/// Bit set in a queue family's capability flags when the family supports
/// graphics operations, matching the driver's encoding of that flag.
pub const GRAPHICS_FLAG: u32 = 1;

/// Capability flags of one queue family, as the driver reports them.
#[derive(Clone, Copy, Debug, PartialEq, Eq, Structural)]
pub struct QueueFamilyDesc {
    pub flags: u32,
}

/// One physical accelerator: its queue families in driver-reported order.
/// A family's position in `families` identifies it when the logical device
/// is opened, so the order must be preserved exactly.
#[derive(Debug, PartialEq, Eq)]
pub struct AcceleratorInfo {
    pub families: Vec<QueueFamilyDesc>,
}

/// The chosen accelerator and queue family, both as indices into the
/// driver-reported enumerations.
#[derive(Clone, Copy, Debug, PartialEq, Eq, Structural)]
pub struct Selection {
    pub device: usize,
    pub family: usize,
}

/// The driver's answer to one presentation-support query.
#[derive(Clone, Copy, Debug, PartialEq, Eq, Structural)]
pub enum ProbeOutcome {
    /// The family can present to the surface.
    Supported,
    /// The family cannot present to the surface.
    NotSupported,
    /// The query itself failed; selection must abort.
    QueryFailed,
}

pub open spec fn graphics_capable(flags: u32) -> bool {
    flags & GRAPHICS_FLAG != 0
}

/// Whether `(d, f)` names a queue family of the enumeration.
pub open spec fn valid_pos(devs: Seq<AcceleratorInfo>, d: int, f: int) -> bool {
    0 <= d < devs.len() && 0 <= f < devs[d].families@.len()
}

/// Whether `(d, f)` names a graphics-capable queue family.
pub open spec fn graphics_at(devs: Seq<AcceleratorInfo>, d: int, f: int) -> bool {
    valid_pos(devs, d, f) && graphics_capable(devs[d].families@[f].flags)
}

/// Driver enumeration order on positions: all families of an earlier
/// accelerator come before every family of a later one.
pub open spec fn pos_lt(d1: int, f1: int, d2: int, f2: int) -> bool {
    d1 < d2 || (d1 == d2 && f1 < f2)
}

pub open spec fn pos_le(d1: int, f1: int, d2: int, f2: int) -> bool {
    pos_lt(d1, f1, d2, f2) || (d1 == d2 && f1 == f2)
}

pub open spec fn family_count(devs: Seq<AcceleratorInfo>, d: int) -> int {
    if 0 <= d < devs.len() {
        devs[d].families@.len() as int
    } else {
        0
    }
}

/// Index of the first graphics-capable family of `fams` at or after `f`.
pub open spec fn first_graphics_in(fams: Seq<QueueFamilyDesc>, f: int) -> Option<int>
    decreases fams.len() - f,
{
    if f < 0 || f >= fams.len() {
        None
    } else if graphics_capable(fams[f].flags) {
        Some(f)
    } else {
        first_graphics_in(fams, f + 1)
    }
}

/// First graphics-capable position at or after `(d, f)` in driver order:
/// the rest of accelerator `d` from family `f` on, then every family of
/// each later accelerator.
pub open spec fn first_graphics_pos(devs: Seq<AcceleratorInfo>, d: int, f: int) -> Option<(int, int)>
    decreases devs.len() - d,
{
    if d < 0 || d >= devs.len() {
        None
    } else {
        match first_graphics_in(devs[d].families@, f) {
            Some(j) => Some((d, j)),
            None => first_graphics_pos(devs, d + 1, 0),
        }
    }
}

pub proof fn lemma_first_graphics_in_spec(fams: Seq<QueueFamilyDesc>, f: int)
    requires
        0 <= f,
    ensures
        match first_graphics_in(fams, f) {
            Some(j) => f <= j < fams.len() && graphics_capable(fams[j].flags)
                && (forall|k: int| f <= k < j ==> !graphics_capable(fams[k].flags)),
            None => forall|k: int| f <= k < fams.len() && 0 <= k ==> !graphics_capable(fams[k].flags),
        },
    decreases fams.len() - f,
{
    if f < 0 || f >= fams.len() {
    } else if graphics_capable(fams[f].flags) {
    } else {
        lemma_first_graphics_in_spec(fams, f + 1);
    }
}

/// `first_graphics_pos` returns the least graphics-capable position at or
/// after the start, in driver order, and `None` exactly when there is none.
pub proof fn lemma_first_graphics_pos_spec(devs: Seq<AcceleratorInfo>, d: int, f: int)
    requires
        0 <= d,
        0 <= f,
    ensures
        match first_graphics_pos(devs, d, f) {
            Some(p) => graphics_at(devs, p.0, p.1) && pos_le(d, f, p.0, p.1)
                && (forall|qd: int, qf: int|
                    graphics_at(devs, qd, qf) && pos_le(d, f, qd, qf) && pos_lt(qd, qf, p.0, p.1)
                        ==> false),
            None => forall|qd: int, qf: int|
                graphics_at(devs, qd, qf) ==> !pos_le(d, f, qd, qf),
        },
    decreases devs.len() - d,
{
    if d >= devs.len() {
    } else {
        lemma_first_graphics_in_spec(devs[d].families@, f);
        match first_graphics_in(devs[d].families@, f) {
            Some(j) => {}
            None => {
                lemma_first_graphics_pos_spec(devs, d + 1, 0);
            }
        }
    }
}

/// Linear search for the first graphics-capable family at or after
/// `(start_device, start_family)` in driver enumeration order.
pub fn find_first_graphics(devs: &Vec<AcceleratorInfo>, start_device: usize, start_family: usize) -> (r: Option<Selection>)
    ensures
        match r {
            Some(sel) => first_graphics_pos(devs@, start_device as int, start_family as int)
                == Some((sel.device as int, sel.family as int)),
            None => first_graphics_pos(devs@, start_device as int, start_family as int) is None,
        },
{
    let mut d: usize = start_device;
    let mut f: usize = start_family;
    while d < devs.len()
        invariant
            first_graphics_pos(devs@, start_device as int, start_family as int)
                == first_graphics_pos(devs@, d as int, f as int),
        decreases devs@.len() - d,
    {
        let fams = &devs[d].families;
        while f < fams.len()
            invariant
                d < devs@.len(),
                fams == devs@[d as int].families,
                first_graphics_pos(devs@, start_device as int, start_family as int)
                    == first_graphics_pos(devs@, d as int, f as int),
            decreases fams@.len() - f,
        {
            if fams[f].flags & GRAPHICS_FLAG != 0 {
                return Some(Selection { device: d, family: f });
            }
            f = f + 1;
        }
        assert(first_graphics_in(devs@[d as int].families@, f as int) is None);
        d = d + 1;
        f = 0;
    }
    None
}

/// The complete selection run, as a function of the enumeration and an
/// oracle giving the driver's answer to each presentation-support query.
/// Positions are visited in driver order; a family is probed only when it
/// is graphics-capable, and the search stops at the first success, the
/// first failing query, or, all positions exhausted, with no device.
pub open spec fn selection_run(
    devs: Seq<AcceleratorInfo>,
    oracle: Map<(int, int), ProbeOutcome>,
    d: int,
    f: int,
) -> Result<(int, int), BootstrapError>
    decreases devs.len() - d, family_count(devs, d) - f,
{
    if d < 0 || d >= devs.len() {
        Err(BootstrapError::NoSuitableDevice)
    } else if f >= devs[d].families@.len() {
        selection_run(devs, oracle, d + 1, 0)
    } else if !graphics_capable(devs[d].families@[f].flags) {
        selection_run(devs, oracle, d, f + 1)
    } else {
        match oracle[(d, f)] {
            ProbeOutcome::Supported => Ok((d, f)),
            ProbeOutcome::NotSupported => selection_run(devs, oracle, d, f + 1),
            ProbeOutcome::QueryFailed => Err(BootstrapError::SurfaceQueryFailed),
        }
    }
}

proof fn lemma_selection_run_selects_from(
    devs: Seq<AcceleratorInfo>,
    oracle: Map<(int, int), ProbeOutcome>,
    d: int,
    f: int,
    sd: int,
    sf: int,
)
    requires
        0 <= d,
        0 <= f,
        pos_le(d, f, sd, sf),
        graphics_at(devs, sd, sf),
        oracle[(sd, sf)] == ProbeOutcome::Supported,
        forall|qd: int, qf: int|
            graphics_at(devs, qd, qf) && pos_le(d, f, qd, qf) && pos_lt(qd, qf, sd, sf)
                ==> oracle[(qd, qf)] == ProbeOutcome::NotSupported,
    ensures
        selection_run(devs, oracle, d, f) == Ok::<(int, int), BootstrapError>((sd, sf)),
    decreases devs.len() - d, family_count(devs, d) - f,
{
    if d >= devs.len() {
        assert(false);
    } else if f >= devs[d].families@.len() {
        lemma_selection_run_selects_from(devs, oracle, d + 1, 0, sd, sf);
    } else if !graphics_capable(devs[d].families@[f].flags) {
        lemma_selection_run_selects_from(devs, oracle, d, f + 1, sd, sf);
    } else if d == sd && f == sf {
    } else {
        assert(graphics_at(devs, d, f));
        assert(oracle[(d, f)] == ProbeOutcome::NotSupported);
        lemma_selection_run_selects_from(devs, oracle, d, f + 1, sd, sf);
    }
}

/// First-match selection: if `(sd, sf)` names a graphics-capable family
/// whose presentation probe succeeds, and the probe of every
/// graphics-capable family before it in driver order answers "not
/// supported", the run selects exactly `(sd, sf)` — never a later family
/// or accelerator, however many of those would also qualify.
pub proof fn lemma_selection_first_match(
    devs: Seq<AcceleratorInfo>,
    oracle: Map<(int, int), ProbeOutcome>,
    sd: int,
    sf: int,
)
    requires
        graphics_at(devs, sd, sf),
        oracle[(sd, sf)] == ProbeOutcome::Supported,
        forall|qd: int, qf: int|
            graphics_at(devs, qd, qf) && pos_lt(qd, qf, sd, sf)
                ==> oracle[(qd, qf)] == ProbeOutcome::NotSupported,
    ensures
        selection_run(devs, oracle, 0, 0) == Ok::<(int, int), BootstrapError>((sd, sf)),
{
    lemma_selection_run_selects_from(devs, oracle, 0, 0, sd, sf);
}

proof fn lemma_selection_run_exhausts_from(
    devs: Seq<AcceleratorInfo>,
    oracle: Map<(int, int), ProbeOutcome>,
    d: int,
    f: int,
)
    requires
        0 <= d,
        0 <= f,
        forall|qd: int, qf: int|
            graphics_at(devs, qd, qf) && pos_le(d, f, qd, qf)
                ==> oracle[(qd, qf)] == ProbeOutcome::NotSupported,
    ensures
        selection_run(devs, oracle, d, f) == Err::<(int, int), BootstrapError>(
            BootstrapError::NoSuitableDevice,
        ),
    decreases devs.len() - d, family_count(devs, d) - f,
{
    if d >= devs.len() {
    } else if f >= devs[d].families@.len() {
        lemma_selection_run_exhausts_from(devs, oracle, d + 1, 0);
    } else if !graphics_capable(devs[d].families@[f].flags) {
        lemma_selection_run_exhausts_from(devs, oracle, d, f + 1);
    } else {
        assert(graphics_at(devs, d, f));
        lemma_selection_run_exhausts_from(devs, oracle, d, f + 1);
    }
}

/// If no accelerator offers a family that is both graphics-capable and
/// able to present — every graphics-capable family's probe answers "not
/// supported" — the run fails with `NoSuitableDevice`.  Ending in an
/// error, it never produces a selection for a device-open step.
pub proof fn lemma_no_suitable_device(
    devs: Seq<AcceleratorInfo>,
    oracle: Map<(int, int), ProbeOutcome>,
)
    requires
        forall|qd: int, qf: int|
            graphics_at(devs, qd, qf) ==> oracle[(qd, qf)] == ProbeOutcome::NotSupported,
    ensures
        selection_run(devs, oracle, 0, 0) == Err::<(int, int), BootstrapError>(
            BootstrapError::NoSuitableDevice,
        ),
{
    lemma_selection_run_exhausts_from(devs, oracle, 0, 0);
}

proof fn lemma_selection_run_aborts_from(
    devs: Seq<AcceleratorInfo>,
    oracle: Map<(int, int), ProbeOutcome>,
    d: int,
    f: int,
    pd: int,
    pf: int,
)
    requires
        0 <= d,
        0 <= f,
        pos_le(d, f, pd, pf),
        graphics_at(devs, pd, pf),
        oracle[(pd, pf)] == ProbeOutcome::QueryFailed,
        forall|qd: int, qf: int|
            graphics_at(devs, qd, qf) && pos_le(d, f, qd, qf) && pos_lt(qd, qf, pd, pf)
                ==> oracle[(qd, qf)] == ProbeOutcome::NotSupported,
    ensures
        selection_run(devs, oracle, d, f) == Err::<(int, int), BootstrapError>(
            BootstrapError::SurfaceQueryFailed,
        ),
    decreases devs.len() - d, family_count(devs, d) - f,
{
    if d >= devs.len() {
        assert(false);
    } else if f >= devs[d].families@.len() {
        lemma_selection_run_aborts_from(devs, oracle, d + 1, 0, pd, pf);
    } else if !graphics_capable(devs[d].families@[f].flags) {
        lemma_selection_run_aborts_from(devs, oracle, d, f + 1, pd, pf);
    } else if d == pd && f == pf {
    } else {
        assert(graphics_at(devs, d, f));
        assert(oracle[(d, f)] == ProbeOutcome::NotSupported);
        lemma_selection_run_aborts_from(devs, oracle, d, f + 1, pd, pf);
    }
}

/// A failing presentation-support query aborts the whole selection: if
/// the run reaches the probe of `(pd, pf)` — every graphics-capable
/// family before it answered "not supported" — and that probe fails, the
/// result is `SurfaceQueryFailed`, even though a later family might have
/// qualified.
pub proof fn lemma_query_failure_aborts(
    devs: Seq<AcceleratorInfo>,
    oracle: Map<(int, int), ProbeOutcome>,
    pd: int,
    pf: int,
)
    requires
        graphics_at(devs, pd, pf),
        oracle[(pd, pf)] == ProbeOutcome::QueryFailed,
        forall|qd: int, qf: int|
            graphics_at(devs, qd, qf) && pos_lt(qd, qf, pd, pf)
                ==> oracle[(qd, qf)] == ProbeOutcome::NotSupported,
    ensures
        selection_run(devs, oracle, 0, 0) == Err::<(int, int), BootstrapError>(
            BootstrapError::SurfaceQueryFailed,
        ),
{
    lemma_selection_run_aborts_from(devs, oracle, 0, 0, pd, pf);
}

proof fn lemma_selection_sound_from(
    devs: Seq<AcceleratorInfo>,
    oracle: Map<(int, int), ProbeOutcome>,
    d: int,
    f: int,
)
    requires
        0 <= d,
        0 <= f,
    ensures
        selection_run(devs, oracle, d, f) matches Ok(p) ==> {
            &&& graphics_at(devs, p.0, p.1)
            &&& oracle[p] == ProbeOutcome::Supported
            &&& pos_le(d, f, p.0, p.1)
            &&& forall|qd: int, qf: int|
                graphics_at(devs, qd, qf) && pos_le(d, f, qd, qf) && pos_lt(qd, qf, p.0, p.1)
                    ==> oracle[(qd, qf)] == ProbeOutcome::NotSupported
        },
    decreases devs.len() - d, family_count(devs, d) - f,
{
    if d >= devs.len() {
    } else if f >= devs[d].families@.len() {
        lemma_selection_sound_from(devs, oracle, d + 1, 0);
    } else if !graphics_capable(devs[d].families@[f].flags) {
        lemma_selection_sound_from(devs, oracle, d, f + 1);
    } else {
        match oracle[(d, f)] {
            ProbeOutcome::Supported => {}
            ProbeOutcome::NotSupported => {
                lemma_selection_sound_from(devs, oracle, d, f + 1);
            }
            ProbeOutcome::QueryFailed => {}
        }
    }
}

/// Whatever the oracle answers, a run that succeeds returns a
/// graphics-capable family whose probe succeeded, with every
/// graphics-capable family before it answering "not supported": a
/// successful result is always the first satisfying pair.
pub proof fn lemma_selection_sound(
    devs: Seq<AcceleratorInfo>,
    oracle: Map<(int, int), ProbeOutcome>,
)
    ensures
        selection_run(devs, oracle, 0, 0) matches Ok(p) ==> {
            &&& graphics_at(devs, p.0, p.1)
            &&& oracle[p] == ProbeOutcome::Supported
            &&& forall|qd: int, qf: int|
                graphics_at(devs, qd, qf) && pos_lt(qd, qf, p.0, p.1)
                    ==> oracle[(qd, qf)] == ProbeOutcome::NotSupported
        },
{
    lemma_selection_sound_from(devs, oracle, 0, 0);
}

/// One probe round of the run, phrased over `first_graphics_pos`: the run
/// either fails for want of any graphics-capable family, or probes
/// exactly the first one and continues by the driver's answer.  This is
/// the shape in which the bootstrap step machine advances the selection.
pub proof fn lemma_selection_run_unfold(
    devs: Seq<AcceleratorInfo>,
    oracle: Map<(int, int), ProbeOutcome>,
    d: int,
    f: int,
)
    requires
        0 <= d,
        0 <= f,
    ensures
        match first_graphics_pos(devs, d, f) {
            None => selection_run(devs, oracle, d, f) == Err::<(int, int), BootstrapError>(
                BootstrapError::NoSuitableDevice,
            ),
            Some(p) => selection_run(devs, oracle, d, f) == (match oracle[p] {
                ProbeOutcome::Supported => Ok::<(int, int), BootstrapError>(p),
                ProbeOutcome::NotSupported => selection_run(devs, oracle, p.0, p.1 + 1),
                ProbeOutcome::QueryFailed => Err::<(int, int), BootstrapError>(
                    BootstrapError::SurfaceQueryFailed,
                ),
            }),
        },
    decreases devs.len() - d, family_count(devs, d) - f,
{
    if d >= devs.len() {
    } else if f >= devs[d].families@.len() {
        lemma_selection_run_unfold(devs, oracle, d + 1, 0);
    } else if !graphics_capable(devs[d].families@[f].flags) {
        lemma_selection_run_unfold(devs, oracle, d, f + 1);
    } else {
    }
}

} // verus!
