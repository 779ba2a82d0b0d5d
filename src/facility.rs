use vstd::prelude::*;
use crate::branch::Branch;
use crate::component::{FluidComponent, static_in_range};

verus! {

/// Bound on the net flow at a balance point where every open branch has
/// friction, in mg/s: one mg/s per open branch.
pub const MAX_NET_FLOW_AT_BALANCE: i64 = 3;

/// Half-width of the pressure bracket searched for the loop's balance point:
/// fifty kilopascals, in mPa.
pub const PRESSURE_BRACKET: i64 = 50_000_000;

/// Why the loop could not be set up or solved.
#[derive(Debug, Clone, Copy, PartialEq, Eq, Structural)]
pub enum FacilityError {
    /// The pump's index is not a component of the CTAH branch.
    InvalidPumpIndex,
    /// The pump pressure is beyond the admitted static range.
    PumpPressureOutOfRange,
    /// The net flow does not change sign over the pressure bracket.
    NoSignChange,
    /// At the balance point an open branch's flow lies outside the flow
    /// bracket.
    BranchOutOfRange,
}

/// Shared pressure change and the three branch flows of one solve.
#[derive(Debug, Clone, Copy, PartialEq, Eq, Structural)]
pub struct SolveResult {
    /// Pressure change shared by the three branches (mPa).
    pub pressure_change: i64,
    pub ctah_branch_mass_flowrate: i64,
    pub heater_branch_mass_flowrate: i64,
    pub dhx_branch_mass_flowrate: i64,
}

/// The primary loop in isothermal operation: the CTAH, heater and DHX
/// branches in parallel. The CTAH branch carries the pump; the DHX branch
/// carries a check valve that blocks reverse flow.
#[derive(Debug, Clone)]
pub struct CIETIsothermalFacility {
    pub ctah_branch: Branch,
    pub heater_branch: Branch,
    pub dhx_branch: Branch,
    /// Position of the pump within the CTAH branch.
    pub pump_index: usize,
    pub ctah_pump_pressure: i64,
    pub ctah_valve_open: bool,
    pub heater_valve_open: bool,
    pub dhx_valve_open: bool,
    /// Flows of the last successful solve (mg/s).
    pub ctah_branch_mass_flowrate: i64,
    pub heater_branch_mass_flowrate: i64,
    pub dhx_branch_mass_flowrate: i64,
}

impl CIETIsothermalFacility {
    pub open spec fn wf(&self) -> bool {
        &&& self.ctah_branch.wf()
        &&& self.heater_branch.wf()
        &&& self.dhx_branch.wf()
        &&& self.pump_index < self.ctah_branch.components@.len()
        &&& static_in_range(self.ctah_pump_pressure as int)
        &&& self.ctah_branch.components@[self.pump_index as int].internal_pressure_source
            == self.ctah_pump_pressure
    }

    /// Zero-flow pressure change of the heater branch: the centre of the
    /// pressure bracket.
    pub open spec fn reference_pressure(&self) -> int {
        self.heater_branch.change_spec(0)
    }

    pub open spec fn lower_bound(&self) -> int {
        self.reference_pressure() - PRESSURE_BRACKET
    }

    pub open spec fn upper_bound(&self) -> int {
        self.reference_pressure() + PRESSURE_BRACKET
    }

    /// Zero-flow pressure change of the DHX branch: above it the branch
    /// would flow backwards.
    pub open spec fn dhx_hydrostatic(&self) -> int {
        self.dhx_branch.change_spec(0)
    }

    /// The check valve closes the DHX branch above its hydrostatic pressure.
    pub open spec fn check_valve_shut(&self, p: int) -> bool {
        p > self.dhx_hydrostatic()
    }

    pub open spec fn ctah_flow(&self, p: int) -> int {
        if self.ctah_valve_open {
            self.ctah_branch.flow_at(p)
        } else {
            0
        }
    }

    pub open spec fn heater_flow(&self, p: int) -> int {
        if self.heater_valve_open {
            self.heater_branch.flow_at(p)
        } else {
            0
        }
    }

    pub open spec fn dhx_flow(&self, p: int) -> int {
        if self.dhx_valve_open && !self.check_valve_shut(p) {
            self.dhx_branch.flow_at(p)
        } else {
            0
        }
    }

    /// Net flow out of the shared node at pressure change `p`: zero when mass
    /// is conserved.
    pub open spec fn residual(&self, p: int) -> int {
        self.ctah_flow(p) + self.heater_flow(p) + self.dhx_flow(p)
    }

    pub open spec fn all_closed(&self) -> bool {
        !self.ctah_valve_open && !self.heater_valve_open && !self.dhx_valve_open
    }

    /// The net flow changes sign over the pressure bracket.
    pub open spec fn has_sign_change(&self) -> bool {
        self.residual(self.lower_bound()) >= 0 && self.residual(self.upper_bound()) <= 0
    }

    /// `p` is where the net flow, which falls as the pressure change rises,
    /// crosses zero: the lowest pressure change in the bracket at which it is
    /// not positive.
    pub open spec fn is_balance_point(&self, p: int) -> bool {
        &&& self.lower_bound() <= p <= self.upper_bound()
        &&& self.residual(p) <= 0
        &&& (p == self.lower_bound() || self.residual(p - 1) > 0)
    }

    /// Every open branch that flows at `p` does so within the flow bracket.
    pub open spec fn flows_in_bracket(&self, p: int) -> bool {
        &&& self.ctah_valve_open ==> self.ctah_branch.reachable(p)
        &&& self.heater_valve_open ==> self.heater_branch.reachable(p)
        &&& (self.dhx_valve_open && !self.check_valve_shut(p)) ==> self.dhx_branch.reachable(p)
    }

    /// Every open branch has friction of at least one pascal per kilogram
    /// per second.
    pub open spec fn open_branches_have_friction(&self) -> bool {
        &&& self.ctah_valve_open ==> self.ctah_branch.has_friction()
        &&& self.heater_valve_open ==> self.heater_branch.has_friction()
        &&& self.dhx_valve_open ==> self.dhx_branch.has_friction()
    }

    /// The result holds the pressure `p` and the three flows at `p`.
    pub open spec fn result_at(&self, r: SolveResult, p: int) -> bool {
        &&& r.pressure_change == p
        &&& r.ctah_branch_mass_flowrate == self.ctah_flow(p)
        &&& r.heater_branch_mass_flowrate == self.heater_flow(p)
        &&& r.dhx_branch_mass_flowrate == self.dhx_flow(p)
    }

    /// Builds the loop from its three branches and the pump's position in
    /// the CTAH branch, with all valves open, no flow recorded, and the pump
    /// reset to no pressure whatever source its component held.
    pub fn new(
        ctah_branch: Branch,
        heater_branch: Branch,
        dhx_branch: Branch,
        pump_index: usize,
    ) -> (r: Result<CIETIsothermalFacility, FacilityError>)
        requires
            ctah_branch.wf(),
            heater_branch.wf(),
            dhx_branch.wf(),
        ensures
            r is Ok <==> pump_index < ctah_branch.components@.len(),
            r is Err ==> r->Err_0 == FacilityError::InvalidPumpIndex,
            r is Ok ==> ({
                let f = r->Ok_0;
                &&& f.wf()
                &&& f.ctah_branch.components@ == ctah_branch.components@.update(
                    pump_index as int,
                    FluidComponent {
                        internal_pressure_source: 0,
                        ..ctah_branch.components@[pump_index as int]
                    },
                )
                &&& f.heater_branch.components@ == heater_branch.components@
                &&& f.dhx_branch.components@ == dhx_branch.components@
                &&& f.pump_index == pump_index
                &&& f.ctah_valve_open && f.heater_valve_open && f.dhx_valve_open
                &&& f.ctah_pump_pressure == 0
                &&& f.ctah_branch_mass_flowrate == 0
                &&& f.heater_branch_mass_flowrate == 0
                &&& f.dhx_branch_mass_flowrate == 0
            }),
    {
        if pump_index >= ctah_branch.components.len() {
            return Err(FacilityError::InvalidPumpIndex);
        }
        let mut ctah_branch = ctah_branch;
        let ghost before = ctah_branch.components@;
        assert(before[pump_index as int].wf());
        let mut pump = ctah_branch.components[pump_index];
        pump.set_internal_pressure_source(0);
        ctah_branch.components.set(pump_index, pump);
        proof {
            let s = ctah_branch.components@;
            assert forall|k: int| 0 <= k < s.len() implies #[trigger] s[k].wf() by {
                if k != pump_index {
                    assert(s[k] == before[k]);
                } else {
                    assert(s[k] == pump);
                }
            }
        }
        Ok(
            CIETIsothermalFacility {
                ctah_branch,
                heater_branch,
                dhx_branch,
                pump_index,
                ctah_pump_pressure: 0,
                ctah_valve_open: true,
                heater_valve_open: true,
                dhx_valve_open: true,
                ctah_branch_mass_flowrate: 0,
                heater_branch_mass_flowrate: 0,
                dhx_branch_mass_flowrate: 0,
            },
        )
    }

    /// `g` is this loop with the pump set to `pressure`: the pump
    /// component's source and the recorded pump pressure change, nothing
    /// else does.
    pub open spec fn pump_set_to(&self, g: CIETIsothermalFacility, pressure: i64) -> bool {
        let i = self.pump_index as int;
        &&& g.ctah_branch.components@ == self.ctah_branch.components@.update(
            i,
            FluidComponent { internal_pressure_source: pressure, ..self.ctah_branch.components@[i] },
        )
        &&& g.heater_branch == self.heater_branch
        &&& g.dhx_branch == self.dhx_branch
        &&& g.pump_index == self.pump_index
        &&& g.ctah_pump_pressure == pressure
        &&& g.ctah_valve_open == self.ctah_valve_open
        &&& g.heater_valve_open == self.heater_valve_open
        &&& g.dhx_valve_open == self.dhx_valve_open
        &&& g.ctah_branch_mass_flowrate == self.ctah_branch_mass_flowrate
        &&& g.heater_branch_mass_flowrate == self.heater_branch_mass_flowrate
        &&& g.dhx_branch_mass_flowrate == self.dhx_branch_mass_flowrate
    }

    pub fn get_ctah_pump_pressure(&self) -> (r: i64)
        ensures
            r == self.ctah_pump_pressure,
    {
        self.ctah_pump_pressure
    }

    /// Sets the pump's pressure (mPa); it takes effect at the next solve.
    pub fn set_ctah_pump_pressure(&mut self, pressure: i64) -> (r: Result<(), FacilityError>)
        requires
            old(self).wf(),
        ensures
            final(self).wf(),
            r is Ok <==> static_in_range(pressure as int),
            r is Ok ==> old(self).pump_set_to(*final(self), pressure),
            r is Err ==> r->Err_0 == FacilityError::PumpPressureOutOfRange && *final(self)
                == *old(self),
    {
        if pressure < -crate::component::MAX_STATIC_PRESSURE || pressure
            > crate::component::MAX_STATIC_PRESSURE {
            return Err(FacilityError::PumpPressureOutOfRange);
        }
        let i = self.pump_index;
        assert(self.ctah_branch.components@[i as int].wf());
        let mut pump = self.ctah_branch.components[i];
        pump.set_internal_pressure_source(pressure);
        self.ctah_branch.components.set(i, pump);
        self.ctah_pump_pressure = pressure;
        proof {
            let s = self.ctah_branch.components@;
            assert forall|k: int| 0 <= k < s.len() implies #[trigger] s[k].wf() by {
                if k != i {
                    assert(s[k] == old(self).ctah_branch.components@[k]);
                } else {
                    assert(s[k] == pump);
                }
            }
        }
        Ok(())
    }

    /// Opens or closes each branch's valve.
    pub fn set_valve_states(&mut self, ctah_open: bool, heater_open: bool, dhx_open: bool)
        requires
            old(self).wf(),
        ensures
            *final(self) == (CIETIsothermalFacility {
                ctah_valve_open: ctah_open,
                heater_valve_open: heater_open,
                dhx_valve_open: dhx_open,
                ..*old(self)
            }),
            final(self).wf(),
    {
        self.ctah_valve_open = ctah_open;
        self.heater_valve_open = heater_open;
        self.dhx_valve_open = dhx_open;
    }

    pub fn get_ctah_branch_mass_flowrate(&self) -> (r: i64)
        ensures
            r == self.ctah_branch_mass_flowrate,
    {
        self.ctah_branch_mass_flowrate
    }

    pub fn get_heater_branch_mass_flowrate(&self) -> (r: i64)
        ensures
            r == self.heater_branch_mass_flowrate,
    {
        self.heater_branch_mass_flowrate
    }

    pub fn get_dhx_branch_mass_flowrate(&self) -> (r: i64)
        ensures
            r == self.dhx_branch_mass_flowrate,
    {
        self.dhx_branch_mass_flowrate
    }

    /// Net flow out of the shared node at pressure change `p`, with closed
    /// branches carrying nothing and the check valve applied.
    fn net_flow(&self, p: i64) -> (r: i64)
        requires
            self.wf(),
        ensures
            r == self.residual(p as int),
    {
        let ctah: i64 = if self.ctah_valve_open {
            self.ctah_branch.flow_at_pressure_change(p)
        } else {
            0
        };
        let heater: i64 = if self.heater_valve_open {
            self.heater_branch.flow_at_pressure_change(p)
        } else {
            0
        };
        let dhx_hydrostatic = self.dhx_branch.get_pressure_change(0);
        let dhx: i64 = if self.dhx_valve_open && p <= dhx_hydrostatic {
            self.dhx_branch.flow_at_pressure_change(p)
        } else {
            0
        };
        ctah + heater + dhx
    }

    /// Solves the loop: finds by bisection over fifty kilopascals either
    /// side of the heater branch's zero-flow pressure change the pressure
    /// change at which the net flow crosses zero, then the three flows
    /// there, and keeps them. With every valve closed nothing flows and
    /// no search is made.
    pub fn calculate(&mut self) -> (r: Result<SolveResult, FacilityError>)
        requires
            old(self).wf(),
        ensures
            final(self).wf(),
            old(self).all_closed() ==> r == Ok::<SolveResult, FacilityError>(
                (SolveResult {
                    pressure_change: old(self).reference_pressure() as i64,
                    ctah_branch_mass_flowrate: 0,
                    heater_branch_mass_flowrate: 0,
                    dhx_branch_mass_flowrate: 0,
                }),
            ),
            !old(self).all_closed() && !old(self).has_sign_change() ==> r == Err::<
                SolveResult,
                FacilityError,
            >(FacilityError::NoSignChange),
            !old(self).all_closed() && old(self).has_sign_change() ==> (r is Ok || r == Err::<
                SolveResult,
                FacilityError,
            >(FacilityError::BranchOutOfRange)),
            !old(self).all_closed() && r is Ok ==> old(self).is_balance_point(
                r->Ok_0.pressure_change as int,
            ) && old(self).flows_in_bracket(r->Ok_0.pressure_change as int) && old(self).result_at(
                r->Ok_0,
                r->Ok_0.pressure_change as int,
            ),
            r == Err::<SolveResult, FacilityError>(FacilityError::BranchOutOfRange) ==> exists|
                p: int,
            |
                old(self).is_balance_point(p) && !old(self).flows_in_bracket(p),
            r is Ok ==> *final(self) == (CIETIsothermalFacility {
                ctah_branch_mass_flowrate: r->Ok_0.ctah_branch_mass_flowrate,
                heater_branch_mass_flowrate: r->Ok_0.heater_branch_mass_flowrate,
                dhx_branch_mass_flowrate: r->Ok_0.dhx_branch_mass_flowrate,
                ..*old(self)
            }),
            r is Err ==> *final(self) == *old(self),
            r is Ok ==> r->Ok_0.ctah_branch_mass_flowrate + r->Ok_0.heater_branch_mass_flowrate
                + r->Ok_0.dhx_branch_mass_flowrate <= 0,
            r is Ok && old(self).check_valve_shut(r->Ok_0.pressure_change as int)
                ==> r->Ok_0.dhx_branch_mass_flowrate == 0,
            r is Ok && !old(self).dhx_valve_open ==> r->Ok_0.dhx_branch_mass_flowrate == 0,
            r is Ok && old(self).open_branches_have_friction() ==> -MAX_NET_FLOW_AT_BALANCE
                <= r->Ok_0.ctah_branch_mass_flowrate + r->Ok_0.heater_branch_mass_flowrate
                + r->Ok_0.dhx_branch_mass_flowrate,
            r is Ok && !old(self).dhx_valve_open && old(self).open_branches_have_friction()
                ==> -MAX_NET_FLOW_AT_BALANCE <= r->Ok_0.ctah_branch_mass_flowrate
                + r->Ok_0.heater_branch_mass_flowrate <= 0,
    {
        proof {
            crate::branch::lemma_sum_change_bounds(self.heater_branch.components@, 0);
        }
        let reference = self.heater_branch.get_pressure_change(0);
        if !self.ctah_valve_open && !self.heater_valve_open && !self.dhx_valve_open {
            self.ctah_branch_mass_flowrate = 0;
            self.heater_branch_mass_flowrate = 0;
            self.dhx_branch_mass_flowrate = 0;
            return Ok(
                SolveResult {
                    pressure_change: reference,
                    ctah_branch_mass_flowrate: 0,
                    heater_branch_mass_flowrate: 0,
                    dhx_branch_mass_flowrate: 0,
                },
            );
        }
        let lower: i64 = reference - PRESSURE_BRACKET;
        let upper: i64 = reference + PRESSURE_BRACKET;
        let lower_residual = self.net_flow(lower);
        let upper_residual = self.net_flow(upper);
        if lower_residual < 0 || upper_residual > 0 {
            return Err(FacilityError::NoSignChange);
        }
        let mut p: i64 = lower;
        if lower_residual > 0 {
            let mut lo: i64 = lower;
            let mut hi: i64 = upper;
            while hi - lo > 1
                invariant
                    self.wf(),
                    lower <= lo < hi <= upper,
                    lower == self.lower_bound(),
                    upper == self.upper_bound(),
                    self.residual(lo as int) > 0,
                    self.residual(hi as int) <= 0,
                decreases hi - lo,
            {
                let mid: i64 = lo + (hi - lo) / 2;
                let g = self.net_flow(mid);
                if g > 0 {
                    lo = mid;
                } else {
                    hi = mid;
                }
            }
            p = hi;
        }
        // `p` witnesses the balance point for the errors below.
        assert(self.is_balance_point(p as int));
        let ctah: i64 = if self.ctah_valve_open {
            match self.ctah_branch.get_mass_flowrate_from_pressure_change(p) {
                Ok(m) => m,
                Err(_) => {
                    return Err(FacilityError::BranchOutOfRange);
                },
            }
        } else {
            0
        };
        let heater: i64 = if self.heater_valve_open {
            match self.heater_branch.get_mass_flowrate_from_pressure_change(p) {
                Ok(m) => m,
                Err(_) => {
                    return Err(FacilityError::BranchOutOfRange);
                },
            }
        } else {
            0
        };
        let dhx_hydrostatic = self.dhx_branch.get_pressure_change(0);
        let dhx: i64 = if self.dhx_valve_open && p <= dhx_hydrostatic {
            match self.dhx_branch.get_mass_flowrate_from_pressure_change(p) {
                Ok(m) => m,
                Err(_) => {
                    return Err(FacilityError::BranchOutOfRange);
                },
            }
        } else {
            0
        };
        proof {
            if self.open_branches_have_friction() {
                lemma_mass_conservation(self, p as int);
            }
        }
        self.ctah_branch_mass_flowrate = ctah;
        self.heater_branch_mass_flowrate = heater;
        self.dhx_branch_mass_flowrate = dhx;
        Ok(
            SolveResult {
                pressure_change: p,
                ctah_branch_mass_flowrate: ctah,
                heater_branch_mass_flowrate: heater,
                dhx_branch_mass_flowrate: dhx,
            },
        )
    }
}

/// Where the pressure change is not above the DHX branch's zero-flow one,
/// the DHX branch flows forwards or not at all; above it, not at all.
pub proof fn lemma_dhx_flow_forward(f: &CIETIsothermalFacility, p: int)
    requires
        f.wf(),
    ensures
        f.dhx_flow(p) >= 0,
{
    if f.dhx_valve_open && !f.check_valve_shut(p) {
        f.dhx_branch.lemma_flow_at_forward(p);
    }
}

/// The net flow out of the shared node does not grow with the shared
/// pressure change, check valve included.
pub proof fn lemma_residual_monotone(f: &CIETIsothermalFacility, p1: int, p2: int)
    requires
        f.wf(),
        p1 <= p2,
    ensures
        f.ctah_flow(p2) <= f.ctah_flow(p1),
        f.heater_flow(p2) <= f.heater_flow(p1),
        f.dhx_flow(p2) <= f.dhx_flow(p1),
        f.residual(p2) <= f.residual(p1),
{
    f.ctah_branch.lemma_flow_at_monotone(p1, p2);
    f.heater_branch.lemma_flow_at_monotone(p1, p2);
    f.dhx_branch.lemma_flow_at_monotone(p1, p2);
    lemma_dhx_flow_forward(f, p1);
}

/// The loop has at most one balance point: a successful solve reports the
/// only pressure change at which mass is conserved.
pub proof fn lemma_balance_point_unique(f: &CIETIsothermalFacility, p: int, q: int)
    requires
        f.wf(),
        f.is_balance_point(p),
        f.is_balance_point(q),
    ensures
        p == q,
{
    if p < q {
        lemma_residual_monotone(f, p, q - 1);
    } else if q < p {
        lemma_residual_monotone(f, q, p - 1);
    }
}

/// Raising the pump pressure, valves held, never lowers the balance
/// pressure nor the CTAH branch's flow at the balance point.
pub proof fn lemma_pump_pressure_monotone(
    f: &CIETIsothermalFacility,
    g: &CIETIsothermalFacility,
    pressure: i64,
    p: int,
    q: int,
)
    requires
        f.wf(),
        g.wf(),
        f.pump_set_to(*g, pressure),
        f.ctah_pump_pressure <= pressure,
        f.is_balance_point(p),
        g.is_balance_point(q),
    ensures
        p <= q,
        g.ctah_flow(q) >= f.ctah_flow(p),
{
    let i = f.pump_index as int;
    let delta = pressure - f.ctah_pump_pressure;
    assert forall|m: int| #[trigger] g.ctah_branch.change_spec(m) == f.ctah_branch.change_spec(m)
        + delta by {
        crate::branch::lemma_sum_change_source_update(f.ctah_branch.components@, i, pressure, m);
    }
    assert(g.lower_bound() == f.lower_bound());
    assert(g.upper_bound() == f.upper_bound());
    // Raising the pump raises the CTAH flow at every pressure change, so the
    // net flow at the old balance point's left neighbours stays positive.
    if q < p {
        lemma_residual_monotone(f, q, p - 1);
        f.ctah_branch.lemma_flow_at_shifted(&g.ctah_branch, delta, q);
        f.ctah_branch.lemma_flow_at_monotone(q - delta, q);
        assert(g.heater_flow(q) == f.heater_flow(q));
        assert(g.dhx_flow(q) == f.dhx_flow(q));
    }
    // At `p + delta` the raised loop carries the old CTAH flow against less
    // heater and DHX flow, so its net flow is not positive there: the new
    // balance point lies at or below `p + delta`.
    if q > p + delta {
        lemma_residual_monotone(g, p + delta, q - 1);
        lemma_residual_monotone(f, p, p + delta);
        f.ctah_branch.lemma_flow_at_shifted(&g.ctah_branch, delta, p + delta);
        assert(g.heater_flow(p + delta) == f.heater_flow(p + delta));
        assert(g.dhx_flow(p + delta) == f.dhx_flow(p + delta));
    }
    f.ctah_branch.lemma_flow_at_shifted(&g.ctah_branch, delta, q);
    f.ctah_branch.lemma_flow_at_monotone(q - delta, p);
}

/// Mass is conserved at the balance point: where every open branch has
/// friction, the net flow there lies between `-MAX_NET_FLOW_AT_BALANCE` and
/// zero, check valve included.
pub proof fn lemma_mass_conservation(f: &CIETIsothermalFacility, p: int)
    requires
        f.wf(),
        f.open_branches_have_friction(),
        f.has_sign_change(),
        f.is_balance_point(p),
    ensures
        -MAX_NET_FLOW_AT_BALANCE <= f.residual(p) <= 0,
{
    if p != f.lower_bound() {
        if f.ctah_valve_open {
            f.ctah_branch.lemma_flow_at_step(p);
        }
        if f.heater_valve_open {
            f.heater_branch.lemma_flow_at_step(p);
        }
        if f.dhx_valve_open {
            if !f.check_valve_shut(p) {
                f.dhx_branch.lemma_flow_at_step(p);
            } else if !f.check_valve_shut(p - 1) {
                f.dhx_branch.lemma_flow_at_hydrostatic();
            }
        }
    }
}

} // verus!
