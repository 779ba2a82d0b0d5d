use vstd::prelude::*;
use crate::component::{
    FluidComponent, MAX_COMPONENT_CHANGE, flow_in_range, lemma_pressure_change_monotone,
    lemma_pressure_change_step, strictly_lossy,
};

verus! {

/// The flow bracket searched when inverting a branch: one kilogram per
/// second either way, in mg/s.
pub const BRACKET_FLOW: i64 = 1_000_000;

/// Largest number of components in a branch.
pub const MAX_BRANCH_LEN: usize = 1000;

/// Bound on the magnitude of a branch's pressure change, in mPa.
pub const MAX_BRANCH_CHANGE: i64 = 4_000_000_000_000_000;

/// Why a branch could not be built or inverted.
#[derive(Debug, Clone, Copy, PartialEq, Eq, Structural)]
pub enum BranchError {
    /// A branch needs at least one component.
    Empty,
    /// More than `MAX_BRANCH_LEN` components.
    TooManyComponents,
    /// A component's coefficients or static terms are out of range.
    InvalidComponent,
    /// The target pressure change is not reached by any flow within the
    /// bracket: the bracket holds no sign change.
    NoSignChange,
}

/// Components in series, traversed in the nominal flow direction, all
/// carrying the same mass flow.
#[derive(Debug, Clone)]
pub struct Branch {
    pub components: Vec<FluidComponent>,
}

/// Sum of the pressure changes of `s` at flow `m`.
pub open spec fn sum_change(s: Seq<FluidComponent>, m: int) -> int
    decreases s.len(),
{
    if s.len() == 0 {
        0
    } else {
        sum_change(s.drop_last(), m) + s.last().change_spec(m)
    }
}

pub open spec fn all_wf(s: Seq<FluidComponent>) -> bool {
    forall|i: int| 0 <= i < s.len() ==> #[trigger] s[i].wf()
}

/// The sum over a sequence of well-formed components stays within bounds.
pub proof fn lemma_sum_change_bounds(s: Seq<FluidComponent>, m: int)
    requires
        all_wf(s),
        flow_in_range(m),
    ensures
        -(s.len() * MAX_COMPONENT_CHANGE) <= sum_change(s, m) <= s.len() * MAX_COMPONENT_CHANGE,
    decreases s.len(),
{
    if s.len() > 0 {
        let init = s.drop_last();
        assert forall|i: int| 0 <= i < init.len() implies #[trigger] init[i].wf() by {
            assert(init[i] == s[i]);
        }
        lemma_sum_change_bounds(init, m);
        assert(s.last().wf());
        crate::component::lemma_change_bounds(s.last(), m);
    }
}

/// A series sum of pressure changes does not grow with the flow.
pub proof fn lemma_sum_change_monotone(s: Seq<FluidComponent>, a: int, b: int)
    requires
        all_wf(s),
        a <= b,
    ensures
        sum_change(s, b) <= sum_change(s, a),
    decreases s.len(),
{
    if s.len() > 0 {
        let init = s.drop_last();
        assert forall|i: int| 0 <= i < init.len() implies #[trigger] init[i].wf() by {
            assert(init[i] == s[i]);
        }
        lemma_sum_change_monotone(init, a, b);
        assert(s.last().wf());
        lemma_pressure_change_monotone(s.last(), a, b);
    }
}

/// Replacing one component by a copy with another pressure source shifts
/// the series sum by the difference of the sources.
pub proof fn lemma_sum_change_source_update(
    s: Seq<FluidComponent>,
    i: int,
    source: i64,
    m: int,
)
    requires
        0 <= i < s.len(),
    ensures
        sum_change(s.update(i, FluidComponent { internal_pressure_source: source, ..s[i] }), m)
            == sum_change(s, m) + source - s[i].internal_pressure_source,
    decreases s.len(),
{
    let c = FluidComponent { internal_pressure_source: source, ..s[i] };
    let u = s.update(i, c);
    if i == s.len() - 1 {
        assert(u.drop_last() =~= s.drop_last());
    } else {
        assert(u.drop_last() =~= s.drop_last().update(i, c));
        lemma_sum_change_source_update(s.drop_last(), i, source, m);
        assert(s.drop_last()[i] == s[i]);
    }
}

/// A series sum with one component of friction at least one pascal per
/// kilogram per second falls by at least one mPa for each mg/s.
pub proof fn lemma_sum_change_step(s: Seq<FluidComponent>, k: int, m: int)
    requires
        all_wf(s),
        0 <= k < s.len(),
        strictly_lossy(s[k].linear_loss as int, s[k].quadratic_loss as int),
    ensures
        sum_change(s, m + 1) + 1 <= sum_change(s, m),
    decreases s.len(),
{
    let init = s.drop_last();
    assert forall|i: int| 0 <= i < init.len() implies #[trigger] init[i].wf() by {
        assert(init[i] == s[i]);
    }
    assert(s.last().wf());
    if k == s.len() - 1 {
        lemma_sum_change_monotone(init, m, m + 1);
        lemma_pressure_change_step(s.last(), m);
    } else {
        assert(init[k] == s[k]);
        lemma_sum_change_step(init, k, m);
        lemma_pressure_change_monotone(s.last(), m, m + 1);
    }
}

impl Branch {
    pub open spec fn wf(&self) -> bool {
        &&& 0 < self.components@.len() <= MAX_BRANCH_LEN
        &&& all_wf(self.components@)
    }

    /// Pressure change across the branch at flow `m`.
    pub open spec fn change_spec(&self, m: int) -> int {
        sum_change(self.components@, m)
    }

    /// The target pressure change is reached within the flow bracket.
    pub open spec fn reachable(&self, target: int) -> bool {
        self.change_spec(BRACKET_FLOW as int) <= target <= self.change_spec(-BRACKET_FLOW as int)
    }

    /// `m` is the largest flow in the bracket whose pressure change is at
    /// least `target`: the crossing point of the decreasing pressure-flow
    /// curve with the target, to one mg/s.
    pub open spec fn is_flow_for(&self, target: int, m: int) -> bool {
        &&& -BRACKET_FLOW <= m <= BRACKET_FLOW
        &&& self.change_spec(m) >= target
        &&& (m == BRACKET_FLOW || self.change_spec(m + 1) < target)
    }

    /// Flow at which the branch's pressure change meets `target`, held at the
    /// bracket's ends where the target lies beyond them.
    pub open spec fn flow_at(&self, target: int) -> int {
        if self.change_spec(-BRACKET_FLOW as int) < target {
            -BRACKET_FLOW as int
        } else {
            choose|m: int| self.is_flow_for(target, m)
        }
    }

    /// Some component has friction of at least one pascal per kilogram per
    /// second.
    pub open spec fn has_friction(&self) -> bool {
        exists|k: int|
            0 <= k < self.components@.len() && strictly_lossy(
                #[trigger] self.components@[k].linear_loss as int,
                self.components@[k].quadratic_loss as int,
            )
    }

    /// Builds a branch from components listed in flow order.
    pub fn new(components: Vec<FluidComponent>) -> (r: Result<Branch, BranchError>)
        ensures
            components@.len() == 0 ==> r == Err::<Branch, BranchError>(BranchError::Empty),
            components@.len() > MAX_BRANCH_LEN ==> r == Err::<Branch, BranchError>(
                BranchError::TooManyComponents,
            ),
            0 < components@.len() <= MAX_BRANCH_LEN && !all_wf(components@) ==> r == Err::<
                Branch,
                BranchError,
            >(BranchError::InvalidComponent),
            0 < components@.len() <= MAX_BRANCH_LEN && all_wf(components@) ==> r is Ok
                && r->Ok_0.components@ == components@,
            r is Ok ==> r->Ok_0.wf(),
    {
        if components.len() == 0 {
            return Err(BranchError::Empty);
        }
        if components.len() > MAX_BRANCH_LEN {
            return Err(BranchError::TooManyComponents);
        }
        let mut i: usize = 0;
        while i < components.len()
            invariant
                0 <= i <= components@.len(),
                0 < components@.len() <= MAX_BRANCH_LEN,
                forall|k: int| 0 <= k < i ==> #[trigger] components@[k].wf(),
            decreases components@.len() - i,
        {
            if !components[i].is_valid() {
                return Err(BranchError::InvalidComponent);
            }
            i += 1;
        }
        Ok(Branch { components })
    }

    /// Pressure change across the branch at flow `m` (mg/s): the sum of its
    /// components' pressure changes, in mPa.
    pub fn get_pressure_change(&self, m: i64) -> (r: i64)
        requires
            self.wf(),
            flow_in_range(m as int),
        ensures
            r == self.change_spec(m as int),
            -MAX_BRANCH_CHANGE <= r <= MAX_BRANCH_CHANGE,
    {
        let ghost s = self.components@;
        let mut acc: i64 = 0;
        let mut i: usize = 0;
        while i < self.components.len()
            invariant
                0 <= i <= s.len(),
                s == self.components@,
                s.len() <= MAX_BRANCH_LEN,
                all_wf(s),
                flow_in_range(m as int),
                acc == sum_change(s.take(i as int), m as int),
                -(i * MAX_COMPONENT_CHANGE) <= acc <= i * MAX_COMPONENT_CHANGE,
            decreases s.len() - i,
        {
            assert(s[i as int].wf());
            let c = self.components[i].get_pressure_change(m);
            proof {
                assert(s.take(i + 1).drop_last() =~= s.take(i as int));
                assert(s.take(i + 1).last() == s[i as int]);
            }
            acc = acc + c;
            i += 1;
        }
        proof {
            assert(s.take(s.len() as int) =~= s);
        }
        acc
    }

    /// Flow at which the branch's pressure change meets `target`, held at
    /// the bracket's ends where the target lies beyond them.
    ///
    /// Bisection over the bracket: the pressure change decreases with flow,
    /// so the flows whose pressure change is at least the target form an
    /// interval starting at the bracket's lower end.
    pub fn flow_at_pressure_change(&self, target: i64) -> (r: i64)
        requires
            self.wf(),
        ensures
            r == self.flow_at(target as int),
            -BRACKET_FLOW <= r <= BRACKET_FLOW,
            self.change_spec(-BRACKET_FLOW as int) >= target ==> self.is_flow_for(target as int, r as int),
    {
        let low_change = self.get_pressure_change(-BRACKET_FLOW);
        if low_change < target {
            return -BRACKET_FLOW;
        }
        let high_change = self.get_pressure_change(BRACKET_FLOW);
        if high_change >= target {
            proof {
                self.lemma_flow_for_unique(target as int, BRACKET_FLOW as int);
            }
            return BRACKET_FLOW;
        }
        let mut lo: i64 = -BRACKET_FLOW;
        let mut hi: i64 = BRACKET_FLOW;
        while hi - lo > 1
            invariant
                self.wf(),
                -BRACKET_FLOW <= lo < hi <= BRACKET_FLOW,
                self.change_spec(lo as int) >= target,
                self.change_spec(hi as int) < target,
            decreases hi - lo,
        {
            let mid: i64 = lo + (hi - lo) / 2;
            let c = self.get_pressure_change(mid);
            if c >= target {
                lo = mid;
            } else {
                hi = mid;
            }
        }
        proof {
            self.lemma_flow_for_unique(target as int, lo as int);
        }
        lo
    }

    /// Flow through the branch at pressure change `target` (mPa), found by
    /// bisection over one kilogram per second either way; fails where the
    /// target is not reached within that bracket.
    pub fn get_mass_flowrate_from_pressure_change(&self, target: i64) -> (r: Result<i64, BranchError>)
        requires
            self.wf(),
        ensures
            r is Ok <==> self.reachable(target as int),
            r is Ok ==> self.is_flow_for(target as int, r->Ok_0 as int) && r->Ok_0 == self.flow_at(
                target as int,
            ),
            r is Err ==> r->Err_0 == BranchError::NoSignChange,
    {
        let low_change = self.get_pressure_change(-BRACKET_FLOW);
        let high_change = self.get_pressure_change(BRACKET_FLOW);
        if target > low_change || target < high_change {
            Err(BranchError::NoSignChange)
        } else {
            Ok(self.flow_at_pressure_change(target))
        }
    }

    /// Two flows that both meet the target are the same flow.
    pub proof fn lemma_flow_for_unique(&self, target: int, m: int)
        requires
            self.wf(),
            self.is_flow_for(target, m),
        ensures
            self.change_spec(-BRACKET_FLOW as int) >= target,
            self.flow_at(target) == m,
    {
        lemma_sum_change_monotone(self.components@, -BRACKET_FLOW as int, m);
        let k = choose|k: int| self.is_flow_for(target, k);
        assert(self.is_flow_for(target, k));
        if k < m {
            lemma_sum_change_monotone(self.components@, k + 1, m);
        } else if m < k {
            lemma_sum_change_monotone(self.components@, m + 1, k);
        }
    }

    /// `m` is the largest flow up to `k` whose pressure change is at least
    /// `target`.
    spec fn crossing_up_to(&self, target: int, k: int, m: int) -> bool {
        &&& -BRACKET_FLOW <= m <= k
        &&& self.change_spec(m) >= target
        &&& (m == k || self.change_spec(m + 1) < target)
    }

    proof fn lemma_flow_exists_up_to(&self, target: int, k: int)
        requires
            self.wf(),
            -BRACKET_FLOW <= k <= BRACKET_FLOW,
            self.change_spec(-BRACKET_FLOW as int) >= target,
        ensures
            exists|m: int| self.crossing_up_to(target, k, m),
        decreases k + BRACKET_FLOW,
    {
        if self.change_spec(k) >= target {
            assert(self.crossing_up_to(target, k, k));
        } else {
            let j = k - 1;
            self.lemma_flow_exists_up_to(target, j);
            let m = choose|m: int| self.crossing_up_to(target, j, m);
            assert(self.crossing_up_to(target, k, m));
        }
    }

    /// `flow_at` lies in the bracket, and meets the target wherever the
    /// target is not above the bracket's reach.
    pub proof fn lemma_flow_at_meets(&self, target: int)
        requires
            self.wf(),
        ensures
            -BRACKET_FLOW <= self.flow_at(target) <= BRACKET_FLOW,
            self.change_spec(-BRACKET_FLOW as int) >= target ==> self.is_flow_for(
                target,
                self.flow_at(target),
            ),
    {
        if self.change_spec(-BRACKET_FLOW as int) >= target {
            self.lemma_flow_exists_up_to(target, BRACKET_FLOW as int);
            let top = BRACKET_FLOW as int;
            let m = choose|m: int| self.crossing_up_to(target, top, m);
            assert(self.is_flow_for(target, m));
        }
    }

    /// A higher pressure change drives no more flow through the branch.
    pub proof fn lemma_flow_at_monotone(&self, t1: int, t2: int)
        requires
            self.wf(),
            t1 <= t2,
        ensures
            self.flow_at(t2) <= self.flow_at(t1),
    {
        self.lemma_flow_at_meets(t1);
        self.lemma_flow_at_meets(t2);
        if self.change_spec(-BRACKET_FLOW as int) >= t2 {
            let m1 = self.flow_at(t1);
            let m2 = self.flow_at(t2);
            if m2 > m1 {
                lemma_sum_change_monotone(self.components@, m1 + 1, m2);
            }
        }
    }

    /// The flow recovered from the pressure change of a flow in the bracket
    /// is found, gives that same pressure change, and is not below the flow:
    /// it is the largest flow sharing that pressure change.
    pub proof fn lemma_round_trip(&self, m: int)
        requires
            self.wf(),
            -BRACKET_FLOW <= m <= BRACKET_FLOW,
        ensures
            self.reachable(self.change_spec(m)),
            self.flow_at(self.change_spec(m)) >= m,
            self.change_spec(self.flow_at(self.change_spec(m))) == self.change_spec(m),
    {
        let t = self.change_spec(m);
        lemma_sum_change_monotone(self.components@, -BRACKET_FLOW as int, m);
        lemma_sum_change_monotone(self.components@, m, BRACKET_FLOW as int);
        self.lemma_flow_at_meets(t);
        let r = self.flow_at(t);
        if r < m {
            lemma_sum_change_monotone(self.components@, r + 1, m);
        }
        lemma_sum_change_monotone(self.components@, m, r);
    }

    /// Where one component has friction of at least one pascal per kilogram
    /// per second, the flow recovered from the pressure change of a flow in
    /// the bracket is that flow exactly.
    pub proof fn lemma_round_trip_exact(&self, k: int, m: int)
        requires
            self.wf(),
            0 <= k < self.components@.len(),
            strictly_lossy(
                self.components@[k].linear_loss as int,
                self.components@[k].quadratic_loss as int,
            ),
            -BRACKET_FLOW <= m <= BRACKET_FLOW,
        ensures
            self.reachable(self.change_spec(m)),
            self.flow_at(self.change_spec(m)) == m,
    {
        self.lemma_round_trip(m);
        let r = self.flow_at(self.change_spec(m));
        if r > m {
            lemma_sum_change_step(self.components@, k, m);
            lemma_sum_change_monotone(self.components@, m + 1, r);
        }
    }

    /// At a pressure change not above the zero-flow one, the branch flows
    /// forwards or not at all.
    pub proof fn lemma_flow_at_forward(&self, target: int)
        requires
            self.wf(),
            target <= self.change_spec(0),
        ensures
            self.flow_at(target) >= 0,
    {
        self.lemma_round_trip(0);
        self.lemma_flow_at_monotone(target, self.change_spec(0));
    }

    /// Where another branch's pressure change exceeds this one's by `delta`
    /// at every flow, its flow at a target is this branch's flow at the
    /// target less `delta`.
    pub proof fn lemma_flow_at_shifted(&self, other: &Branch, delta: int, target: int)
        requires
            self.wf(),
            other.wf(),
            forall|m: int| #[trigger] other.change_spec(m) == self.change_spec(m) + delta,
        ensures
            other.flow_at(target) == self.flow_at(target - delta),
    {
        assert(other.change_spec(-BRACKET_FLOW as int) == self.change_spec(-BRACKET_FLOW as int)
            + delta);
        if self.change_spec(-BRACKET_FLOW as int) >= target - delta {
            self.lemma_flow_at_meets(target - delta);
            let m = self.flow_at(target - delta);
            assert(other.change_spec(m) == self.change_spec(m) + delta);
            assert(other.change_spec(m + 1) == self.change_spec(m + 1) + delta);
            other.lemma_flow_for_unique(target, m);
        }
    }

    /// With friction, lowering the target by one mPa raises the flow by at
    /// most one mg/s.
    pub proof fn lemma_flow_at_step(&self, t: int)
        requires
            self.wf(),
            self.has_friction(),
        ensures
            self.flow_at(t) <= self.flow_at(t - 1) <= self.flow_at(t) + 1,
    {
        let s = self.components@;
        let k = choose|k: int|
            0 <= k < s.len() && strictly_lossy(
                #[trigger] s[k].linear_loss as int,
                s[k].quadratic_loss as int,
            );
        let low = -BRACKET_FLOW as int;
        self.lemma_flow_at_monotone(t - 1, t);
        self.lemma_flow_at_meets(t);
        self.lemma_flow_at_meets(t - 1);
        if self.change_spec(low) == t - 1 {
            let m2 = self.flow_at(t - 1);
            if m2 > low {
                lemma_sum_change_step(s, k, low);
                lemma_sum_change_monotone(s, low + 1, m2);
            }
        } else if self.change_spec(low) >= t {
            let m1 = self.flow_at(t);
            let m2 = self.flow_at(t - 1);
            if m2 >= m1 + 2 {
                lemma_sum_change_step(s, k, m1 + 1);
                lemma_sum_change_monotone(s, m1 + 2, m2);
            }
        }
    }

    /// With friction, the zero-flow pressure change drives no flow.
    pub proof fn lemma_flow_at_hydrostatic(&self)
        requires
            self.wf(),
            self.has_friction(),
        ensures
            self.flow_at(self.change_spec(0)) == 0,
    {
        let s = self.components@;
        let k = choose|k: int|
            0 <= k < s.len() && strictly_lossy(
                #[trigger] s[k].linear_loss as int,
                s[k].quadratic_loss as int,
            );
        self.lemma_round_trip_exact(k, 0);
    }

    /// The pressure change across the branch does not grow with the flow.
    pub proof fn lemma_change_monotone(&self, a: int, b: int)
        requires
            self.wf(),
            a <= b,
        ensures
            self.change_spec(b) <= self.change_spec(a),
    {
        lemma_sum_change_monotone(self.components@, a, b);
    }
}

impl FluidComponent {
    /// Flow through this component alone at pressure change `target` (mPa),
    /// found as for a branch of this one component.
    pub fn get_mass_flowrate_from_pressure_change(&self, target: i64) -> (r: Result<i64, BranchError>)
        requires
            self.wf(),
        ensures
            r is Ok <==> self.change_spec(BRACKET_FLOW as int) <= target <= self.change_spec(
                -BRACKET_FLOW as int,
            ),
            r is Ok ==> {
                let m = r->Ok_0 as int;
                &&& -BRACKET_FLOW <= m <= BRACKET_FLOW
                &&& self.change_spec(m) >= target
                &&& (m == BRACKET_FLOW || self.change_spec(m + 1) < target)
            },
            r is Err ==> r->Err_0 == BranchError::NoSignChange,
    {
        let mut components: Vec<FluidComponent> = Vec::new();
        components.push(*self);
        let branch = Branch { components };
        proof {
            let s = branch.components@;
            assert(s.len() == 1 && s[0] == *self);
            assert forall|m: int| #[trigger] branch.change_spec(m) == self.change_spec(m) by {
                assert(s.drop_last() =~= Seq::<FluidComponent>::empty());
                assert(sum_change(s.drop_last(), m) == 0);
                assert(s.last() == *self);
            }
        }
        branch.get_mass_flowrate_from_pressure_change(target)
    }
}

} // verus!
