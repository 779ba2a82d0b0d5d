use vstd::prelude::*;
use vstd::arithmetic::div_mod::{lemma_div_is_ordered, lemma_div_plus_one};

verus! {

/// Largest flow magnitude a component is evaluated at: ten kilograms per
/// second, in mg/s.
pub const MAX_FLOW: i64 = 10_000_000;

/// Largest magnitude of a component's hydrostatic term or pressure source,
/// in mPa (one gigapascal).
pub const MAX_STATIC_PRESSURE: i64 = 1_000_000_000_000;

/// Largest loss coefficient, linear (mPa per kg/s) or quadratic
/// (mPa per (kg/s)²).
pub const MAX_LOSS_COEFFICIENT: i64 = 10_000_000_000;

/// Bound on the magnitude of one component's pressure change over the
/// admitted flows, in mPa.
pub const MAX_COMPONENT_CHANGE: i64 = 4_000_000_000_000;

/// Bound on the magnitude of one component's loss over the admitted flows,
/// in mPa.
pub const MAX_COMPONENT_LOSS: i64 = 1_100_000_000_000;

/// Milligrams per second in one kilogram per second: the linear loss term is divided by it.
pub const FLOW_SCALE: i128 = 1_000_000;

/// Its square: the quadratic loss term is divided by it.
pub const FLOW_SCALE_SQUARED: i128 = 1_000_000_000_000;

/// Why a component could not be built.
#[derive(Debug, Clone, Copy, PartialEq, Eq, Structural)]
pub enum ComponentError {
    /// A loss coefficient is negative: loss would aid the flow.
    NegativeLossCoefficient,
    /// A loss coefficient is above `MAX_LOSS_COEFFICIENT`.
    LossCoefficientTooLarge,
    /// The hydrostatic term is beyond `MAX_STATIC_PRESSURE`.
    HydrostaticPressureOutOfRange,
}

/// One element of a loop (a pipe segment or a lumped fitting such as a
/// mixer, heat exchanger, flowmeter or pump).
///
/// Its pressure change at mass flow `m` is
/// `hydrostatic_pressure + internal_pressure_source - loss(m)`, where the
/// loss is the Darcy-Weisbach loss of a laminar friction factor (`64/Re`,
/// linear in the flow) plus a form loss (quadratic in the flow), taken on
/// the flow's magnitude and given the flow's sign.
///
/// At zero flow the loss is zero: the no-flow state is defined, and no
/// friction factor is ever evaluated at a Reynolds number of zero.
#[derive(Debug, Clone, Copy, PartialEq, Eq, Structural)]
pub struct FluidComponent {
    /// Pressure change at zero flow from elevation (mPa).
    pub hydrostatic_pressure: i64,
    /// Friction loss per unit flow (mPa per kg/s).
    pub linear_loss: i64,
    /// Form loss per unit flow squared (mPa per (kg/s)²).
    pub quadratic_loss: i64,
    /// Pressure added by a source such as a pump (mPa).
    pub internal_pressure_source: i64,
}

/// Loss at a flow magnitude `n` (mg/s) for the two coefficients, in mPa,
/// rounded down.
pub open spec fn loss_magnitude(linear: int, quadratic: int, n: int) -> int {
    (linear * n * FLOW_SCALE + quadratic * n * n) / (FLOW_SCALE_SQUARED as int)
}

/// Loss at a signed flow: the magnitude's loss, with the flow's sign, so that
/// it always opposes the flow.
pub open spec fn signed_loss(linear: int, quadratic: int, m: int) -> int {
    if m >= 0 {
        loss_magnitude(linear, quadratic, m)
    } else {
        -loss_magnitude(linear, quadratic, -m)
    }
}

pub open spec fn flow_in_range(m: int) -> bool {
    -MAX_FLOW <= m <= MAX_FLOW
}

pub open spec fn static_in_range(p: int) -> bool {
    -MAX_STATIC_PRESSURE <= p <= MAX_STATIC_PRESSURE
}

pub open spec fn coefficient_in_range(c: int) -> bool {
    0 <= c <= MAX_LOSS_COEFFICIENT
}

proof fn lemma_loss_magnitude_bounds(linear: int, quadratic: int, n: int)
    requires
        coefficient_in_range(linear),
        coefficient_in_range(quadratic),
        0 <= n <= MAX_FLOW,
    ensures
        0 <= linear * n * FLOW_SCALE + quadratic * n * n <= 1_100_000_000_000_000_000_000_000,
        0 <= loss_magnitude(linear, quadratic, n) <= MAX_COMPONENT_LOSS,
{
    assert(0 <= linear * n <= 100_000_000_000_000_000) by (nonlinear_arith)
        requires
            0 <= linear <= 10_000_000_000,
            0 <= n <= 10_000_000,
    ;
    assert(0 <= quadratic * n * n <= 1_000_000_000_000_000_000_000_000) by (nonlinear_arith)
        requires
            0 <= quadratic <= 10_000_000_000,
            0 <= n <= 10_000_000,
    ;
    let num = linear * n * FLOW_SCALE + quadratic * n * n;
    lemma_div_is_ordered(0, num, FLOW_SCALE_SQUARED as int);
    lemma_div_is_ordered(num, 1_100_000_000_000_000_000_000_000, FLOW_SCALE_SQUARED as int);
}

/// The loss grows with the flow magnitude.
pub proof fn lemma_loss_magnitude_monotone(linear: int, quadratic: int, a: int, b: int)
    requires
        linear >= 0,
        quadratic >= 0,
        0 <= a <= b,
    ensures
        0 <= loss_magnitude(linear, quadratic, a) <= loss_magnitude(linear, quadratic, b),
{
    assert(0 <= linear * a * FLOW_SCALE + quadratic * a * a <= linear * b * FLOW_SCALE
        + quadratic * b * b) by (nonlinear_arith)
        requires
            linear >= 0,
            quadratic >= 0,
            0 <= a <= b,
            FLOW_SCALE > 0,
    ;
    lemma_div_is_ordered(0, linear * a * FLOW_SCALE + quadratic * a * a, FLOW_SCALE_SQUARED as int);
    lemma_div_is_ordered(
        linear * a * FLOW_SCALE + quadratic * a * a,
        linear * b * FLOW_SCALE + quadratic * b * b,
        FLOW_SCALE_SQUARED as int,
    );
}

/// Friction of at least one pascal per kilogram per second.
pub open spec fn strictly_lossy(linear: int, quadratic: int) -> bool {
    linear >= FLOW_SCALE && quadratic >= 0
}

/// With friction of at least one pascal per kilogram per second, each mg/s
/// of flow adds at least one mPa of loss.
pub proof fn lemma_loss_magnitude_step(linear: int, quadratic: int, n: int)
    requires
        strictly_lossy(linear, quadratic),
        n >= 0,
    ensures
        loss_magnitude(linear, quadratic, n + 1) >= loss_magnitude(linear, quadratic, n) + 1,
{
    let d = FLOW_SCALE_SQUARED as int;
    let x = linear * n * FLOW_SCALE + quadratic * n * n;
    let y = linear * (n + 1) * FLOW_SCALE + quadratic * (n + 1) * (n + 1);
    assert(y >= d + x) by (nonlinear_arith)
        requires
            linear >= 1_000_000,
            quadratic >= 0,
            n >= 0,
            FLOW_SCALE == 1_000_000,
            d == 1_000_000_000_000,
            x == linear * n * FLOW_SCALE + quadratic * n * n,
            y == linear * (n + 1) * FLOW_SCALE + quadratic * (n + 1) * (n + 1),
    ;
    lemma_div_plus_one(x, d);
    lemma_div_is_ordered(d + x, y, d);
}

/// With such friction the signed loss grows strictly with the flow.
pub proof fn lemma_signed_loss_step(linear: int, quadratic: int, m: int)
    requires
        strictly_lossy(linear, quadratic),
    ensures
        signed_loss(linear, quadratic, m + 1) >= signed_loss(linear, quadratic, m) + 1,
{
    if m >= 0 {
        lemma_loss_magnitude_step(linear, quadratic, m);
    } else {
        lemma_loss_magnitude_step(linear, quadratic, -m - 1);
    }
}

/// The signed loss grows with the signed flow.
pub proof fn lemma_signed_loss_monotone(linear: int, quadratic: int, a: int, b: int)
    requires
        linear >= 0,
        quadratic >= 0,
        a <= b,
    ensures
        signed_loss(linear, quadratic, a) <= signed_loss(linear, quadratic, b),
{
    if a >= 0 {
        lemma_loss_magnitude_monotone(linear, quadratic, a, b);
    } else if b >= 0 {
        lemma_loss_magnitude_monotone(linear, quadratic, 0, -a);
        lemma_loss_magnitude_monotone(linear, quadratic, 0, b);
    } else {
        lemma_loss_magnitude_monotone(linear, quadratic, -b, -a);
    }
}

impl FluidComponent {
    pub open spec fn wf(&self) -> bool {
        &&& static_in_range(self.hydrostatic_pressure as int)
        &&& static_in_range(self.internal_pressure_source as int)
        &&& coefficient_in_range(self.linear_loss as int)
        &&& coefficient_in_range(self.quadratic_loss as int)
    }

    /// Pressure loss at signed flow `m`.
    pub open spec fn loss_spec(&self, m: int) -> int {
        signed_loss(self.linear_loss as int, self.quadratic_loss as int, m)
    }

    /// Pressure change across the component at signed flow `m`.
    pub open spec fn change_spec(&self, m: int) -> int {
        self.hydrostatic_pressure + self.internal_pressure_source - self.loss_spec(m)
    }

    /// Builds a component without a pressure source, rejecting a negative or
    /// oversized loss coefficient and an out-of-range hydrostatic term.
    pub fn new(hydrostatic_pressure: i64, linear_loss: i64, quadratic_loss: i64) -> (r: Result<
        FluidComponent,
        ComponentError,
    >)
        ensures
            linear_loss < 0 || quadratic_loss < 0 ==> r == Err::<FluidComponent, ComponentError>(
                ComponentError::NegativeLossCoefficient,
            ),
            linear_loss >= 0 && quadratic_loss >= 0 && (linear_loss > MAX_LOSS_COEFFICIENT
                || quadratic_loss > MAX_LOSS_COEFFICIENT) ==> r == Err::<
                FluidComponent,
                ComponentError,
            >(ComponentError::LossCoefficientTooLarge),
            coefficient_in_range(linear_loss as int) && coefficient_in_range(quadratic_loss as int)
                && !static_in_range(hydrostatic_pressure as int) ==> r == Err::<
                FluidComponent,
                ComponentError,
            >(ComponentError::HydrostaticPressureOutOfRange),
            coefficient_in_range(linear_loss as int) && coefficient_in_range(quadratic_loss as int)
                && static_in_range(hydrostatic_pressure as int) ==> r == Ok::<
                FluidComponent,
                ComponentError,
            >(
                (FluidComponent {
                    hydrostatic_pressure,
                    linear_loss,
                    quadratic_loss,
                    internal_pressure_source: 0,
                }),
            ),
            r is Ok ==> r->Ok_0.wf(),
    {
        if linear_loss < 0 || quadratic_loss < 0 {
            Err(ComponentError::NegativeLossCoefficient)
        } else if linear_loss > MAX_LOSS_COEFFICIENT || quadratic_loss > MAX_LOSS_COEFFICIENT {
            Err(ComponentError::LossCoefficientTooLarge)
        } else if hydrostatic_pressure < -MAX_STATIC_PRESSURE || hydrostatic_pressure
            > MAX_STATIC_PRESSURE {
            Err(ComponentError::HydrostaticPressureOutOfRange)
        } else {
            Ok(FluidComponent { hydrostatic_pressure, linear_loss, quadratic_loss, internal_pressure_source: 0 })
        }
    }

    /// Whether the coefficients and static terms are within range.
    pub fn is_valid(&self) -> (r: bool)
        ensures
            r == self.wf(),
    {
        -MAX_STATIC_PRESSURE <= self.hydrostatic_pressure && self.hydrostatic_pressure
            <= MAX_STATIC_PRESSURE && -MAX_STATIC_PRESSURE <= self.internal_pressure_source
            && self.internal_pressure_source <= MAX_STATIC_PRESSURE && 0 <= self.linear_loss
            && self.linear_loss <= MAX_LOSS_COEFFICIENT && 0 <= self.quadratic_loss
            && self.quadratic_loss <= MAX_LOSS_COEFFICIENT
    }

    /// Pressure loss at signed flow `m` (mg/s), in mPa: positive for a
    /// forward flow, negative for a reverse one.
    pub fn get_pressure_loss(&self, m: i64) -> (r: i64)
        requires
            self.wf(),
            flow_in_range(m as int),
        ensures
            r == self.loss_spec(m as int),
            -MAX_COMPONENT_LOSS <= r <= MAX_COMPONENT_LOSS,
    {
        let n: i64 = if m >= 0 {
            m
        } else {
            -m
        };
        proof {
            lemma_loss_magnitude_bounds(self.linear_loss as int, self.quadratic_loss as int, n as int);
        }
        let wide: i128 = n as i128;
        let linear: i128 = self.linear_loss as i128;
        let quadratic: i128 = self.quadratic_loss as i128;
        assert(0 <= linear * wide <= 100_000_000_000_000_000) by (nonlinear_arith)
            requires
                0 <= linear <= 10_000_000_000,
                0 <= wide <= 10_000_000,
        ;
        assert(0 <= quadratic * wide <= 100_000_000_000_000_000) by (nonlinear_arith)
            requires
                0 <= quadratic <= 10_000_000_000,
                0 <= wide <= 10_000_000,
        ;
        let num: i128 = linear * wide * FLOW_SCALE + quadratic * wide * wide;
        let magnitude: i128 = num / FLOW_SCALE_SQUARED;
        if m >= 0 {
            magnitude as i64
        } else {
            -(magnitude as i64)
        }
    }

    /// Pressure change across the component at signed flow `m` (mg/s), in
    /// mPa: hydrostatic term plus source, less the loss.
    pub fn get_pressure_change(&self, m: i64) -> (r: i64)
        requires
            self.wf(),
            flow_in_range(m as int),
        ensures
            r == self.change_spec(m as int),
            -MAX_COMPONENT_CHANGE <= r <= MAX_COMPONENT_CHANGE,
    {
        let loss = self.get_pressure_loss(m);
        self.hydrostatic_pressure + self.internal_pressure_source - loss
    }

    pub fn get_internal_pressure_source(&self) -> (r: i64)
        ensures
            r == self.internal_pressure_source,
    {
        self.internal_pressure_source
    }

    /// Sets the pressure source; it takes effect at the next evaluation.
    pub fn set_internal_pressure_source(&mut self, p: i64)
        requires
            static_in_range(p as int),
        ensures
            *final(self) == (FluidComponent { internal_pressure_source: p, ..*old(self) }),
    {
        self.internal_pressure_source = p;
    }
}

/// A well-formed component's pressure change over the admitted flows stays
/// within `MAX_COMPONENT_CHANGE`.
pub proof fn lemma_change_bounds(c: FluidComponent, m: int)
    requires
        c.wf(),
        flow_in_range(m),
    ensures
        -MAX_COMPONENT_CHANGE <= c.change_spec(m) <= MAX_COMPONENT_CHANGE,
{
    let n = if m >= 0 { m } else { -m };
    lemma_loss_magnitude_bounds(c.linear_loss as int, c.quadratic_loss as int, n);
}

/// Loss opposes the flow: reversing the flow reverses the loss exactly.
pub proof fn lemma_pressure_loss_odd(c: FluidComponent, m: int)
    ensures
        c.loss_spec(-m) == -c.loss_spec(m),
{
    if m == 0 {
        assert(loss_magnitude(c.linear_loss as int, c.quadratic_loss as int, 0) == 0) by (
        nonlinear_arith);
    }
}

/// A component with friction of at least one pascal per kilogram per second
/// loses at least one mPa more for each mg/s more.
pub proof fn lemma_pressure_change_step(c: FluidComponent, m: int)
    requires
        strictly_lossy(c.linear_loss as int, c.quadratic_loss as int),
    ensures
        c.change_spec(m + 1) + 1 <= c.change_spec(m),
{
    lemma_signed_loss_step(c.linear_loss as int, c.quadratic_loss as int, m);
}

/// The pressure change across a component does not grow with the flow.
pub proof fn lemma_pressure_change_monotone(c: FluidComponent, a: int, b: int)
    requires
        c.wf(),
        a <= b,
    ensures
        c.change_spec(b) <= c.change_spec(a),
{
    lemma_signed_loss_monotone(c.linear_loss as int, c.quadratic_loss as int, a, b);
}

} // verus!
