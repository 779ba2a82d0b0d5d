use vstd::prelude::*;
use crate::branch::{BRACKET_FLOW, Branch};
use crate::component::{FluidComponent, static_in_range};

verus! {

/// Position of the pump in the CTAH branch built by `CTAHBranch::branch`.
pub const CTAH_PUMP_INDEX: usize = 10;

/// The CTAH branch's components in flow order, as its getters give them.
pub open spec fn ctah_components() -> Seq<FluidComponent> {
    seq![
        FluidComponent {
            hydrostatic_pressure: -1242494i64,
            linear_loss: 39684,
            quadratic_loss: 6372319,
            internal_pressure_source: 0,
        },
        FluidComponent {
            hydrostatic_pressure: -1242494i64,
            linear_loss: 453734,
            quadratic_loss: 26530141,
            internal_pressure_source: 0,
        },
        FluidComponent {
            hydrostatic_pressure: 3434104,
            linear_loss: 216969,
            quadratic_loss: 1039834,
            internal_pressure_source: 0,
        },
        FluidComponent {
            hydrostatic_pressure: 0,
            linear_loss: 6353182,
            quadratic_loss: 106649641,
            internal_pressure_source: 0,
        },
        FluidComponent {
            hydrostatic_pressure: 2313496,
            linear_loss: 57849,
            quadratic_loss: 4731920,
            internal_pressure_source: 0,
        },
        FluidComponent {
            hydrostatic_pressure: 3432024,
            linear_loss: 453734,
            quadratic_loss: 26530141,
            internal_pressure_source: 0,
        },
        FluidComponent {
            hydrostatic_pressure: 5019075,
            linear_loss: 184949,
            quadratic_loss: 1009476,
            internal_pressure_source: 0,
        },
        FluidComponent {
            hydrostatic_pressure: 25491615,
            linear_loss: 637413,
            quadratic_loss: 567830,
            internal_pressure_source: 0,
        },
        FluidComponent {
            hydrostatic_pressure: 4490751,
            linear_loss: 125501,
            quadratic_loss: 3028429,
            internal_pressure_source: 0,
        },
        FluidComponent {
            hydrostatic_pressure: 0,
            linear_loss: 86695,
            quadratic_loss: 27318951,
            internal_pressure_source: 0,
        },
        FluidComponent {
            hydrostatic_pressure: 0,
            linear_loss: 0,
            quadratic_loss: 0,
            internal_pressure_source: 0,
        },
        FluidComponent {
            hydrostatic_pressure: 0,
            linear_loss: 331091,
            quadratic_loss: 16340896,
            internal_pressure_source: 0,
        },
        FluidComponent {
            hydrostatic_pressure: -6954528i64,
            linear_loss: 173897,
            quadratic_loss: 3028429,
            internal_pressure_source: 0,
        },
        FluidComponent {
            hydrostatic_pressure: -3744026i64,
            linear_loss: 940208,
            quadratic_loss: 22740121,
            internal_pressure_source: 0,
        },
        FluidComponent {
            hydrostatic_pressure: 2806719,
            linear_loss: 92474,
            quadratic_loss: 1009476,
            internal_pressure_source: 0,
        },
        FluidComponent {
            hydrostatic_pressure: 6703106,
            linear_loss: 167610,
            quadratic_loss: 2397506,
            internal_pressure_source: 0,
        },
        FluidComponent {
            hydrostatic_pressure: 0,
            linear_loss: 123024,
            quadratic_loss: 0,
            internal_pressure_source: 0,
        },
    ]
}

/// Position of the CTAH horizontal section, whose friction exceeds one
/// pascal per kilogram per second.
pub const CTAH_HORIZONTAL_INDEX: usize = 3;

/// The components of the CTAH (coiled tube air heater) branch of the
/// loop, from top to bottom, with Therminol VP-1 at 21 °C
/// (density 1060 kg/m³, viscosity 4.1 mPa·s).
///
/// Hydrostatic terms are `-ρ g L sin θ`. Pipe friction is the laminar
/// Darcy factor `64/Re` over `L/D`; form losses of the kind `a + b/Re` give
/// `a` to the quadratic and `b` to the linear coefficient; the flowmeter's
/// `b/Re^1.35` term is taken as its `1/Re` equivalent at `Re = 1000`.
pub struct CTAHBranch {}

impl CTAHBranch {
    pub fn new() -> (r: CTAHBranch) {
        CTAHBranch {}
    }

    /// Pipe 6a, a static mixer pipe.
    pub fn get_pipe6a(&self) -> (r: FluidComponent)
        ensures
            r == (FluidComponent {
                hydrostatic_pressure: -1242494i64,
                linear_loss: 39684,
                quadratic_loss: 6372319,
                internal_pressure_source: 0,
            }),
            r.wf(),
    {
        FluidComponent {
            hydrostatic_pressure: -1242494i64,
            linear_loss: 39684,
            quadratic_loss: 6372319,
            internal_pressure_source: 0,
        }
    }

    /// Static mixer MX-41 (label 6).
    pub fn get_static_mixer_41(&self) -> (r: FluidComponent)
        ensures
            r == (FluidComponent {
                hydrostatic_pressure: -1242494i64,
                linear_loss: 453734,
                quadratic_loss: 26530141,
                internal_pressure_source: 0,
            }),
            r.wf(),
    {
        FluidComponent {
            hydrostatic_pressure: -1242494i64,
            linear_loss: 453734,
            quadratic_loss: 26530141,
            internal_pressure_source: 0,
        }
    }

    /// CTAH vertical section (label 7a).
    pub fn get_ctah_vertical(&self) -> (r: FluidComponent)
        ensures
            r == (FluidComponent {
                hydrostatic_pressure: 3434104,
                linear_loss: 216969,
                quadratic_loss: 1039834,
                internal_pressure_source: 0,
            }),
            r.wf(),
    {
        FluidComponent {
            hydrostatic_pressure: 3434104,
            linear_loss: 216969,
            quadratic_loss: 1039834,
            internal_pressure_source: 0,
        }
    }

    /// CTAH horizontal section (label 7b).
    pub fn get_ctah_horizontal(&self) -> (r: FluidComponent)
        ensures
            r == (FluidComponent {
                hydrostatic_pressure: 0,
                linear_loss: 6353182,
                quadratic_loss: 106649641,
                internal_pressure_source: 0,
            }),
            r.wf(),
    {
        FluidComponent {
            hydrostatic_pressure: 0,
            linear_loss: 6353182,
            quadratic_loss: 106649641,
            internal_pressure_source: 0,
        }
    }

    /// Pipe 8a, a static mixer pipe.
    pub fn get_pipe_8a(&self) -> (r: FluidComponent)
        ensures
            r == (FluidComponent {
                hydrostatic_pressure: 2313496,
                linear_loss: 57849,
                quadratic_loss: 4731920,
                internal_pressure_source: 0,
            }),
            r.wf(),
    {
        FluidComponent {
            hydrostatic_pressure: 2313496,
            linear_loss: 57849,
            quadratic_loss: 4731920,
            internal_pressure_source: 0,
        }
    }

    /// Static mixer MX-40 (label 8).
    pub fn get_static_mixer_40(&self) -> (r: FluidComponent)
        ensures
            r == (FluidComponent {
                hydrostatic_pressure: 3432024,
                linear_loss: 453734,
                quadratic_loss: 26530141,
                internal_pressure_source: 0,
            }),
            r.wf(),
    {
        FluidComponent {
            hydrostatic_pressure: 3432024,
            linear_loss: 453734,
            quadratic_loss: 26530141,
            internal_pressure_source: 0,
        }
    }

    /// Pipe 9.
    pub fn get_pipe_9(&self) -> (r: FluidComponent)
        ensures
            r == (FluidComponent {
                hydrostatic_pressure: 5019075,
                linear_loss: 184949,
                quadratic_loss: 1009476,
                internal_pressure_source: 0,
            }),
            r.wf(),
    {
        FluidComponent {
            hydrostatic_pressure: 5019075,
            linear_loss: 184949,
            quadratic_loss: 1009476,
            internal_pressure_source: 0,
        }
    }

    /// Pipe 10.
    pub fn get_pipe_10(&self) -> (r: FluidComponent)
        ensures
            r == (FluidComponent {
                hydrostatic_pressure: 25491615,
                linear_loss: 637413,
                quadratic_loss: 567830,
                internal_pressure_source: 0,
            }),
            r.wf(),
    {
        FluidComponent {
            hydrostatic_pressure: 25491615,
            linear_loss: 637413,
            quadratic_loss: 567830,
            internal_pressure_source: 0,
        }
    }

    /// Pipe 11.
    pub fn get_pipe_11(&self) -> (r: FluidComponent)
        ensures
            r == (FluidComponent {
                hydrostatic_pressure: 4490751,
                linear_loss: 125501,
                quadratic_loss: 3028429,
                internal_pressure_source: 0,
            }),
            r.wf(),
    {
        FluidComponent {
            hydrostatic_pressure: 4490751,
            linear_loss: 125501,
            quadratic_loss: 3028429,
            internal_pressure_source: 0,
        }
    }

    /// Pipe 12.
    pub fn get_pipe_12(&self) -> (r: FluidComponent)
        ensures
            r == (FluidComponent {
                hydrostatic_pressure: 0,
                linear_loss: 86695,
                quadratic_loss: 27318951,
                internal_pressure_source: 0,
            }),
            r.wf(),
    {
        FluidComponent {
            hydrostatic_pressure: 0,
            linear_loss: 86695,
            quadratic_loss: 27318951,
            internal_pressure_source: 0,
        }
    }

    /// CTAH pump: no loss, its pressure source set by the user.
    pub fn get_ctah_pump(&self) -> (r: FluidComponent)
        ensures
            r == (FluidComponent {
                hydrostatic_pressure: 0,
                linear_loss: 0,
                quadratic_loss: 0,
                internal_pressure_source: 0,
            }),
            r.wf(),
    {
        FluidComponent {
            hydrostatic_pressure: 0,
            linear_loss: 0,
            quadratic_loss: 0,
            internal_pressure_source: 0,
        }
    }

    /// Pipe 13.
    pub fn get_pipe_13(&self) -> (r: FluidComponent)
        ensures
            r == (FluidComponent {
                hydrostatic_pressure: 0,
                linear_loss: 331091,
                quadratic_loss: 16340896,
                internal_pressure_source: 0,
            }),
            r.wf(),
    {
        FluidComponent {
            hydrostatic_pressure: 0,
            linear_loss: 331091,
            quadratic_loss: 16340896,
            internal_pressure_source: 0,
        }
    }

    /// Pipe 14.
    pub fn get_pipe_14(&self) -> (r: FluidComponent)
        ensures
            r == (FluidComponent {
                hydrostatic_pressure: -6954528i64,
                linear_loss: 173897,
                quadratic_loss: 3028429,
                internal_pressure_source: 0,
            }),
            r.wf(),
    {
        FluidComponent {
            hydrostatic_pressure: -6954528i64,
            linear_loss: 173897,
            quadratic_loss: 3028429,
            internal_pressure_source: 0,
        }
    }

    /// Flowmeter FM-40 (label 14a).
    pub fn get_flowmeter_40_14a(&self) -> (r: FluidComponent)
        ensures
            r == (FluidComponent {
                hydrostatic_pressure: -3744026i64,
                linear_loss: 940208,
                quadratic_loss: 22740121,
                internal_pressure_source: 0,
            }),
            r.wf(),
    {
        FluidComponent {
            hydrostatic_pressure: -3744026i64,
            linear_loss: 940208,
            quadratic_loss: 22740121,
            internal_pressure_source: 0,
        }
    }

    /// Pipe 15.
    pub fn get_pipe_15(&self) -> (r: FluidComponent)
        ensures
            r == (FluidComponent {
                hydrostatic_pressure: 2806719,
                linear_loss: 92474,
                quadratic_loss: 1009476,
                internal_pressure_source: 0,
            }),
            r.wf(),
    {
        FluidComponent {
            hydrostatic_pressure: 2806719,
            linear_loss: 92474,
            quadratic_loss: 1009476,
            internal_pressure_source: 0,
        }
    }

    /// Pipe 16.
    pub fn get_pipe_16(&self) -> (r: FluidComponent)
        ensures
            r == (FluidComponent {
                hydrostatic_pressure: 6703106,
                linear_loss: 167610,
                quadratic_loss: 2397506,
                internal_pressure_source: 0,
            }),
            r.wf(),
    {
        FluidComponent {
            hydrostatic_pressure: 6703106,
            linear_loss: 167610,
            quadratic_loss: 2397506,
            internal_pressure_source: 0,
        }
    }

    /// Branch 17.
    pub fn get_branch_17(&self) -> (r: FluidComponent)
        ensures
            r == (FluidComponent {
                hydrostatic_pressure: 0,
                linear_loss: 123024,
                quadratic_loss: 0,
                internal_pressure_source: 0,
            }),
            r.wf(),
    {
        FluidComponent {
            hydrostatic_pressure: 0,
            linear_loss: 123024,
            quadratic_loss: 0,
            internal_pressure_source: 0,
        }
    }

    /// The branch of all components in flow order, the pump at
    /// `CTAH_PUMP_INDEX` with no pressure source.
    pub fn branch(&self) -> (r: Branch)
        ensures
            r.wf(),
            r.components@ == ctah_components(),
    {
        let mut components: Vec<FluidComponent> = Vec::new();
        components.push(self.get_pipe6a());
        components.push(self.get_static_mixer_41());
        components.push(self.get_ctah_vertical());
        components.push(self.get_ctah_horizontal());
        components.push(self.get_pipe_8a());
        components.push(self.get_static_mixer_40());
        components.push(self.get_pipe_9());
        components.push(self.get_pipe_10());
        components.push(self.get_pipe_11());
        components.push(self.get_pipe_12());
        components.push(self.get_ctah_pump());
        components.push(self.get_pipe_13());
        components.push(self.get_pipe_14());
        components.push(self.get_flowmeter_40_14a());
        components.push(self.get_pipe_15());
        components.push(self.get_pipe_16());
        components.push(self.get_branch_17());
        assert(components@ =~= ctah_components());
        Branch { components }
    }
}

/// The CTAH branch, its pump at any pressure, gives back exactly every flow
/// in the bracket from that flow's pressure change.
pub proof fn lemma_ctah_round_trip(b: &Branch, pump_pressure: i64, m: int)
    requires
        static_in_range(pump_pressure as int),
        b.components@ == ctah_components().update(
            CTAH_PUMP_INDEX as int,
            FluidComponent {
                internal_pressure_source: pump_pressure,
                ..ctah_components()[CTAH_PUMP_INDEX as int]
            },
        ),
        -BRACKET_FLOW <= m <= BRACKET_FLOW,
    ensures
        b.wf(),
        b.reachable(b.change_spec(m)),
        b.flow_at(b.change_spec(m)) == m,
{
    let s = b.components@;
    assert forall|i: int| 0 <= i < s.len() implies #[trigger] s[i].wf() by {
        if i != CTAH_PUMP_INDEX {
            assert(s[i] == ctah_components()[i]);
        }
    }
    assert(s[CTAH_HORIZONTAL_INDEX as int] == ctah_components()[CTAH_HORIZONTAL_INDEX as int]);
    b.lemma_round_trip_exact(CTAH_HORIZONTAL_INDEX as int, m);
}

} // verus!
