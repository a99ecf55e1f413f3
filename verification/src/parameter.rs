use vstd::prelude::*;

verus! {

/// The direction in which a user parameter is stepped.
#[derive(Clone, Copy, Debug, PartialEq, Eq, Structural)]
pub enum ParameterChange {
    Increment,
    Decrement,
}

/// What a parameter index of the FM instrument controls: the five synth
/// parameters, then the envelope's parameters.
#[derive(Clone, Copy, Debug, PartialEq, Eq, Structural)]
pub enum ParameterTarget {
    CarrierRatio,
    ModulatorRatio,
    ModIndex,
    LfoAmp,
    LfoFreq,
    /// The envelope parameter at this index of the envelope's own list.
    Envelope(usize),
    /// A synth parameter that acts on nothing.
    Unassigned,
}

pub open spec fn spec_route_parameter(index: usize, synth_param_count: usize) -> ParameterTarget {
    if index >= synth_param_count {
        ParameterTarget::Envelope((index - synth_param_count) as usize)
    } else if index == 0 {
        ParameterTarget::CarrierRatio
    } else if index == 1 {
        ParameterTarget::ModulatorRatio
    } else if index == 2 {
        ParameterTarget::ModIndex
    } else if index == 3 {
        ParameterTarget::LfoAmp
    } else if index == 4 {
        ParameterTarget::LfoFreq
    } else {
        ParameterTarget::Unassigned
    }
}

/// Decides what an update of the parameter at `index` acts on, when the synth
/// has `synth_param_count` parameters of its own before the envelope's.
pub fn route_parameter(index: usize, synth_param_count: usize) -> (target: ParameterTarget)
    ensures
        target == spec_route_parameter(index, synth_param_count),
{
    if index >= synth_param_count {
        return ParameterTarget::Envelope(index - synth_param_count);
    }
    match index {
        0 => ParameterTarget::CarrierRatio,
        1 => ParameterTarget::ModulatorRatio,
        2 => ParameterTarget::ModIndex,
        3 => ParameterTarget::LfoAmp,
        4 => ParameterTarget::LfoFreq,
        _ => ParameterTarget::Unassigned,
    }
}

/// The parameter indices of the instrument and of its envelope line up: index
/// `synth_param_count + k` is the envelope's parameter `k`, and each of the five
/// synth parameters has its own target.
pub proof fn law_parameter_routing(synth_param_count: usize, k: usize)
    requires
        synth_param_count + k <= usize::MAX,
    ensures
        spec_route_parameter((synth_param_count + k) as usize, synth_param_count)
            == ParameterTarget::Envelope(k),
        forall|i: usize, j: usize|
            i < j < 5 && j < synth_param_count ==> spec_route_parameter(i, synth_param_count)
                != spec_route_parameter(j, synth_param_count),
{
}

/// The instrument's own parameters come in the order in which they are shown:
/// carrier ratio, modulator ratio, modulation index, LFO amplitude, LFO
/// frequency; any further synth parameter acts on nothing.
pub proof fn law_synth_parameter_order(synth_param_count: usize, index: usize)
    requires
        index < synth_param_count,
    ensures
        index == 0 ==> spec_route_parameter(index, synth_param_count) == ParameterTarget::CarrierRatio,
        index == 1 ==> spec_route_parameter(index, synth_param_count) == ParameterTarget::ModulatorRatio,
        index == 2 ==> spec_route_parameter(index, synth_param_count) == ParameterTarget::ModIndex,
        index == 3 ==> spec_route_parameter(index, synth_param_count) == ParameterTarget::LfoAmp,
        index == 4 ==> spec_route_parameter(index, synth_param_count) == ParameterTarget::LfoFreq,
        index >= 5 ==> spec_route_parameter(index, synth_param_count) == ParameterTarget::Unassigned,
        !(spec_route_parameter(index, synth_param_count) is Envelope),
{
}

} // verus!
