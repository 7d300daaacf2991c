use vstd::prelude::*;

verus! {

/// Whether a medium of `layers` layers (the last one being the half-space)
/// is one that the propagator chain handles: a half-space alone, one layer
/// over it, or two layers over it.
pub open spec fn supported_layer_count(layers: int) -> bool {
    1 <= layers <= 3
}

/// The interfaces of a stack of `layers` layers, from the free surface
/// down: interface `k` separates layer `k` (above) from layer `k + 1`
/// (below).
pub open spec fn interface_chain(layers: nat) -> Seq<(usize, usize)> {
    Seq::new((layers - 1) as nat, |k: int| (k as usize, (k + 1) as usize))
}

/// The layer structure of a horizontally layered medium: layer 0 is at the
/// free surface and the last layer is the half-space.
pub struct LayerStack {
    layers: usize,
}

impl LayerStack {
    /// Number of layers, the half-space included.
    pub closed spec fn layer_count(self) -> nat {
        self.layers as nat
    }

    #[verifier::type_invariant]
    spec fn well_formed(self) -> bool {
        supported_layer_count(self.layers as int)
    }

    /// The stack for a medium of `layers` layers, or `None` where the
    /// propagator chain cannot handle that many.
    pub fn new(layers: usize) -> (stack: Option<LayerStack>)
        ensures
            stack is Some <==> supported_layer_count(layers as int),
            stack is Some <==> 1 <= layers <= 3,
            stack matches Some(s) ==> s.layer_count() == layers,
    {
        if 1 <= layers && layers <= 3 {
            Some(LayerStack { layers })
        } else {
            None
        }
    }

    /// Number of layers, the half-space included.
    pub fn count(&self) -> (n: usize)
        ensures
            n == self.layer_count(),
            supported_layer_count(n as int),
    {
        proof {
            use_type_invariant(self);
        }
        self.layers
    }

    /// Index of the half-space, the deepest layer. The layers above it are
    /// exactly those whose thicknesses add up to the depth of its top.
    pub fn half_space(&self) -> (index: usize)
        ensures
            index == self.layer_count() - 1,
            index < 3,
    {
        proof {
            use_type_invariant(self);
        }
        self.layers - 1
    }

    /// Index of the layer that lies directly on the half-space, if any.
    pub fn layer_above_half_space(&self) -> (index: Option<usize>)
        ensures
            index is Some <==> self.layer_count() > 1,
            index matches Some(i) ==> i == self.layer_count() - 2,
    {
        proof {
            use_type_invariant(self);
        }
        if self.layers > 1 {
            Some(self.layers - 2)
        } else {
            None
        }
    }

    /// The interfaces between neighbouring layers, from the free surface
    /// down: interface `k` separates layer `k` (above) from layer `k + 1`
    /// (below). The propagator chain multiplies one factor per interface in
    /// this order.
    pub fn interfaces(&self) -> (pairs: Vec<(usize, usize)>)
        ensures
            pairs@ == interface_chain(self.layer_count()),
            pairs.len() == self.layer_count() - 1,
            forall|k: int| 0 <= k < pairs.len() ==> #[trigger] pairs[k] == (k as usize, (k + 1) as usize),
    {
        proof {
            use_type_invariant(self);
        }
        let mut pairs: Vec<(usize, usize)> = Vec::new();
        let mut k: usize = 0;
        while k + 1 < self.layers
            invariant
                k + 1 <= self.layers <= 3,
                pairs.len() == k,
                forall|j: int| 0 <= j < pairs.len() ==> #[trigger] pairs[j] == (j as usize, (j + 1) as usize),
            decreases self.layers - k,
        {
            pairs.push((k, k + 1));
            k = k + 1;
        }
        assert(pairs@ =~= interface_chain(self.layers as nat));
        pairs
    }
}

/// Law of the layer stack: for every supported number of layers the
/// interfaces chain the layers without a gap, starting at the free-surface
/// layer and ending on the half-space, one interface fewer than layers.
pub proof fn lemma_interfaces_reach_half_space(layers: nat)
    requires
        supported_layer_count(layers as int),
    ensures
        1 <= layers <= 3,
        interface_chain(layers).len() == layers - 1,
        forall|k: int|
            0 <= k < layers - 1 ==> #[trigger] interface_chain(layers)[k] == (k as usize, (k
                + 1) as usize),
        layers > 1 ==> interface_chain(layers)[0].0 == 0 && interface_chain(layers)[layers
            - 2].1 == layers - 1,
        forall|k: int|
            0 <= k < layers - 2 ==> #[trigger] interface_chain(layers)[k].1 == interface_chain(
                layers,
            )[k + 1].0,
{
}

} // verus!
