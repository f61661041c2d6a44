//! Layer selection from the two layer keys.
use vstd::prelude::*;

verus! {

/// The active layer: derived anew on each resolution from the two layer keys, with
/// both keys together taking precedence over either alone.
#[derive(Clone, Copy, PartialEq, Eq, Structural, Debug)]
pub enum LayerLevel {
    NoLayer,
    LayerOne,
    LayerTwo,
    LayerOneAndTwo,
}

/// The layer for the states of the two layer keys.
pub open spec fn layer_for(layer_one: bool, layer_two: bool) -> LayerLevel {
    if layer_one && layer_two {
        LayerLevel::LayerOneAndTwo
    } else if layer_one {
        LayerLevel::LayerOne
    } else if layer_two {
        LayerLevel::LayerTwo
    } else {
        LayerLevel::NoLayer
    }
}

impl LayerLevel {
    /// The layer selected while the first layer key is `layer_one` and the second is
    /// `layer_two` (`true` meaning held).
    pub fn new(layer_one: bool, layer_two: bool) -> (r: LayerLevel)
        ensures
            r == layer_for(layer_one, layer_two),
            layer_one && layer_two ==> r == LayerLevel::LayerOneAndTwo,
            layer_one && !layer_two ==> r == LayerLevel::LayerOne,
            !layer_one && layer_two ==> r == LayerLevel::LayerTwo,
            !layer_one && !layer_two ==> r == LayerLevel::NoLayer,
    {
        if layer_one && layer_two {
            return LayerLevel::LayerOneAndTwo;
        }
        if layer_one {
            return LayerLevel::LayerOne;
        }
        if layer_two {
            return LayerLevel::LayerTwo;
        }
        LayerLevel::NoLayer
    }
}

} // verus!
