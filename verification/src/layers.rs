//! Layer management for the multi-layer map view: which layers exist,
//! their visibility and opacity, and the compositing order. Drawing the
//! layers is GPU work and stays with the caller. Opacity is held in whole
//! percent (`60` is 60% opaque).

use vstd::prelude::*;

verus! {

/// Supported visualization layers.
#[derive(Debug, Clone, Copy, PartialEq, Eq, Structural)]
pub enum LayerType {
    /// Base geographic map.
    BaseMap,
    /// Day/night terminator.
    Greyline,
    /// Maximum usable frequency heat map.
    MufHeatmap,
    /// Aurora forecast oval overlay.
    AuroraOval,
    /// Satellite footprint zones.
    SatelliteFootprint,
    /// Maidenhead grid squares.
    GridSquares,
    /// ITU region boundaries.
    ItuRegions,
    /// Callsign prefix boundaries.
    CallsignPrefix,
}

impl LayerType {
    /// Human-readable name of the layer.
    pub open spec fn spec_name(self) -> Seq<char> {
        match self {
            LayerType::BaseMap => "Base Map"@,
            LayerType::Greyline => "Greyline"@,
            LayerType::MufHeatmap => "MUF Heat Map"@,
            LayerType::AuroraOval => "Aurora Oval"@,
            LayerType::SatelliteFootprint => "Satellites"@,
            LayerType::GridSquares => "Grid"@,
            LayerType::ItuRegions => "ITU Regions"@,
            LayerType::CallsignPrefix => "Callsign Prefix"@,
        }
    }

    /// Human-readable name of the layer.
    pub fn name(&self) -> (r: &'static str)
        ensures
            r@ == self.spec_name(),
    {
        match self {
            LayerType::BaseMap => "Base Map",
            LayerType::Greyline => "Greyline",
            LayerType::MufHeatmap => "MUF Heat Map",
            LayerType::AuroraOval => "Aurora Oval",
            LayerType::SatelliteFootprint => "Satellites",
            LayerType::GridSquares => "Grid",
            LayerType::ItuRegions => "ITU Regions",
            LayerType::CallsignPrefix => "Callsign Prefix",
        }
    }

    /// Keyboard shortcut that toggles the layer; space for the layers
    /// without one.
    pub open spec fn spec_keyboard_shortcut(&self) -> char {
        match self {
            LayerType::MufHeatmap => '1',
            LayerType::AuroraOval => '2',
            LayerType::SatelliteFootprint => '3',
            LayerType::GridSquares => '4',
            LayerType::ItuRegions => '5',
            LayerType::CallsignPrefix => '6',
            LayerType::BaseMap => ' ',
            LayerType::Greyline => ' ',
        }
    }

    /// Keyboard shortcut that toggles the layer.
    #[verifier::when_used_as_spec(spec_keyboard_shortcut)]
    pub fn keyboard_shortcut(&self) -> (r: char)
        ensures
            r == self.spec_keyboard_shortcut(),
    {
        match self {
            LayerType::MufHeatmap => '1',
            LayerType::AuroraOval => '2',
            LayerType::SatelliteFootprint => '3',
            LayerType::GridSquares => '4',
            LayerType::ItuRegions => '5',
            LayerType::CallsignPrefix => '6',
            LayerType::BaseMap => ' ',
            LayerType::Greyline => ' ',
        }
    }
}

/// Blend modes for layer compositing.
#[derive(Debug, Clone, Copy, PartialEq, Eq, Structural)]
pub enum BlendMode {
    /// No transparency, fully opaque.
    Opaque,
    /// Standard alpha blending.
    Blend,
    /// Additive blending (brightens).
    Add,
    /// Screen blending (lightens).
    Screen,
    /// Overlay blending.
    Overlay,
    /// Multiply blending.
    Multiply,
}

/// Configuration of a single layer.
#[derive(Debug, Clone, Copy, PartialEq, Eq, Structural)]
pub struct Layer {
    pub layer_type: LayerType,
    pub visible: bool,
    /// Opacity in whole percent, 0 to 100.
    pub opacity: u8,
    pub blend_mode: BlendMode,
}

/// The stock configuration of each layer: its initial visibility, opacity
/// percent, and blend mode.
pub open spec fn spec_layer_defaults(layer_type: LayerType) -> (bool, u8, BlendMode) {
    match layer_type {
        LayerType::BaseMap => (true, 100u8, BlendMode::Opaque),
        LayerType::Greyline => (true, 80u8, BlendMode::Blend),
        LayerType::MufHeatmap => (false, 60u8, BlendMode::Add),
        LayerType::AuroraOval => (false, 50u8, BlendMode::Blend),
        LayerType::SatelliteFootprint => (true, 40u8, BlendMode::Blend),
        LayerType::GridSquares => (false, 30u8, BlendMode::Blend),
        LayerType::ItuRegions => (false, 25u8, BlendMode::Blend),
        LayerType::CallsignPrefix => (false, 20u8, BlendMode::Blend),
    }
}

impl Layer {
    /// A layer in its stock configuration.
    pub fn new(layer_type: LayerType) -> (r: Self)
        ensures
            r.layer_type == layer_type,
            r.visible == spec_layer_defaults(layer_type).0,
            r.opacity == spec_layer_defaults(layer_type).1,
            r.blend_mode == spec_layer_defaults(layer_type).2,
    {
        let (visible, opacity, blend_mode): (bool, u8, BlendMode) = match layer_type {
            LayerType::BaseMap => (true, 100, BlendMode::Opaque),
            LayerType::Greyline => (true, 80, BlendMode::Blend),
            LayerType::MufHeatmap => (false, 60, BlendMode::Add),
            LayerType::AuroraOval => (false, 50, BlendMode::Blend),
            LayerType::SatelliteFootprint => (true, 40, BlendMode::Blend),
            LayerType::GridSquares => (false, 30, BlendMode::Blend),
            LayerType::ItuRegions => (false, 25, BlendMode::Blend),
            LayerType::CallsignPrefix => (false, 20, BlendMode::Blend),
        };
        Layer { layer_type, visible, opacity, blend_mode }
    }

    /// Flip the layer's visibility.
    pub fn toggle(&mut self)
        ensures
            final(self).visible == !old(self).visible,
            final(self).layer_type == old(self).layer_type,
            final(self).opacity == old(self).opacity,
            final(self).blend_mode == old(self).blend_mode,
    {
        self.visible = !self.visible;
    }

    /// Set the opacity, clamped to 0 through 100 percent.
    pub fn set_opacity(&mut self, opacity_percent: i32)
        ensures
            final(self).opacity == spec_clamped_percent(opacity_percent),
            final(self).layer_type == old(self).layer_type,
            final(self).visible == old(self).visible,
            final(self).blend_mode == old(self).blend_mode,
    {
        self.opacity = if opacity_percent < 0 {
            0
        } else if opacity_percent > 100 {
            100
        } else {
            opacity_percent as u8
        };
    }
}

/// The percent value clamped to 0 through 100.
pub open spec fn spec_clamped_percent(p: i32) -> u8 {
    if p < 0 {
        0
    } else if p > 100 {
        100
    } else {
        p as u8
    }
}

/// The layer of a type in its stock configuration.
pub open spec fn spec_default_layer(layer_type: LayerType) -> Layer {
    Layer {
        layer_type,
        visible: spec_layer_defaults(layer_type).0,
        opacity: spec_layer_defaults(layer_type).1,
        blend_mode: spec_layer_defaults(layer_type).2,
    }
}

/// Layer manager for the multi-layer view.
#[derive(Debug)]
pub struct LayerManager {
    pub layers: Vec<Layer>,
    pub active_layer: LayerType,
}

impl LayerManager {
    /// Each layer type occurs at most once in the list.
    pub open spec fn wf(self) -> bool {
        forall|i: int, j: int|
            0 <= i < self.layers@.len() && 0 <= j < self.layers@.len() && i != j ==> (
            #[trigger] self.layers@[i]).layer_type != (#[trigger] self.layers@[j]).layer_type
    }

    /// All eight layers in their stock configuration, base map active.
    pub fn new() -> (r: Self)
        ensures
            r.layers@.len() == 8,
            r.layers@[0] == spec_default_layer(LayerType::BaseMap),
            r.layers@[1] == spec_default_layer(LayerType::Greyline),
            r.layers@[2] == spec_default_layer(LayerType::MufHeatmap),
            r.layers@[3] == spec_default_layer(LayerType::AuroraOval),
            r.layers@[4] == spec_default_layer(LayerType::SatelliteFootprint),
            r.layers@[5] == spec_default_layer(LayerType::GridSquares),
            r.layers@[6] == spec_default_layer(LayerType::ItuRegions),
            r.layers@[7] == spec_default_layer(LayerType::CallsignPrefix),
            r.active_layer == LayerType::BaseMap,
            r.wf(),
    {
        let mut layers: Vec<Layer> = Vec::new();
        layers.push(Layer::new(LayerType::BaseMap));
        layers.push(Layer::new(LayerType::Greyline));
        layers.push(Layer::new(LayerType::MufHeatmap));
        layers.push(Layer::new(LayerType::AuroraOval));
        layers.push(Layer::new(LayerType::SatelliteFootprint));
        layers.push(Layer::new(LayerType::GridSquares));
        layers.push(Layer::new(LayerType::ItuRegions));
        layers.push(Layer::new(LayerType::CallsignPrefix));
        LayerManager { layers, active_layer: LayerType::BaseMap }
    }

    /// Toggle the visibility of the layer of the given type; returns the
    /// new visibility, or false when no such layer exists.
    pub fn toggle_layer(&mut self, layer_type: LayerType) -> (r: bool)
        requires
            old(self).wf(),
        ensures
            final(self).wf(),
            final(self).active_layer == old(self).active_layer,
            spec_toggled(*old(self), *final(self), layer_type, r),
    {
        let ghost s = self.layers@;
        let mut i: usize = 0;
        #[verifier::loop_isolation(false)]
        while i < self.layers.len()
            invariant
                0 <= i <= s.len(),
                self.layers@ == s,
                self.active_layer == old(self).active_layer,
                forall|k: int| 0 <= k < i ==> (#[trigger] s[k]).layer_type != layer_type,
            decreases s.len() - i,
        {
            if self.layers[i].layer_type == layer_type {
                let mut layer = self.layers[i];
                layer.toggle();
                let visible = layer.visible;
                self.layers.remove(i);
                self.layers.insert(i, layer);
                proof {
                    assert(self.layers@ =~= s.update(i as int, layer));
                    let w = choose|w: int|
                        0 <= w < s.len() && (#[trigger] s[w]).layer_type == layer_type;
                    assert(w == i as int) by {
                        if w != i as int {
                            assert(s[w].layer_type != s[i as int].layer_type);
                        }
                    }
                }
                return visible;
            }
            i += 1;
        }
        false
    }

    /// Set the opacity of the layer of the given type, clamped to 0
    /// through 100 percent; no layer of the type, no change.
    pub fn set_opacity(&mut self, layer_type: LayerType, opacity_percent: i32)
        requires
            old(self).wf(),
        ensures
            final(self).wf(),
            final(self).active_layer == old(self).active_layer,
            (exists|i: int|
                0 <= i < old(self).layers@.len() && (#[trigger] old(self).layers@[i]).layer_type
                    == layer_type) ==> ({
                let i = choose|i: int|
                    0 <= i < old(self).layers@.len() && (#[trigger] old(self).layers@[i]).layer_type
                        == layer_type;
                final(self).layers@ == old(self).layers@.update(
                    i,
                    Layer {
                        opacity: spec_clamped_percent(opacity_percent),
                        ..old(self).layers@[i]
                    },
                )
            }),
            !(exists|i: int|
                0 <= i < old(self).layers@.len() && (#[trigger] old(self).layers@[i]).layer_type
                    == layer_type) ==> final(self).layers@ == old(self).layers@,
    {
        let ghost s = self.layers@;
        let mut i: usize = 0;
        #[verifier::loop_isolation(false)]
        while i < self.layers.len()
            invariant
                0 <= i <= s.len(),
                self.layers@ == s,
                self.active_layer == old(self).active_layer,
                forall|k: int| 0 <= k < i ==> (#[trigger] s[k]).layer_type != layer_type,
            decreases s.len() - i,
        {
            if self.layers[i].layer_type == layer_type {
                let mut layer = self.layers[i];
                layer.set_opacity(opacity_percent);
                self.layers.remove(i);
                self.layers.insert(i, layer);
                proof {
                    assert(self.layers@ =~= s.update(i as int, layer));
                    let w = choose|w: int|
                        0 <= w < s.len() && (#[trigger] s[w]).layer_type == layer_type;
                    assert(w == i as int) by {
                        if w != i as int {
                            assert(s[w].layer_type != s[i as int].layer_type);
                        }
                    }
                }
                return ;
            }
            i += 1;
        }
    }

    /// The layer of the given type, if present.
    pub fn get_layer(&self, layer_type: LayerType) -> (r: Option<&Layer>)
        requires
            self.wf(),
        ensures
            r is Some <==> exists|i: int|
                0 <= i < self.layers@.len() && (#[trigger] self.layers@[i]).layer_type
                    == layer_type,
            r is Some ==> *r.unwrap() == self.layers@[choose|i: int|
                0 <= i < self.layers@.len() && (#[trigger] self.layers@[i]).layer_type
                    == layer_type],
    {
        let ghost s = self.layers@;
        let mut i: usize = 0;
        #[verifier::loop_isolation(false)]
        while i < self.layers.len()
            invariant
                0 <= i <= s.len(),
                self.layers@ == s,
                forall|k: int| 0 <= k < i ==> (#[trigger] s[k]).layer_type != layer_type,
            decreases s.len() - i,
        {
            if self.layers[i].layer_type == layer_type {
                proof {
                    let w = choose|w: int|
                        0 <= w < s.len() && (#[trigger] s[w]).layer_type == layer_type;
                    assert(w == i as int) by {
                        if w != i as int {
                            assert(s[w].layer_type != s[i as int].layer_type);
                        }
                    }
                }
                return Some(&self.layers[i]);
            }
            i += 1;
        }
        None
    }

    /// The visible layers, in list order.
    pub fn visible_layers(&self) -> (r: Vec<Layer>)
        ensures
            r@ == self.layers@.filter(|l: Layer| l.visible),
    {
        let ghost s = self.layers@;
        let ghost pred = |l: Layer| l.visible;
        let mut r: Vec<Layer> = Vec::new();
        let mut i: usize = 0;
        #[verifier::loop_isolation(false)]
        while i < self.layers.len()
            invariant
                0 <= i <= s.len(),
                self.layers@ == s,
                r@ == s.take(i as int).filter(pred),
            decreases s.len() - i,
        {
            if self.layers[i].visible {
                r.push(self.layers[i]);
            }
            proof {
                reveal(Seq::filter);
                let t = s.take(i as int + 1);
                assert(t.drop_last() =~= s.take(i as int));
                assert(t.last() == s[i as int]);
                assert(r@ =~= t.filter(pred));
            }
            i += 1;
        }
        proof {
            assert(s.take(s.len() as int) =~= s);
        }
        r
    }

    /// Make the given layer the active one for editing.
    pub fn set_active(&mut self, layer_type: LayerType)
        ensures
            final(self).active_layer == layer_type,
            final(self).layers == old(self).layers,
    {
        self.active_layer = layer_type;
    }

    /// The compositing order, back to front.
    pub fn rendering_order(&self) -> (r: Vec<LayerType>)
        ensures
            r@ =~= seq![
                LayerType::BaseMap,
                LayerType::Greyline,
                LayerType::MufHeatmap,
                LayerType::ItuRegions,
                LayerType::CallsignPrefix,
                LayerType::GridSquares,
                LayerType::SatelliteFootprint,
                LayerType::AuroraOval,
            ],
    {
        let mut r: Vec<LayerType> = Vec::new();
        r.push(LayerType::BaseMap);
        r.push(LayerType::Greyline);
        r.push(LayerType::MufHeatmap);
        r.push(LayerType::ItuRegions);
        r.push(LayerType::CallsignPrefix);
        r.push(LayerType::GridSquares);
        r.push(LayerType::SatelliteFootprint);
        r.push(LayerType::AuroraOval);
        r
    }

    /// Toggle the layer bound to the keyboard shortcut, if any.
    pub fn toggle_by_key(&mut self, key: char) -> (r: Option<bool>)
        requires
            old(self).wf(),
        ensures
            final(self).wf(),
            final(self).active_layer == old(self).active_layer,
            match spec_layer_for_key(key) {
                Some(ty) => r is Some && spec_toggled(*old(self), *final(self), ty, r.unwrap()),
                None => r is None && final(self).layers == old(self).layers,
            },
    {
        match layer_for_key(key) {
            Some(ty) => Some(self.toggle_layer(ty)),
            None => None,
        }
    }
}

/// The effect of toggling the layer of a type: the first matching layer
/// flips its visibility and the flag reports the new state; with no
/// matching layer nothing changes and the flag is false.
pub open spec fn spec_toggled(m0: LayerManager, m1: LayerManager, ty: LayerType, r: bool) -> bool {
    if exists|i: int| 0 <= i < m0.layers@.len() && (#[trigger] m0.layers@[i]).layer_type == ty {
        let i = choose|i: int|
            0 <= i < m0.layers@.len() && (#[trigger] m0.layers@[i]).layer_type == ty;
        m1.layers@ == m0.layers@.update(
            i,
            Layer { visible: !m0.layers@[i].visible, ..m0.layers@[i] },
        ) && r == !m0.layers@[i].visible
    } else {
        m1.layers@ == m0.layers@ && r == false
    }
}

/// The layer bound to a keyboard shortcut.
pub open spec fn spec_layer_for_key(key: char) -> Option<LayerType> {
    if key == '1' {
        Some(LayerType::MufHeatmap)
    } else if key == '2' {
        Some(LayerType::AuroraOval)
    } else if key == '3' {
        Some(LayerType::SatelliteFootprint)
    } else if key == '4' {
        Some(LayerType::GridSquares)
    } else if key == '5' {
        Some(LayerType::ItuRegions)
    } else if key == '6' {
        Some(LayerType::CallsignPrefix)
    } else {
        None
    }
}

/// The layer bound to a keyboard shortcut.
#[verifier::when_used_as_spec(spec_layer_for_key)]
pub fn layer_for_key(key: char) -> (r: Option<LayerType>)
    ensures
        r == spec_layer_for_key(key),
{
    if key == '1' {
        Some(LayerType::MufHeatmap)
    } else if key == '2' {
        Some(LayerType::AuroraOval)
    } else if key == '3' {
        Some(LayerType::SatelliteFootprint)
    } else if key == '4' {
        Some(LayerType::GridSquares)
    } else if key == '5' {
        Some(LayerType::ItuRegions)
    } else if key == '6' {
        Some(LayerType::CallsignPrefix)
    } else {
        None
    }
}

impl Default for LayerManager {
    /// All eight layers in their stock configuration, base map active.
    fn default() -> (r: Self)
        ensures
            r.layers@.len() == 8,
            r.active_layer == LayerType::BaseMap,
            r.wf(),
    {
        LayerManager::new()
    }
}

} // verus!
