//! Application views: the screens the surrounding display can show.
//! Rendering them is GPU work and stays with the caller.

use vstd::prelude::*;

verus! {

/// Application view.
#[derive(Debug, Clone, Copy, PartialEq, Eq, Structural)]
pub enum AppView {
    Clock,
    PropagationMap,
    Forecast,
    Moon,
    Satellite,
    DxCluster,
}

impl AppView {
    /// All available views, in display order.
    pub fn all() -> (r: Vec<AppView>)
        ensures
            r@ =~= seq![
                AppView::Clock,
                AppView::PropagationMap,
                AppView::Forecast,
                AppView::Moon,
                AppView::Satellite,
                AppView::DxCluster,
            ],
    {
        let mut r: Vec<AppView> = Vec::new();
        r.push(AppView::Clock);
        r.push(AppView::PropagationMap);
        r.push(AppView::Forecast);
        r.push(AppView::Moon);
        r.push(AppView::Satellite);
        r.push(AppView::DxCluster);
        r
    }

    /// Human-readable name of the view.
    pub open spec fn spec_name(self) -> Seq<char> {
        match self {
            AppView::Clock => "Clock"@,
            AppView::PropagationMap => "Propagation Map"@,
            AppView::Forecast => "Forecast"@,
            AppView::Moon => "Moon"@,
            AppView::Satellite => "Satellite"@,
            AppView::DxCluster => "DX Cluster"@,
        }
    }

    /// Human-readable name of the view.
    pub fn name(&self) -> (r: &'static str)
        ensures
            r@ == self.spec_name(),
    {
        match self {
            AppView::Clock => "Clock",
            AppView::PropagationMap => "Propagation Map",
            AppView::Forecast => "Forecast",
            AppView::Moon => "Moon",
            AppView::Satellite => "Satellite",
            AppView::DxCluster => "DX Cluster",
        }
    }
}

impl Default for AppView {
    /// The clock is the opening view.
    fn default() -> (r: Self)
        ensures
            r == AppView::Clock,
    {
        AppView::Clock
    }
}

} // verus!
