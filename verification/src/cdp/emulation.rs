//! The `Emulation` domain.
use vstd::prelude::*;

use crate::number::Num;

verus! {

/// Parameters of `Emulation.setDeviceMetricsOverride`.
#[derive(Clone, Copy, Debug, PartialEq, Eq, Structural)]
pub struct SetDeviceMetricsOverrideParams {
    pub width: i64,
    pub height: i64,
    pub device_scale_factor: Num,
    pub mobile: bool,
}

impl DeepView for SetDeviceMetricsOverrideParams {
    type V = SetDeviceMetricsOverrideParams;

    open spec fn deep_view(&self) -> SetDeviceMetricsOverrideParams {
        *self
    }
}

/// A media feature of CSS media queries.
#[derive(Debug, PartialEq, Eq)]
pub struct MediaFeature {
    pub name: String,
    pub value: String,
}

/// The contents of a [`MediaFeature`].
pub struct MediaFeatureView {
    pub name: Seq<char>,
    pub value: Seq<char>,
}

impl DeepView for MediaFeature {
    type V = MediaFeatureView;

    open spec fn deep_view(&self) -> MediaFeatureView {
        MediaFeatureView {
            name: self.name.deep_view(),
            value: self.value.deep_view(),
        }
    }
}

/// Parameters of `Emulation.setGeolocationOverride`.
#[derive(Clone, Copy, Debug, PartialEq, Eq, Structural)]
pub struct SetGeolocationOverrideParams {
    pub latitude: Option<Num>,
    pub longitude: Option<Num>,
    pub accuracy: Option<Num>,
}

impl DeepView for SetGeolocationOverrideParams {
    type V = SetGeolocationOverrideParams;

    open spec fn deep_view(&self) -> SetGeolocationOverrideParams {
        *self
    }
}

} // verus!
