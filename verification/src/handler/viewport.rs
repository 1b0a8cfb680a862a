//! The screen that a page is shown on.
use vstd::prelude::*;

use crate::cdp::emulation::SetDeviceMetricsOverrideParams;
use crate::cdp::page;
use crate::number::Num;

verus! {

/// A screen.
#[derive(Clone, Copy, Debug, PartialEq, Eq, Structural)]
pub struct Viewport {
    pub width: u32,
    pub height: u32,
    pub device_scale_factor: Option<Num>,
    pub emulating_mobile: bool,
    pub is_landscape: bool,
    pub has_touch: bool,
}

impl DeepView for Viewport {
    type V = Viewport;

    open spec fn deep_view(&self) -> Viewport {
        *self
    }
}

impl Viewport {
    /// The screen where none is given: 800 by 600 pixels.
    pub open spec fn standard() -> Viewport {
        Viewport {
            width: 800,
            height: 600,
            device_scale_factor: None,
            emulating_mobile: false,
            is_landscape: false,
            has_touch: false,
        }
    }

    /// The device that shows such a screen.
    pub open spec fn device(self) -> SetDeviceMetricsOverrideParams {
        SetDeviceMetricsOverrideParams {
            width: self.width as i64,
            height: self.height as i64,
            device_scale_factor: match self.device_scale_factor {
                Some(factor) => factor,
                None => Num::Whole(1),
            },
            mobile: self.emulating_mobile,
        }
    }

    /// The region of the page that such a screen shows: from the upper left corner on, at
    /// its own scale.
    pub open spec fn region(self) -> page::Viewport {
        page::Viewport {
            x: Num::Whole(0),
            y: Num::Whole(0),
            width: Num::Whole(self.width as i64),
            height: Num::Whole(self.height as i64),
            scale: Num::Whole(1),
        }
    }
}

impl Default for Viewport {
    fn default() -> (viewport: Viewport)
        ensures
            viewport == Viewport::standard(),
    {
        Viewport {
            width: 800,
            height: 600,
            device_scale_factor: None,
            emulating_mobile: false,
            is_landscape: false,
            has_touch: false,
        }
    }
}

impl From<Viewport> for SetDeviceMetricsOverrideParams {
    fn from(value: Viewport) -> (params: SetDeviceMetricsOverrideParams) {
        SetDeviceMetricsOverrideParams {
            width: value.width as i64,
            height: value.height as i64,
            device_scale_factor: match value.device_scale_factor {
                Some(factor) => factor,
                None => Num::Whole(1),
            },
            mobile: value.emulating_mobile,
        }
    }
}

impl vstd::std_specs::convert::FromSpecImpl<Viewport> for SetDeviceMetricsOverrideParams {
    open spec fn obeys_from_spec() -> bool {
        true
    }

    open spec fn from_spec(value: Viewport) -> SetDeviceMetricsOverrideParams {
        value.device()
    }
}

impl From<Viewport> for page::Viewport {
    fn from(value: Viewport) -> (region: page::Viewport) {
        page::Viewport {
            x: Num::Whole(0),
            y: Num::Whole(0),
            width: Num::Whole(value.width as i64),
            height: Num::Whole(value.height as i64),
            scale: Num::Whole(1),
        }
    }
}

impl vstd::std_specs::convert::FromSpecImpl<Viewport> for page::Viewport {
    open spec fn obeys_from_spec() -> bool {
        true
    }

    open spec fn from_spec(value: Viewport) -> page::Viewport {
        value.region()
    }
}

} // verus!
