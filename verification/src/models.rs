//! The serializable date value handed to the response layer.

use vstd::prelude::*;

use crate::amlich;
use crate::render;
use crate::vncalendar::time;

verus! {

/// A date rendered for serialization: the lunar and solar display strings
/// and the leap marker.
pub struct VNDate {
    pub lunar: String,
    pub solar: String,
    pub is_leap: bool,
}

impl VNDate {
    /// A rendered date from its parts.
    pub fn new(lunar: String, solar: String, is_leap: bool) -> (r: VNDate)
        ensures
            r.lunar == lunar,
            r.solar == solar,
            r.is_leap == is_leap,
    {
        VNDate { lunar, solar, is_leap }
    }
}

/// Renders a civil date wrapper for serialization: the lunar display
/// string (with its leap marker), the solar display string, and the leap
/// flag.
pub fn date_to_response(vndate: &time::VNDate) -> (r: VNDate)
    requires
        vndate.wf(),
    ensures
        r.lunar@ == amlich::spec_lunar_date_str(vndate.spec_lunar()),
        r.solar@ == render::spec_solar_ymd_str(vndate.spec_solar().year as int,
            vndate.spec_solar().month as int, vndate.spec_solar().day as int),
        r.is_leap == vndate.spec_lunar().is_leap,
{
    let solar = vndate.solar_display();
    let lunar = vndate.lunar_display();
    let is_leap = vndate.is_leap();
    VNDate::new(lunar, solar, is_leap)
}

} // verus!
