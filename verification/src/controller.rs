use vstd::prelude::*;

verus! {

use crate::frame::frame_word;
use crate::frame::Frame;

/// The one piece of persistent state around the codec: the last-sent throttle
/// and the current telemetry setting, so that toggling telemetry re-sends the
/// last known throttle rather than resetting it to zero. Owned by a single
/// control loop; every returned frame is freshly encoded from this state.
pub struct Controller {
    throttle: u16,
    telemetry: bool,
}

impl Controller {
    /// The last throttle recorded, the one a telemetry toggle re-sends.
    pub closed spec fn throttle_spec(self) -> u16 {
        self.throttle
    }

    /// The current telemetry setting, applied to every frame sent.
    pub closed spec fn telemetry_spec(self) -> bool {
        self.telemetry
    }

    /// The recorded throttle always stays in the encodable range.
    pub open spec fn wf(self) -> bool {
        self.throttle_spec() < 2000
    }

    /// A fresh controller: throttle zero, telemetry off.
    pub fn new() -> (r: Controller)
        ensures
            r.wf(),
            r.throttle_spec() == 0,
            !r.telemetry_spec(),
    {
        Controller { throttle: 0, telemetry: false }
    }

    /// Records a new throttle and returns the frame that transmits it, or
    /// `None`, leaving the state unchanged, if and only if the throttle is
    /// out of bounds.
    pub fn set_throttle(&mut self, speed: u16) -> (r: Option<Frame>)
        requires
            old(self).wf(),
        ensures
            final(self).wf(),
            r is Some <==> speed < 2000,
            final(self).telemetry_spec() == old(self).telemetry_spec(),
            r matches Some(f) ==> final(self).throttle_spec() == speed && f@ == frame_word(
                (speed + 48) as u16,
                old(self).telemetry_spec(),
            ) && f@ >> 5 == speed + 48 && (f@ & 0x10 != 0) == old(self).telemetry_spec()
                && f.is_throttle(),
            r is None ==> *final(self) == *old(self),
    {
        if speed >= 2000 {
            return None;
        }
        self.throttle = speed;
        Frame::new(speed, self.telemetry)
    }

    /// Switches the telemetry setting and returns a frame that re-sends the
    /// last recorded throttle with the new setting.
    pub fn set_telemetry(&mut self, enabled: bool) -> (r: Frame)
        requires
            old(self).wf(),
        ensures
            final(self).wf(),
            final(self).telemetry_spec() == enabled,
            final(self).throttle_spec() == old(self).throttle_spec(),
            r@ == frame_word((old(self).throttle_spec() + 48) as u16, enabled),
            r@ >> 5 == old(self).throttle_spec() + 48,
            (r@ & 0x10 != 0) == enabled,
            r.is_throttle(),
    {
        self.telemetry = enabled;
        let frame = Frame::new(self.throttle, enabled);
        frame.unwrap()
    }
}

} // verus!
