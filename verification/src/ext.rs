//! Extension units and the controls with fixed places.
//!
//! Every operation comes in two steps. The first makes the query that a
//! transport is to carry to the driver of the device; the second reads what
//! the transport saw come back. Between the two the caller performs the
//! query, once, on the device that the handle borrows.

use crate::flags::ControlInfo;
use crate::query::{
    check_reply, outcome_view, reply_into, reply_of, QueryError, QueryView, XuControlQuery,
    XuQuery,
};
use vstd::prelude::*;

verus! {

/// The unit that holds the flip and exposure controls.
pub const UVC_EXTENSION_UNIT: u8 = 0x03;

/// Selector of the horizontal flip.
pub const HFLIP_UNIT_SELECTOR: u8 = 0x0c;

/// Selector of the vertical flip.
pub const VFLIP_UNIT_SELECTOR: u8 = 0x0d;

/// Selector of the auto-exposure weights.
pub const EXPOSURE_WEIGHTS_UNIT_SELECTOR: u8 = 0x09;

/// Number of bytes in the grid of auto-exposure weights.
pub const EXPOSURE_WEIGHTS_SIZE: usize = 17;

/// Where an extension keeps the controls that have names here: the number
/// of the unit and the selector of each control.
///
/// The places are a vendor's choice. Nothing says that two cameras keep
/// these controls at the same places, or have them at all.
#[derive(Clone, Copy, Debug, PartialEq, Eq, Structural)]
pub struct ControlProfile {
    /// The extension unit.
    pub unit: u8,
    /// Selector of the horizontal flip.
    pub horizontal_flip: u8,
    /// Selector of the vertical flip.
    pub vertical_flip: u8,
    /// Selector of the auto-exposure weights.
    pub exposure_weights: u8,
}

impl ControlProfile {
    /// The places of the one extension that `UvcExt::new` assumes.
    pub open spec fn spec_standard() -> ControlProfile {
        ControlProfile {
            unit: UVC_EXTENSION_UNIT,
            horizontal_flip: HFLIP_UNIT_SELECTOR,
            vertical_flip: VFLIP_UNIT_SELECTOR,
            exposure_weights: EXPOSURE_WEIGHTS_UNIT_SELECTOR,
        }
    }

    /// The places of the one extension that `UvcExt::new` assumes.
    #[verifier::when_used_as_spec(spec_standard)]
    pub fn standard() -> (profile: ControlProfile)
        ensures
            profile == ControlProfile::standard(),
    {
        ControlProfile {
            unit: UVC_EXTENSION_UNIT,
            horizontal_flip: HFLIP_UNIT_SELECTOR,
            vertical_flip: VFLIP_UNIT_SELECTOR,
            exposure_weights: EXPOSURE_WEIGHTS_UNIT_SELECTOR,
        }
    }
}

/// The query that turns on the flip at `selector` of `unit`: `SET_CUR` with
/// the 16-bit value one, low byte first.
pub open spec fn flip_query(unit: u8, selector: u8) -> QueryView {
    QueryView { unit, selector, query: XuQuery::SetCur, data: seq![1u8, 0u8] }
}

/// The query that asks a unit which operations one of its controls
/// supports: `GET_INFO` with a buffer of one byte.
pub open spec fn control_info_query(unit: u8, selector: u8) -> QueryView {
    QueryView { unit, selector, query: XuQuery::GetInfo, data: seq![0u8] }
}

/// What comes of a `GET_INFO` query once the driver has answered: the byte
/// that came back, whole, or the failure.
pub open spec fn control_info_of(outcome: Result<Seq<u8>, i32>) -> Result<u8, QueryError> {
    match reply_of(outcome, 1) {
        Ok(buffer) => Ok(buffer[0]),
        Err(error) => Err(error),
    }
}

/// Grants access to operations that are specific to UVC devices.
///
/// `D` is the handle of the open device. It is borrowed and only passed on:
/// the transport uses it to reach the driver.
pub struct UvcExt<'a, D> {
    device: &'a D,
    profile: ControlProfile,
}

impl<'a, D> UvcExt<'a, D> {
    /// The device that the operations are meant for.
    pub closed spec fn spec_device(&self) -> &'a D {
        self.device
    }

    /// Where the named controls are taken to be.
    pub closed spec fn spec_profile(&self) -> ControlProfile {
        self.profile
    }

    /// Starts from an open device, with the named controls at their
    /// standard places.
    pub fn new(device: &'a D) -> (ext: UvcExt<'a, D>)
        ensures
            ext.device() == device,
            ext.profile() == ControlProfile::standard(),
    {
        UvcExt { device, profile: ControlProfile::standard() }
    }

    /// Starts from an open device that keeps the named controls where
    /// `profile` says.
    pub fn with_profile(device: &'a D, profile: ControlProfile) -> (ext: UvcExt<'a, D>)
        ensures
            ext.device() == device,
            ext.profile() == profile,
    {
        UvcExt { device, profile }
    }

    /// Where the named controls are taken to be.
    #[verifier::when_used_as_spec(spec_profile)]
    pub fn profile(&self) -> (profile: ControlProfile)
        ensures
            profile == self.profile(),
    {
        self.profile
    }

    /// The device that the operations are meant for.
    #[verifier::when_used_as_spec(spec_device)]
    pub fn device(&self) -> (device: &'a D)
        ensures
            device == self.device(),
    {
        self.device
    }

    /// One extension unit of the device, by its number.
    pub fn extension_unit(&self, unit_id: u8) -> (unit: ExtensionUnit<'_, D>)
        ensures
            unit.unit_id() == unit_id,
            unit.device() == self.device(),
    {
        ExtensionUnit { unit_id, device: self.device }
    }

    /// The query that flips the picture horizontally.
    pub fn horizontal_flip(&mut self) -> (query: XuControlQuery)
        ensures
            query@ == flip_query(old(self).profile().unit, old(self).profile().horizontal_flip),
            query@.wf(),
            *final(self) == *old(self),
    {
        self.control_query(
            self.profile.unit,
            self.profile.horizontal_flip,
            XuQuery::SetCur,
            &[1, 0],
        )
    }

    /// The query that flips the picture vertically.
    pub fn vertical_flip(&mut self) -> (query: XuControlQuery)
        ensures
            query@ == flip_query(old(self).profile().unit, old(self).profile().vertical_flip),
            query@.wf(),
            *final(self) == *old(self),
    {
        self.control_query(
            self.profile.unit,
            self.profile.vertical_flip,
            XuQuery::SetCur,
            &[1, 0],
        )
    }

    /// The query that sets the auto-exposure weights to `weights`.
    pub fn set_auto_exposure_weights(&mut self, weights: &[u8; 17]) -> (query: XuControlQuery)
        ensures
            query@ == (QueryView {
                unit: old(self).profile().unit,
                selector: old(self).profile().exposure_weights,
                query: XuQuery::SetCur,
                data: weights@,
            }),
            query@.size() == EXPOSURE_WEIGHTS_SIZE,
            query@.wf(),
            *final(self) == *old(self),
    {
        self.control_query(
            self.profile.unit,
            self.profile.exposure_weights,
            XuQuery::SetCur,
            weights,
        )
    }

    /// The query that reads the auto-exposure weights. Its buffer starts out
    /// as `out` stands.
    pub fn get_auto_exposure_weights(&mut self, out: &[u8; 17]) -> (query: XuControlQuery)
        ensures
            query@ == (QueryView {
                unit: old(self).profile().unit,
                selector: old(self).profile().exposure_weights,
                query: XuQuery::GetCur,
                data: out@,
            }),
            query@.size() == EXPOSURE_WEIGHTS_SIZE,
            query@.wf(),
            *final(self) == *old(self),
    {
        self.control_query(
            self.profile.unit,
            self.profile.exposure_weights,
            XuQuery::GetCur,
            out,
        )
    }

    /// Reads the answer to the query of `get_auto_exposure_weights` into
    /// `out`. On a failure `out` stays as it is.
    pub fn auto_exposure_weights_reply(
        &self,
        outcome: Result<Vec<u8>, i32>,
        out: &mut [u8; 17],
    ) -> (reply: Result<(), QueryError>)
        ensures
            match reply_of(outcome_view(outcome), EXPOSURE_WEIGHTS_SIZE as nat) {
                Ok(weights) => reply == Ok::<(), QueryError>(()) && final(out)@ == weights,
                Err(error) => reply == Err::<(), QueryError>(error) && *final(out) == *old(out),
            },
    {
        reply_into(outcome, out)
    }

    /// The query with the given fields and the bytes of `data` as its
    /// buffer. Its size is the length of `data`.
    pub fn control_query<const SIZE: usize>(
        &self,
        unit: u8,
        selector: u8,
        query: XuQuery,
        data: &[u8; SIZE],
    ) -> (made: XuControlQuery)
        requires
            SIZE <= XuControlQuery::MAX_DATA,
        ensures
            made@ == (QueryView { unit, selector, query, data: data@ }),
            made@.size() == SIZE,
            made@.wf(),
    {
        self.extension_unit(unit).control_query(selector, query, data)
    }
}

/// One extension unit of a device.
pub struct ExtensionUnit<'a, D> {
    unit_id: u8,
    device: &'a D,
}

impl<'a, D> ExtensionUnit<'a, D> {
    /// The number of the unit.
    pub closed spec fn spec_unit_id(&self) -> u8 {
        self.unit_id
    }

    /// The device that the unit belongs to.
    pub closed spec fn spec_device(&self) -> &'a D {
        self.device
    }

    /// The number of the unit.
    #[verifier::when_used_as_spec(spec_unit_id)]
    pub fn unit_id(&self) -> (unit_id: u8)
        ensures
            unit_id == self.unit_id(),
    {
        self.unit_id
    }

    /// The device that the unit belongs to.
    #[verifier::when_used_as_spec(spec_device)]
    pub fn device(&self) -> (device: &'a D)
        ensures
            device == self.device(),
    {
        self.device
    }

    /// The query that asks `query` of the control `selector` of this unit,
    /// with the bytes of `data` as its buffer. Its size is the length of
    /// `data`.
    pub fn control_query<const SIZE: usize>(
        &self,
        selector: u8,
        query: XuQuery,
        data: &[u8; SIZE],
    ) -> (made: XuControlQuery)
        requires
            SIZE <= XuControlQuery::MAX_DATA,
        ensures
            made@ == (QueryView { unit: self.unit_id(), selector, query, data: data@ }),
            made@.size() == SIZE,
            made@.wf(),
    {
        let mut buffer: Vec<u8> = Vec::with_capacity(SIZE);
        let mut i: usize = 0;
        while i < SIZE
            invariant
                i <= SIZE,
                buffer@ == data@.take(i as int),
            decreases SIZE - i,
        {
            buffer.push(data[i]);
            i = i + 1;
            assert(buffer@ =~= data@.take(i as int));
        }
        assert(data@.take(SIZE as int) =~= data@);
        XuControlQuery::with_buffer(self.unit_id, selector, query, buffer)
    }

    /// The query that asks which operations the control `selector` of this
    /// unit supports.
    pub fn control_info(&self, selector: u8) -> (query: XuControlQuery)
        ensures
            query@ == control_info_query(self.unit_id(), selector),
            query@.query == XuQuery::GetInfo,
            query@.size() == 1,
            query@.wf(),
    {
        let buffer: [u8; 1] = [0];
        assert(buffer@ =~= seq![0u8]);
        self.control_query(selector, XuQuery::GetInfo, &buffer)
    }

    /// Reads the answer to the query of `control_info`.
    ///
    /// The byte that came back is returned whole. A failure is passed on with
    /// its OS error code.
    pub fn control_info_reply(&self, outcome: Result<Vec<u8>, i32>) -> (reply: Result<
        ControlInfo,
        QueryError,
    >)
        ensures
            match control_info_of(outcome_view(outcome)) {
                Ok(bits) => reply matches Ok(info) && info.bits() == bits,
                Err(error) => reply == Err::<ControlInfo, QueryError>(error),
            },
    {
        match check_reply(outcome, 1) {
            Ok(buffer) => Ok(ControlInfo::from_bits_unchecked(buffer[0])),
            Err(error) => Err(error),
        }
    }
}

} // verus!
