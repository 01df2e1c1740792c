//! How a monitor is talked to.
//!
//! [`DdcBackend`] is the seam between the data model and the transports: a
//! `ddcutil` subprocess, or a native DDC/CI connection.

use vstd::prelude::*;

pub mod ddcutil;
pub mod mccs_data;
pub mod mccs_shared;
pub mod native;

use crate::vcp::{Capabilities, Display, FeatureReading};

verus! {

/// Why a backend call failed.
#[derive(Debug)]
pub enum BackendError {
    /// A failure that the backend itself describes.
    Message(String),
    /// An operating system error, by its own description.
    Io(String),
}

pub enum BackendErrorView {
    Message(Seq<char>),
    Io(Seq<char>),
}

impl BackendErrorView {
    /// The text that describes the failure.
    pub open spec fn text(self) -> Seq<char> {
        match self {
            BackendErrorView::Message(s) => s,
            BackendErrorView::Io(s) => s,
        }
    }
}

impl DeepView for BackendError {
    type V = BackendErrorView;

    open spec fn deep_view(&self) -> BackendErrorView {
        match *self {
            BackendError::Message(s) => BackendErrorView::Message(s@),
            BackendError::Io(s) => BackendErrorView::Io(s@),
        }
    }
}

/// The result of a backend call, over the deep views of both sides.
pub open spec fn outcome<T: DeepView>(r: Result<T, BackendError>) -> Result<
    T::V,
    BackendErrorView,
> {
    match r {
        Ok(x) => Ok(x.deep_view()),
        Err(e) => Err(e.deep_view()),
    }
}

impl BackendError {
    /// A failure described by `s`.
    pub fn msg(s: &str) -> (r: Self)
        ensures
            r.deep_view() == BackendErrorView::Message(s@),
    {
        BackendError::Message(s.to_owned())
    }

    /// The text that describes the failure.
    pub fn message(&self) -> (r: String)
        ensures
            r@ == self.deep_view().text(),
    {
        match self {
            BackendError::Message(s) => s.clone(),
            BackendError::Io(s) => s.clone(),
        }
    }
}

/// Whether a native backend is used, given what it detected: only where it found
/// a display. Else the `ddcutil` tool is run instead.
pub fn native_is_usable(detected: &Result<Vec<Display>, BackendError>) -> (r: bool)
    ensures
        r == (*detected matches Ok(displays) && displays@.len() > 0),
{
    match detected {
        Ok(displays) => displays.len() > 0,
        Err(_) => false,
    }
}

/// Everything the controls need from a DDC/CI backend. Every call is
/// synchronous and blocking by design.
pub trait DdcBackend: Send + Sync {
    /// Find every DDC/CI-capable display (laptop panels and other non-DDC
    /// displays excluded).
    fn detect(&self) -> Result<Vec<Display>, BackendError>;

    /// Read and parse a display's declared VCP features.
    fn capabilities(&self, display_num: i32) -> Result<Capabilities, BackendError>;

    /// Read one feature's live value. A write-only/action feature is not an
    /// error: it comes back with `readable: false`.
    fn get_vcp(&self, display_num: i32, code: u8) -> Result<FeatureReading, BackendError>;

    /// Write a value to a feature. A backend that verifies the write by reading
    /// it back treats a mismatch as an error here: callers rely on `Ok(())`
    /// meaning the monitor actually changed.
    ///
    /// `permit_unknown` is the safety gate for writing to codes the backend
    /// does not recognize; a backend with no such concept can ignore it.
    fn set_vcp(&self, display_num: i32, code: u8, value: u16, permit_unknown: bool) -> Result<
        (),
        BackendError,
    >;
}

} // verus!
