//! Overlay widgets are a Linux feature: on Windows every request is answered
//! without creating anything.
use vstd::prelude::*;
use crate::error::NativeError;
use crate::models::widgets::WidgetBounds;

verus! {

pub struct WidgetsManager;

impl WidgetsManager {
    pub fn new() -> (r: WidgetsManager) {
        WidgetsManager
    }

    /// Always refused.
    pub fn create_overlay(&self, url: String, bounds: WidgetBounds) -> (r: Result<u32, NativeError>)
        ensures
            r matches Err(NativeError::OperationFailed(m)) && m@ == "Native overlay widgets are only supported on Linux"@,
    {
        Err(NativeError::OperationFailed("Native overlay widgets are only supported on Linux".to_owned()))
    }

    pub fn destroy(&self, id: u32) -> (r: Result<(), NativeError>)
        ensures
            r is Ok,
    {
        Ok(())
    }

    pub fn destroy_all(&self) -> (r: Result<(), NativeError>)
        ensures
            r is Ok,
    {
        Ok(())
    }
}

} // verus!
