//! What can go wrong while the renderer is brought up, and while a frame
//! is acquired.

use vstd::prelude::*;

verus! {

/// A failure to bring the renderer up. Each one is final.
#[derive(Debug, Clone, PartialEq, Eq)]
pub enum MoonWalkError {
    /// No GPU adapter could be had.
    AdapterRequestError,
    /// The adapter gave no device.
    DeviceRequestError,
    /// No surface could be made for the window.
    CreateSurfaceError,
    /// The adapter offers no surface format that the renderer can draw to.
    NoSuitableSurfaceFormat,
    /// A shader was rejected; the text says why.
    ShaderCompilation(String),
}

/// What the host found when it brought the GPU up for a window.
#[derive(Debug, Clone, PartialEq, Eq)]
pub enum GpuStartup {
    /// Adapter, device, surface and the built-in rectangle pipeline are
    /// there.
    Ready,
    /// No adapter answered.
    AdapterUnavailable,
    /// The device request failed.
    DeviceFailed,
    /// The surface could not be made.
    SurfaceFailed,
    /// No surface format fits.
    NoSurfaceFormat,
    /// The built-in rectangle shader did not compile; the text says why.
    ShaderRejected(String),
}

/// What acquiring the next surface texture gave.
#[derive(Debug, Clone, Copy, PartialEq, Eq, Structural)]
pub enum SurfaceStatus {
    /// A texture to draw to.
    Acquired,
    /// The wait for a texture ran out.
    Timeout,
    /// The surface no longer matches the window.
    Outdated,
    /// The surface is gone and has to be made again.
    Lost,
    /// The GPU has no memory left.
    OutOfMemory,
    /// Some other failure that the next frame may not meet.
    Other,
}

/// A failure of a frame that the renderer does not absorb.
#[derive(Debug, Clone, Copy, PartialEq, Eq, Structural)]
pub enum RenderError {
    /// The GPU has no memory left. The host has to shut down.
    OutOfMemory,
}

impl GpuStartup {
    /// The error that a failed bring-up amounts to, or none for a
    /// successful one.
    pub open spec fn spec_failure(self) -> Option<MoonWalkError> {
        match self {
            GpuStartup::Ready => None,
            GpuStartup::AdapterUnavailable => Some(MoonWalkError::AdapterRequestError),
            GpuStartup::DeviceFailed => Some(MoonWalkError::DeviceRequestError),
            GpuStartup::SurfaceFailed => Some(MoonWalkError::CreateSurfaceError),
            GpuStartup::NoSurfaceFormat => Some(MoonWalkError::NoSuitableSurfaceFormat),
            GpuStartup::ShaderRejected(detail) => Some(MoonWalkError::ShaderCompilation(detail)),
        }
    }

    /// Classifies a bring-up: the error it amounts to, or none.
    pub fn failure(self) -> (e: Option<MoonWalkError>)
        ensures
            e == self.spec_failure(),
            e is None <==> self is Ready,
    {
        match self {
            GpuStartup::Ready => None,
            GpuStartup::AdapterUnavailable => Some(MoonWalkError::AdapterRequestError),
            GpuStartup::DeviceFailed => Some(MoonWalkError::DeviceRequestError),
            GpuStartup::SurfaceFailed => Some(MoonWalkError::CreateSurfaceError),
            GpuStartup::NoSurfaceFormat => Some(MoonWalkError::NoSuitableSurfaceFormat),
            GpuStartup::ShaderRejected(detail) => Some(MoonWalkError::ShaderCompilation(detail)),
        }
    }
}

/// Joins a fixed text and a detail with the standard library's `format!`.
/// Taken on trust: the result is the first text followed by the second.
#[verifier::external_body]
fn join(prefix: &str, detail: &str) -> (text: String)
    ensures
        text@ == prefix@ + detail@,
{
    format!("{}{}", prefix, detail)
}

impl MoonWalkError {
    /// The text that describes the error.
    pub open spec fn spec_message(&self) -> Seq<char> {
        match self {
            MoonWalkError::AdapterRequestError => "Failed to request a wgpu adapter"@,
            MoonWalkError::DeviceRequestError => "Failed to request a wgpu device"@,
            MoonWalkError::CreateSurfaceError => "Failed to create wgpu surface"@,
            MoonWalkError::NoSuitableSurfaceFormat => "No suitable surface format found"@,
            MoonWalkError::ShaderCompilation(detail) => "Failed to compile shader: "@ + detail@,
        }
    }

    /// Describes the error in words.
    pub fn message(&self) -> (text: String)
        ensures
            text@ == self.spec_message(),
    {
        match self {
            MoonWalkError::AdapterRequestError => "Failed to request a wgpu adapter".to_owned(),
            MoonWalkError::DeviceRequestError => "Failed to request a wgpu device".to_owned(),
            MoonWalkError::CreateSurfaceError => "Failed to create wgpu surface".to_owned(),
            MoonWalkError::NoSuitableSurfaceFormat => "No suitable surface format found".to_owned(),
            MoonWalkError::ShaderCompilation(detail) => join(
                "Failed to compile shader: ",
                detail.as_str(),
            ),
        }
    }
}

} // verus!
