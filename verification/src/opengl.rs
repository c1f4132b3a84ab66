use vstd::prelude::*;

verus! {

/// Which OpenGL profile a context is created against.
#[derive(Clone, Copy, PartialEq, Eq, Structural, Debug)]
pub enum OpenglProfile {
    Core,
    Compatibility,
}

/// An OpenGL version request.
#[derive(Clone, Copy, PartialEq, Eq, Structural, Debug)]
pub struct OpenglVersion {
    pub major_version: u8,
    pub minor_version: u8,
    pub profile: OpenglProfile,
}

impl OpenglVersion {
    pub fn new(major_version: u8, minor_version: u8, profile: OpenglProfile) -> (r: Self)
        ensures
            r.major_version == major_version,
            r.minor_version == minor_version,
            r.profile == profile,
    {
        Self { major_version, minor_version, profile }
    }
}

/// What a caller requests of an OpenGL surface.
#[derive(Clone, Copy, PartialEq, Eq, Structural, Debug)]
pub struct SurfaceParams {
    pub version: OpenglVersion,
    pub red_bits: u8,
    pub green_bits: u8,
    pub blue_bits: u8,
    pub alpha_bits: u8,
    pub depth_bits: u8,
    pub stencil_bits: u8,
    pub multisamples: u8,
    pub double_buffer: bool,
}

/// A full OpenGL context description, framebuffer count included.
#[derive(Clone, Copy, PartialEq, Eq, Structural, Debug)]
pub struct OpenglInfo {
    pub major_version: u8,
    pub minor_version: u8,
    pub compatibility_flag: bool,
    pub red_bits: u8,
    pub green_bits: u8,
    pub blue_bits: u8,
    pub alpha_bits: u8,
    pub depth_bits: u8,
    pub stencil_bits: u8,
    pub multisamples: u8,
    /// Two for double-buffering.
    pub framebuffers: u8,
}

/// What an OpenGL canvas offers once created; the loading and presenting
/// entry points live with the graphics collaborator.
pub trait OpenglContext {
    /// The version the context was actually created with.
    fn get_version(&self) -> OpenglVersion;
}

} // verus!
