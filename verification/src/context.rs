//! The graphics context: the surface configuration and the pixel size that it
//! was last configured for.

use vstd::prelude::*;

verus! {

/// A size in physical pixels.
#[derive(Clone, Copy, Debug, PartialEq, Eq, Structural)]
pub struct PhysicalSize {
    pub width: u32,
    pub height: u32,
}

impl PhysicalSize {
    /// Neither dimension is zero: a surface can have this size.
    pub open spec fn spec_is_drawable(self) -> bool {
        self.width > 0 && self.height > 0
    }

    /// A size of `width` by `height` pixels.
    pub fn new(width: u32, height: u32) -> (s: Self)
        ensures
            s.width == width,
            s.height == height,
    {
        PhysicalSize { width, height }
    }

    /// Neither dimension is zero: a surface can have this size.
    #[verifier::when_used_as_spec(spec_is_drawable)]
    pub fn is_drawable(self) -> (b: bool)
        ensures
            b == self.spec_is_drawable(),
    {
        self.width > 0 && self.height > 0
    }
}

/// How frames are handed to the display.
#[derive(Clone, Copy, Debug, PartialEq, Eq, Structural)]
pub enum PresentMode {
    AutoVsync,
    AutoNoVsync,
    Fifo,
    FifoRelaxed,
    Immediate,
    Mailbox,
}

/// What a surface offers on the chosen adapter: how many pixel formats and how
/// many alpha modes, each list in the adapter's order of preference. The
/// context names a format or a mode by its place in these lists.
#[derive(Clone, Copy, Debug, PartialEq, Eq, Structural)]
pub struct SurfaceCapabilities {
    pub formats: usize,
    pub alpha_modes: usize,
}

/// The configuration of the presentable surface.
#[derive(Clone, Copy, Debug, PartialEq, Eq, Structural)]
pub struct SurfaceConfiguration {
    /// The pixel format, by its place in the capabilities' list.
    pub format: usize,
    pub width: u32,
    pub height: u32,
    pub present_mode: PresentMode,
    /// The alpha mode, by its place in the capabilities' list.
    pub alpha_mode: usize,
    pub desired_maximum_frame_latency: u32,
}

/// The configuration that a surface of the given size starts with: the
/// adapter's preferred format and alpha mode, presented first in, first out,
/// with at most two frames in flight.
pub open spec fn initial_configuration(size: PhysicalSize) -> SurfaceConfiguration {
    SurfaceConfiguration {
        format: 0,
        width: size.width,
        height: size.height,
        present_mode: PresentMode::Fifo,
        alpha_mode: 0,
        desired_maximum_frame_latency: 2,
    }
}

/// What a call of `resize` asks of the caller.
#[derive(Clone, Copy, Debug, PartialEq, Eq, Structural)]
pub enum Resize {
    /// A dimension was zero: nothing changed and nothing is to be done.
    Ignored,
    /// The stored configuration changed: the surface is to be configured
    /// with it.
    Reconfigure,
}

/// The graphics context, as far as the engine decides about it: the surface
/// configuration and the current pixel size. While it exists, the two agree
/// and neither dimension is zero.
#[derive(Clone, Copy, Debug)]
pub struct InitWgpu {
    config: SurfaceConfiguration,
    size: PhysicalSize,
}

impl InitWgpu {
    #[verifier::type_invariant]
    spec fn active(&self) -> bool {
        &&& self.size.spec_is_drawable()
        &&& self.config.width == self.size.width
        &&& self.config.height == self.size.height
    }

    /// The surface configuration.
    pub closed spec fn spec_config(&self) -> SurfaceConfiguration {
        self.config
    }

    /// The current pixel size.
    pub closed spec fn spec_size(&self) -> PhysicalSize {
        self.size
    }

    /// The context for a surface of the given size. The surface must offer at
    /// least one format and one alpha mode, and the size must be drawable:
    /// without them there is no context to create.
    pub fn init_wgpu(size: PhysicalSize, capabilities: SurfaceCapabilities) -> (init: Self)
        requires
            size.spec_is_drawable(),
            capabilities.formats > 0,
            capabilities.alpha_modes > 0,
        ensures
            init.spec_size() == size,
            init.spec_config() == initial_configuration(size),
    {
        InitWgpu {
            config: SurfaceConfiguration {
                format: 0,
                width: size.width,
                height: size.height,
                present_mode: PresentMode::Fifo,
                alpha_mode: 0,
                desired_maximum_frame_latency: 2,
            },
            size,
        }
    }

    /// The surface configuration. Its width and height are those of the
    /// current size, and neither is zero.
    #[verifier::when_used_as_spec(spec_config)]
    pub fn config(&self) -> (c: SurfaceConfiguration)
        ensures
            c == self.spec_config(),
            c.width == self.spec_size().width,
            c.height == self.spec_size().height,
            c.width > 0,
            c.height > 0,
    {
        proof {
            use_type_invariant(self);
        }
        self.config
    }

    /// The current pixel size, which is drawable.
    #[verifier::when_used_as_spec(spec_size)]
    pub fn size(&self) -> (s: PhysicalSize)
        ensures
            s == self.spec_size(),
            s.spec_is_drawable(),
            s.width == self.spec_config().width,
            s.height == self.spec_config().height,
    {
        proof {
            use_type_invariant(self);
        }
        self.size
    }

    /// Takes a new pixel size. A size with a zero dimension is ignored.
    /// Any other size becomes the current size and the size of the
    /// configuration, whose other settings stay.
    pub fn resize(&mut self, new_size: PhysicalSize) -> (r: Resize)
        ensures
            !new_size.spec_is_drawable() ==> r == Resize::Ignored && *final(self) == *old(self),
            new_size.spec_is_drawable() ==> {
                &&& r == Resize::Reconfigure
                &&& final(self).spec_size() == new_size
                &&& final(self).spec_config() == (SurfaceConfiguration {
                    width: new_size.width,
                    height: new_size.height,
                    ..old(self).spec_config()
                })
            },
    {
        if new_size.width > 0 && new_size.height > 0 {
            proof {
                use_type_invariant(&*self);
            }
            let config = SurfaceConfiguration {
                format: self.config.format,
                width: new_size.width,
                height: new_size.height,
                present_mode: self.config.present_mode,
                alpha_mode: self.config.alpha_mode,
                desired_maximum_frame_latency: self.config.desired_maximum_frame_latency,
            };
            *self = InitWgpu { config, size: new_size };
            Resize::Reconfigure
        } else {
            Resize::Ignored
        }
    }
}

} // verus!
