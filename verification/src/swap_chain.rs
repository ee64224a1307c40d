//! The life cycle of the swap chain: unconfigured, configured, stale after a
//! resize, configured again after a rebuild.

use vstd::prelude::*;

verus! {

/// Pixel format of the presentable images.
#[derive(Clone, Copy, Debug, PartialEq, Eq, Structural)]
pub enum PixelFormat {
    /// Blue, green, red, alpha; 8 bits each, normalized.
    Bgra8Unorm,
}

/// What the presentable images are used for.
#[derive(Clone, Copy, Debug, PartialEq, Eq, Structural)]
pub enum TextureUsage {
    /// Target of a render pass.
    OutputAttachment,
}

/// What a swap chain is built from. Width and height are in physical pixels.
#[derive(Clone, Copy, Debug, PartialEq, Eq, Structural)]
pub struct SwapChainDescriptor {
    pub usage: TextureUsage,
    pub format: PixelFormat,
    pub width: u32,
    pub height: u32,
}

/// An acquired image, known by the dimensions of the chain it came from.
#[derive(Clone, Copy, Debug, PartialEq, Eq, Structural)]
pub struct Frame {
    pub width: u32,
    pub height: u32,
}

/// Why no image can be acquired.
#[derive(Clone, Copy, Debug, PartialEq, Eq, Structural)]
pub enum AcquireError {
    /// No chain was built yet.
    Unconfigured,
    /// The surface was resized since the chain was built.
    Stale,
}

/// Where the swap chain stands. `Configured` holds the descriptor that the
/// live chain was built from; `Stale` holds the one that the next chain must
/// be built from.
#[derive(Clone, Copy, Debug, PartialEq, Eq, Structural)]
pub enum SwapChainState {
    Unconfigured,
    Configured(SwapChainDescriptor),
    Stale(SwapChainDescriptor),
}

/// The descriptor of a render target of the fixed format.
pub open spec fn descriptor_of(width: u32, height: u32) -> SwapChainDescriptor {
    SwapChainDescriptor {
        usage: TextureUsage::OutputAttachment,
        format: PixelFormat::Bgra8Unorm,
        width,
        height,
    }
}

/// The state after a resize to `width` by `height`: a chain that was built
/// or awaited building is stale, and the next one takes the new dimensions
/// and keeps usage and format.
pub open spec fn resized(s: SwapChainState, width: u32, height: u32) -> SwapChainState {
    match s {
        SwapChainState::Unconfigured => SwapChainState::Unconfigured,
        SwapChainState::Configured(d) | SwapChainState::Stale(d) => SwapChainState::Stale(
            SwapChainDescriptor { usage: d.usage, format: d.format, width, height },
        ),
    }
}

/// The state after the pending chain was built.
pub open spec fn rebuilt(s: SwapChainState) -> SwapChainState {
    match s {
        SwapChainState::Stale(d) => SwapChainState::Configured(d),
        _ => s,
    }
}

/// What an acquisition gives: a frame of the live chain's dimensions, and
/// nothing unless the chain is live.
pub open spec fn acquired(s: SwapChainState) -> Result<Frame, AcquireError> {
    match s {
        SwapChainState::Unconfigured => Err(AcquireError::Unconfigured),
        SwapChainState::Configured(d) => Ok(Frame { width: d.width, height: d.height }),
        SwapChainState::Stale(_) => Err(AcquireError::Stale),
    }
}

/// The dimensions that the surface has now, as far as the state knows them.
pub open spec fn surface_dimensions(s: SwapChainState) -> Option<(u32, u32)> {
    match s {
        SwapChainState::Unconfigured => None,
        SwapChainState::Configured(d) | SwapChainState::Stale(d) => Some((d.width, d.height)),
    }
}

impl SwapChainDescriptor {
    /// A render-target descriptor of the fixed format.
    pub fn new(width: u32, height: u32) -> (d: SwapChainDescriptor)
        ensures
            d == descriptor_of(width, height),
    {
        SwapChainDescriptor {
            usage: TextureUsage::OutputAttachment,
            format: PixelFormat::Bgra8Unorm,
            width,
            height,
        }
    }
}

impl SwapChainState {
    /// Before any chain is built.
    pub fn new() -> (s: SwapChainState)
        ensures
            s == SwapChainState::Unconfigured,
    {
        SwapChainState::Unconfigured
    }

    /// A chain was built, or built anew, from `descriptor`.
    pub fn configure(self, descriptor: SwapChainDescriptor) -> (s: SwapChainState)
        ensures
            s == SwapChainState::Configured(descriptor),
    {
        SwapChainState::Configured(descriptor)
    }

    /// The surface was resized.
    pub fn resize(self, width: u32, height: u32) -> (s: SwapChainState)
        ensures
            s == resized(self, width, height),
    {
        match self {
            SwapChainState::Unconfigured => SwapChainState::Unconfigured,
            SwapChainState::Configured(d) => SwapChainState::Stale(
                SwapChainDescriptor { usage: d.usage, format: d.format, width, height },
            ),
            SwapChainState::Stale(d) => SwapChainState::Stale(
                SwapChainDescriptor { usage: d.usage, format: d.format, width, height },
            ),
        }
    }

    /// The descriptor that the next chain must be built from, where the
    /// live one is stale.
    pub fn pending(&self) -> (p: Option<SwapChainDescriptor>)
        ensures
            p == match *self {
                SwapChainState::Stale(d) => Some(d),
                _ => None,
            },
    {
        match self {
            SwapChainState::Stale(d) => Some(*d),
            _ => None,
        }
    }

    /// The pending chain was built.
    pub fn rebuild(self) -> (s: SwapChainState)
        ensures
            s == rebuilt(self),
    {
        match self {
            SwapChainState::Stale(d) => SwapChainState::Configured(d),
            SwapChainState::Configured(d) => SwapChainState::Configured(d),
            SwapChainState::Unconfigured => SwapChainState::Unconfigured,
        }
    }

    /// Decides an acquisition: a frame where the chain is live, the reason
    /// where it is not.
    pub fn acquire(&self) -> (r: Result<Frame, AcquireError>)
        ensures
            r == acquired(*self),
            r matches Ok(f) ==> surface_dimensions(*self) == Some((f.width, f.height)),
    {
        match self {
            SwapChainState::Unconfigured => Err(AcquireError::Unconfigured),
            SwapChainState::Configured(d) => Ok(Frame { width: d.width, height: d.height }),
            SwapChainState::Stale(_) => Err(AcquireError::Stale),
        }
    }
}

/// After a resize of a configured chain no frame is handed out until the
/// chain is rebuilt, and the first frame after the rebuild has the new
/// dimensions.
pub proof fn lemma_resize_forces_rebuild(s: SwapChainState, width: u32, height: u32)
    requires
        s is Configured,
    ensures
        acquired(resized(s, width, height)) == Err::<Frame, AcquireError>(AcquireError::Stale),
        acquired(rebuilt(resized(s, width, height))) == Ok::<Frame, AcquireError>(
            Frame { width, height },
        ),
{
}

/// Whatever happened before, a frame that is handed out has the dimensions
/// of the latest resize.
pub proof fn lemma_frame_is_never_stale(s: SwapChainState, width: u32, height: u32, rebuilds: nat)
    ensures
        acquired(rebuilt_times(resized(s, width, height), rebuilds)) matches Ok(f) ==> f == (Frame {
            width,
            height,
        }),
    decreases rebuilds,
{
    if rebuilds > 0 {
        lemma_frame_is_never_stale(s, width, height, (rebuilds - 1) as nat);
    }
}

/// The state after `n` rebuilds in a row.
pub open spec fn rebuilt_times(s: SwapChainState, n: nat) -> SwapChainState
    decreases n,
{
    if n == 0 {
        s
    } else {
        rebuilt(rebuilt_times(s, (n - 1) as nat))
    }
}

} // verus!
