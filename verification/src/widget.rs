//! The interface a render backend offers the host.

use vstd::prelude::*;

verus! {

/// How the host constructs a renderer widget for a primary window's
/// source. Backends live with the host process; nothing here is proved
/// about them, the trait only fixes the construction surface.
pub trait RendererWidgetBuilder: Sized {
    fn with_filepath(filepath: &str) -> Self;

    fn with_uri(uri: &str) -> Self;
}

} // verus!
