use vstd::prelude::*;
use crate::render::{ImageId, ImageRegistry};

verus! {

/// The size in pixels of the image that a camera renders into.
#[derive(Clone, Copy, Debug, PartialEq, Eq, Structural)]
pub struct TargetSize {
    pub width: u32,
    pub height: u32,
}

impl TargetSize {
    /// The target of the given size.
    pub fn new(width: u32, height: u32) -> (r: Self)
        ensures
            r == (TargetSize { width, height }),
    {
        TargetSize { width, height }
    }

    /// The width of the target in pixels.
    pub fn width(&self) -> (r: u32)
        ensures
            r == self.width,
    {
        self.width
    }

    /// The height of the target in pixels.
    pub fn height(&self) -> (r: u32)
        ensures
            r == self.height,
    {
        self.height
    }

    /// Takes a new size. The target is recreated, and its image registered
    /// anew, only when the size changed and is not empty; returns whether it
    /// is.
    pub fn resize(&mut self, width: u32, height: u32) -> (recreate: bool)
        ensures
            recreate == spec_target_recreates(*old(self), width, height),
            recreate ==> *final(self) == (TargetSize { width, height }),
            !recreate ==> *final(self) == *old(self),
    {
        if (self.width != width || self.height != height) && (width > 0 && height > 0) {
            self.width = width;
            self.height = height;
            true
        } else {
            false
        }
    }
}

/// A camera's render target as the render context knows it: its size and
/// the id under which its image is registered.
pub struct CameraTarget {
    pub size: TargetSize,
    pub image: ImageId,
}

impl CameraTarget {
    /// A target of the given size whose image (made from the new texture)
    /// is registered under a new id.
    pub fn new<T>(registry: &mut ImageRegistry<T>, width: u32, height: u32, bind_group: T) -> (r: Self)
        ensures
            r.size == (TargetSize { width, height }),
            r.image.0 == old(registry).next_id(),
            final(registry).entries() == old(registry).entries().insert(r.image.0, bind_group),
            final(registry).next_id() == (if old(registry).next_id() == u64::MAX { 0 } else { old(registry).next_id() + 1 }),
    {
        let image = registry.register(bind_group);
        CameraTarget { size: TargetSize::new(width, height), image }
    }

    /// Takes a new size; returns whether the target must be recreated (see
    /// `TargetSize::resize`). When it must, the caller makes the new texture
    /// and hands its image to `replace_image`.
    pub fn resize(&mut self, width: u32, height: u32) -> (recreate: bool)
        ensures
            recreate == spec_target_recreates(old(self).size, width, height),
            recreate ==> final(self).size == (TargetSize { width, height }),
            !recreate ==> final(self).size == old(self).size,
            final(self).image == old(self).image,
    {
        self.size.resize(width, height)
    }

    /// Retires the old image of a recreated target and registers the new
    /// texture's image under a new id.
    pub fn replace_image<T>(&mut self, registry: &mut ImageRegistry<T>, bind_group: T)
        ensures
            final(self).size == old(self).size,
            final(self).image.0 == old(registry).next_id(),
            final(registry).entries() == old(registry).entries().remove(old(self).image.0).insert(
                final(self).image.0,
                bind_group,
            ),
            final(registry).next_id() == (if old(registry).next_id() == u64::MAX { 0 } else { old(registry).next_id() + 1 }),
            old(registry).wf() && old(registry).next_id() < u64::MAX ==> final(registry).wf(),
            old(registry).wf() && old(registry).entries().contains_key(old(self).image.0) ==> final(self).image
                != old(self).image,
    {
        registry.unregister(self.image);
        self.image = registry.register(bind_group);
    }
}

/// Whether resizing the target to `width` by `height` recreates it.
pub open spec fn spec_target_recreates(t: TargetSize, width: u32, height: u32) -> bool {
    (t.width != width || t.height != height) && width > 0 && height > 0
}

/// When a target is recreated: a new size that differs from the current one
/// in either side and has both sides positive recreates it; the current
/// size, or an empty size, does not.
pub proof fn law_target_recreates_on_size_change(t: TargetSize, width: u32, height: u32)
    ensures
        width > 0 && height > 0 && width != t.width ==> spec_target_recreates(t, width, height),
        width > 0 && height > 0 && height != t.height ==> spec_target_recreates(t, width, height),
        width == t.width && height == t.height ==> !spec_target_recreates(t, width, height),
        width == 0 || height == 0 ==> !spec_target_recreates(t, width, height),
{
}

/// Resizing to the size the target already has recreates nothing, so a
/// resize repeated with the same size is free; an empty size is never taken.
pub proof fn law_resize_is_idempotent(t: TargetSize, width: u32, height: u32)
    ensures
        !spec_target_recreates(t, t.width, t.height),
        spec_target_recreates(t, width, height) ==> !spec_target_recreates(TargetSize { width, height }, width, height),
        (width == 0 || height == 0) ==> !spec_target_recreates(t, width, height),
{
}

/// Whether a window surface is reconfigured for a new size: only sizes with
/// both sides positive are.
pub fn surface_accepts_size(width: u32, height: u32) -> (r: bool)
    ensures
        r == (width > 0 && height > 0),
{
    width > 0 && height > 0
}

/// Whether a resize event changes the user interface's screen size: every
/// size but zero by zero, which minimizing the window reports.
pub fn screen_resize_applies(width: u32, height: u32) -> (r: bool)
    ensures
        r == !(width == 0 && height == 0),
{
    !(width == 0 && height == 0)
}

} // verus!
