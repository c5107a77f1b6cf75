//! The shared GUI context: the `imgui` context object together with the
//! texture handles this layer owns, and the capture flags the input filter
//! consults. The context object is opaque here; the flags it exposes are read
//! through trusted accessors.
//!
//! Exclusive access is carried by Rust's `&mut`: the embedding wraps the state
//! in its mutual-exclusion lock and hands a borrow in, so no two stages touch
//! the context at once.

use vstd::prelude::*;

verus! {

#[verifier::external_type_specification]
#[verifier::external_body]
pub struct ExContext(imgui::Context);

/// Whether the context's IO state has `want_capture_mouse` set; a pure field
/// of the context value, recomputed by the GUI at frame-begin.
pub uninterp spec fn mouse_captured(ctx: imgui::Context) -> bool;

/// Whether the context's IO state has `want_capture_keyboard` set; a pure
/// field of the context value, recomputed by the GUI at frame-begin.
pub uninterp spec fn keyboard_captured(ctx: imgui::Context) -> bool;

/// The configuration-flag bits of the context's IO state.
pub uninterp spec fn config_flags_of(ctx: imgui::Context) -> u32;

/// The configuration bits that the GUI library defines, within a requested
/// bitmask; the result of imgui::ConfigFlags::from_bits_truncate, a function
/// of the mask alone.
pub uninterp spec fn valid_config_bits(flags: u32) -> u32;

/// Relies on imgui::Context::io and the public field Io::want_capture_mouse:
/// reads the flag as it stands on this context value.
#[verifier::external_body]
pub fn want_capture_mouse(ctx: &imgui::Context) -> (r: bool)
    ensures
        r == mouse_captured(*ctx),
{
    ctx.io().want_capture_mouse
}

/// Relies on imgui::Context::io and the public field Io::want_capture_keyboard:
/// reads the flag as it stands on this context value.
#[verifier::external_body]
pub fn want_capture_keyboard(ctx: &imgui::Context) -> (r: bool)
    ensures
        r == keyboard_captured(*ctx),
{
    ctx.io().want_capture_keyboard
}

/// Relies on imgui::Context::io and bitflags' Flags::bits: reads the
/// configuration bits as they stand on this context value.
#[verifier::external_body]
pub fn config_flags(ctx: &imgui::Context) -> (r: u32)
    ensures
        r == config_flags_of(*ctx),
{
    ctx.io().config_flags.bits()
}

/// Relies on imgui::Context::io_mut, imgui::ConfigFlags::from_bits_truncate
/// and bitflags' bit-or assignment: sets, within the context's configuration
/// bits, those requested bits that the GUI library defines, and touches
/// nothing else of the IO state.
#[verifier::external_body]
pub fn apply_config_flags(ctx: &mut imgui::Context, flags: u32)
    ensures
        config_flags_of(*final(ctx)) == config_flags_of(*old(ctx)) | valid_config_bits(flags),
        mouse_captured(*final(ctx)) == mouse_captured(*old(ctx)),
        keyboard_captured(*final(ctx)) == keyboard_captured(*old(ctx)),
{
    ctx.io_mut().config_flags |= imgui::ConfigFlags::from_bits_truncate(flags);
}

/// The GUI library's state, plus the texture resource handles registered with
/// the renderer on its behalf.
pub struct ImguiState {
    pub context: imgui::Context,
    pub textures: Vec<u64>,
}

impl ImguiState {
    /// Wraps a context (already bound to the platform adapter by the
    /// embedding) with an empty texture list.
    pub fn new(context: imgui::Context) -> (r: ImguiState)
        ensures
            r.context == context,
            r.textures@ == Seq::<u64>::empty(),
    {
        ImguiState { context, textures: Vec::new() }
    }

    /// Records one more texture handle owned by the GUI.
    pub fn register_texture(&mut self, handle: u64)
        ensures
            final(self).context == old(self).context,
            final(self).textures@ == old(self).textures@.push(handle),
    {
        self.textures.push(handle);
    }
}

} // verus!
