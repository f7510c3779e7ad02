//! Named icon sets ("characters") and the shape a usable set must have.
//!
//! A resource file names, per character, the image files of its dark and
//! light icon sets. Reading that file and decoding the images is the
//! application's work; the acceptance rule for the listed paths — the rule
//! that decides whether loading is attempted at all — is verified here.

use crate::frame::FRAME_COUNT;
use vstd::prelude::*;

verus! {

/// The image paths of one character's icon sets, as the resource file lists
/// them, relative to the executable's directory.
#[derive(Clone, Debug)]
pub struct IconResourcePath {
    /// Paths of the dark icon set's frames, in frame order.
    pub dark: Vec<String>,
    /// Paths of the light icon set's frames, in frame order.
    pub light: Vec<String>,
}

/// Whether listed icon sets of these lengths are accepted for loading: the
/// dark and light sets must be equally long and hold at least `FRAME_COUNT`
/// frames each, so that every frame index the animator can emit addresses a
/// frame of either set.
pub open spec fn icon_counts_acceptable(light_len: int, dark_len: int) -> bool {
    light_len == dark_len && light_len >= FRAME_COUNT
}

impl IconResourcePath {
    /// An entry with the given dark and light frame paths.
    pub fn new(dark: Vec<String>, light: Vec<String>) -> (r: IconResourcePath)
        ensures
            r.dark == dark,
            r.light == light,
    {
        IconResourcePath { dark, light }
    }

    /// Whether this entry's icon sets are accepted for loading.
    pub fn counts_acceptable(&self) -> (r: bool)
        ensures
            r == icon_counts_acceptable(self.light@.len() as int, self.dark@.len() as int),
    {
        self.light.len() == self.dark.len() && self.light.len() >= FRAME_COUNT
    }
}

} // verus!
