//! Progress of asset loading.
//!
//! Each frame of the loading state, the counts are reset, every asset is
//! counted and so is every loaded one; when both counts agree, loading is
//! done and the target state follows.
use vstd::prelude::*;

verus! {

/// The loading progress of a frame and the state that follows loading.
pub struct LoadAssets<S> {
    /// Path of an image to show while loading.
    pub splash_image_path: String,
    /// The state entered once every asset is loaded.
    pub target_state: S,
    /// The assets counted in this frame.
    pub asset_count: u32,
    /// The loaded assets counted in this frame.
    pub current_loaded_assets: u32,
}

impl<S> LoadAssets<S> {
    /// Progress toward `target_state` with nothing counted.
    pub fn new(path: String, target_state: S) -> (r: Self)
        ensures
            r.splash_image_path@ == path@,
            r.target_state == target_state,
            r.asset_count == 0,
            r.current_loaded_assets == 0,
    {
        LoadAssets { splash_image_path: path, target_state, asset_count: 0, current_loaded_assets: 0 }
    }

    /// Start the counts of a frame from zero.
    pub fn reset(&mut self)
        ensures
            final(self).asset_count == 0,
            final(self).current_loaded_assets == 0,
            final(self).target_state == old(self).target_state,
            final(self).splash_image_path == old(self).splash_image_path,
    {
        self.current_loaded_assets = 0;
        self.asset_count = 0;
    }

    /// Count one asset, and count it as loaded where `loaded` holds.
    pub fn record(&mut self, loaded: bool)
        requires
            old(self).asset_count < u32::MAX,
            old(self).current_loaded_assets < u32::MAX,
        ensures
            final(self).asset_count == old(self).asset_count + 1,
            final(self).current_loaded_assets == old(self).current_loaded_assets + if loaded {
                1int
            } else {
                0int
            },
            final(self).target_state == old(self).target_state,
            final(self).splash_image_path == old(self).splash_image_path,
    {
        if loaded {
            self.current_loaded_assets = self.current_loaded_assets + 1;
        }
        self.asset_count = self.asset_count + 1;
    }

    /// Whether every counted asset is loaded; if so, the counts start from
    /// zero again, and the caller enters the target state.
    pub fn final_check(&mut self) -> (r: bool)
        ensures
            r == (old(self).current_loaded_assets == old(self).asset_count),
            r ==> final(self).asset_count == 0 && final(self).current_loaded_assets == 0,
            !r ==> final(self).asset_count == old(self).asset_count
                && final(self).current_loaded_assets == old(self).current_loaded_assets,
            final(self).target_state == old(self).target_state,
            final(self).splash_image_path == old(self).splash_image_path,
    {
        if self.current_loaded_assets == self.asset_count {
            self.current_loaded_assets = 0;
            self.asset_count = 0;
            true
        } else {
            false
        }
    }
}

} // verus!
