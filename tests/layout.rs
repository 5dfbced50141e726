use some_bevy_tools::collision_detection::{ordered_pair, Collider};
use some_bevy_tools::loading::LoadAssets;
use some_bevy_tools::split_screen::{split_viewports, Viewport};

fn collider(entity: u64, is_first_kind: bool, is_second_kind: bool) -> Collider {
    Collider {
        entity,
        is_first_kind,
        is_second_kind,
    }
}

#[test]
fn collision_pairs_put_first_kind_first() {
    assert_eq!(
        ordered_pair(collider(1, true, false), collider(2, false, true)),
        Some((1, 2))
    );
    assert_eq!(
        ordered_pair(collider(1, false, true), collider(2, true, false)),
        Some((2, 1))
    );
    assert_eq!(
        ordered_pair(collider(1, true, false), collider(2, true, false)),
        None
    );
    assert_eq!(
        ordered_pair(collider(1, true, true), collider(2, true, true)),
        Some((1, 2))
    );
}

#[test]
fn split_screen_halves_the_window() {
    let (left, right) = split_viewports(1281, 720);
    assert_eq!(
        left,
        Viewport {
            x: 0,
            y: 0,
            width: 640,
            height: 720,
            order: 1
        }
    );
    assert_eq!(
        right,
        Viewport {
            x: 640,
            y: 0,
            width: 640,
            height: 720,
            order: 2
        }
    );
}

#[test]
fn loading_completes_when_every_asset_is_loaded() {
    let mut progress = LoadAssets::new("splash.png".to_string(), 7u8);
    progress.reset();
    progress.record(true);
    progress.record(false);
    assert_eq!(progress.asset_count, 2);
    assert_eq!(progress.current_loaded_assets, 1);
    assert!(!progress.final_check());
    assert_eq!(progress.asset_count, 2);
    progress.reset();
    progress.record(true);
    progress.record(true);
    assert!(progress.final_check());
    assert_eq!(progress.asset_count, 0);
    assert_eq!(progress.target_state, 7);
    assert_eq!(progress.splash_image_path, "splash.png");
}
