use isogrid::assets::{load_failure, AssetIoError, FileAssetIo};

#[test]
fn store_keeps_its_root() {
    assert_eq!(FileAssetIo::new("assets").root_path(), "assets");
    assert_eq!(FileAssetIo::new("").root_path(), "");
}

#[test]
fn missing_asset_is_told_by_its_path() {
    let error = load_failure(true, "assets/tiles.png".to_string(), "no such file".to_string());
    assert_eq!(error, AssetIoError::NotFound("assets/tiles.png".to_string()));
}

#[test]
fn other_failure_is_told_by_its_reason() {
    let error = load_failure(false, "assets/tiles.png".to_string(), "permission denied".to_string());
    assert_eq!(error, AssetIoError::Io("permission denied".to_string()));
}
