use nowhear::source::MediaSourceBuilder;
use nowhear::watcher::MediaWatcherBuilder;

#[test]
fn test_media_source_builder_new() {
    let _builder = MediaSourceBuilder::new();
}

#[test]
fn test_media_source_builder_default() {
    let _builder = MediaSourceBuilder::default();
}

#[test]
fn builders_are_all_alike() {
    assert_eq!(MediaSourceBuilder::new(), MediaSourceBuilder::default());
    assert_eq!(MediaWatcherBuilder::new(), MediaWatcherBuilder::default());
}
