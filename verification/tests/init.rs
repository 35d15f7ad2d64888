use log::Log;
use stderr_logger::Logger;

#[test]
fn init_succeeds_once_and_then_fails() {
    // First call: claims the global handler slot and sets the threshold.
    assert!(Logger::init(2).is_ok());
    assert_eq!(log::max_level(), log::LevelFilter::Debug);

    // The installed handler is the sink, which accepts every record.
    let meta = log::Metadata::builder()
        .level(log::Level::Trace)
        .target("anything")
        .build();
    assert!(log::logger().enabled(&meta));

    // Second call: fails, and the threshold it asked for (Warn) is not
    // applied; the first call's threshold stays.
    assert!(Logger::init(0).is_err());
    assert_eq!(log::max_level(), log::LevelFilter::Debug);
}
