use soxr::Error;

#[test]
fn no_diagnostic_is_success() {
    assert_eq!(Error::check(None), Ok(()));
}

#[test]
fn a_diagnostic_is_the_error_of_the_call() {
    assert_eq!(Error::check(Some("malloc failed")), Err(Error::Engine("malloc failed")));
    assert_eq!(Error::check(Some("")), Err(Error::Engine("")));
}

#[test]
fn an_engine_error_reads_as_the_diagnostic() {
    assert_eq!(Error::Engine("invalid io ratio").as_str(), "invalid io ratio");
    assert_eq!(Error::Engine("").as_str(), "");
}

#[test]
fn the_channel_count_error_has_its_own_text() {
    assert_eq!(Error::ChannelCountTooLarge.as_str(), "channel count does not fit in c_uint");
    assert_ne!(Error::ChannelCountTooLarge, Error::Engine("channel count does not fit in c_uint"));
}
