use relay_selector::describe::Describe;
use relay_selector::logging::{get_default_directives, one_level_quieter, LevelFilter};

#[test]
fn each_level_has_one_below() {
    assert_eq!(one_level_quieter(LevelFilter::Off), LevelFilter::Off);
    assert_eq!(one_level_quieter(LevelFilter::Error), LevelFilter::Off);
    assert_eq!(one_level_quieter(LevelFilter::Warn), LevelFilter::Error);
    assert_eq!(one_level_quieter(LevelFilter::Info), LevelFilter::Warn);
    assert_eq!(one_level_quieter(LevelFilter::Debug), LevelFilter::Info);
    assert_eq!(one_level_quieter(LevelFilter::Trace), LevelFilter::Debug);
}

#[test]
fn levels_in_words() {
    assert_eq!(LevelFilter::Off.describe(), "off");
    assert_eq!(LevelFilter::Error.describe(), "error");
    assert_eq!(LevelFilter::Warn.describe(), "warn");
    assert_eq!(LevelFilter::Info.describe(), "info");
    assert_eq!(LevelFilter::Debug.describe(), "debug");
    assert_eq!(LevelFilter::Trace.describe(), "trace");
}

#[test]
fn default_directives_at_debug() {
    assert_eq!(
        get_default_directives(LevelFilter::Debug),
        vec![
            "netlink_proto=error",
            "h2=warn",
            "tokio_core=warn",
            "tokio_io=warn",
            "tokio_proto=warn",
            "tokio_reactor=warn",
            "tokio_threadpool=warn",
            "tokio_util=warn",
            "tower=warn",
            "want=warn",
            "ws=warn",
            "mio=warn",
            "hyper=warn",
            "rtnetlink=warn",
            "rustls=warn",
            "netlink_sys=warn",
            "tracing=warn",
            "hickory_proto=warn",
            "hickory_server=warn",
            "hickory_resolver=warn",
            "mnl=info",
            "nftnl=info",
            "udp_over_tcp=info",
        ]
    );
}

#[test]
fn only_the_last_directives_follow_the_level() {
    let at_trace = get_default_directives(LevelFilter::Trace);
    let at_off = get_default_directives(LevelFilter::Off);
    assert_eq!(at_trace.len(), 23);
    assert_eq!(at_trace[..20], at_off[..20]);
    assert_eq!(at_trace[20..], ["mnl=debug", "nftnl=debug", "udp_over_tcp=debug"]);
    assert_eq!(at_off[20..], ["mnl=off", "nftnl=off", "udp_over_tcp=off"]);
    assert_eq!(
        get_default_directives(LevelFilter::Error)[20..],
        ["mnl=off", "nftnl=off", "udp_over_tcp=off"]
    );
}
