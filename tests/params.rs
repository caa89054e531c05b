use zat::{
    CliArgs, Command, ConfigEntry, ConfigError, Params, ParamsError, ResolutionError, SessionConfig,
};

fn args(command: Command) -> CliArgs {
    CliArgs {
        command,
        mode: None,
        connect: vec![],
        listen: vec![],
        no_multicast_scouting: false,
        cfg: vec![],
    }
}

fn write(keyexpr: &str, priority: Option<&str>, buffer: usize) -> Command {
    Command::Write {
        keyexpr: keyexpr.to_string(),
        reliability: None,
        congestion_control: Some("block".to_string()),
        priority: priority.map(|p| p.to_string()),
        express: true,
        buffer,
    }
}

fn entry(k: &str, v: &str) -> ConfigEntry {
    ConfigEntry { key: k.to_string(), value: v.to_string() }
}

#[test]
fn read_mode_params() {
    let a = args(Command::Read { keyexpr: "zenoh/cat".to_string(), ignore_eof: true });
    match a.params() {
        Ok(Params::Read(p)) => {
            assert_eq!(p.topic.as_str(), "zenoh/cat");
            assert!(p.continue_on_end_of_stream);
        }
        other => panic!("unexpected {:?}", other),
    }
}

#[test]
fn write_mode_params() {
    match args(write("zenoh/cat", Some("3"), 4)).params() {
        Ok(Params::Write(p)) => {
            assert_eq!(p.topic.as_str(), "zenoh/cat");
            assert_eq!(p.chunk_size, 4);
            assert_eq!(p.qos.priority, 3);
            assert!(p.qos.express);
        }
        other => panic!("unexpected {:?}", other),
    }
}

#[test]
fn invalid_topic_is_refused_first() {
    match args(write("", Some("9"), 0)).params() {
        Err(ParamsError::Topic(e)) => assert_eq!(e.input, ""),
        other => panic!("unexpected {:?}", other),
    }
    match args(Command::Read { keyexpr: "a//b".to_string(), ignore_eof: false }).params() {
        Err(ParamsError::Topic(e)) => assert_eq!(e.input, "a//b"),
        other => panic!("unexpected {:?}", other),
    }
}

#[test]
fn bad_qos_token_is_refused() {
    assert_eq!(
        args(write("a/b", Some("8"), 4)).params().unwrap_err(),
        ParamsError::Qos(ResolutionError::Priority("8".to_string()))
    );
}

#[test]
fn zero_chunk_size_is_refused() {
    assert_eq!(args(write("a/b", None, 0)).params().unwrap_err(), ParamsError::ZeroChunkSize);
}

#[test]
fn no_overrides_by_default() {
    let a = args(Command::Read { keyexpr: "a".to_string(), ignore_eof: false });
    assert_eq!(a.config_overrides(), Ok(vec![]));
}

#[test]
fn overrides_in_order_with_json_values() {
    let mut a = args(Command::Read { keyexpr: "a".to_string(), ignore_eof: false });
    a.mode = Some("client".to_string());
    a.connect = vec!["tcp/10.0.0.1:7447".to_string(), "udp/[::1]:7447".to_string()];
    a.listen = vec!["tcp/0.0.0.0:7447".to_string()];
    a.no_multicast_scouting = true;
    a.cfg = vec!["timestamping/enabled:true".to_string(), "a:b:c".to_string(), "k:".to_string()];
    assert_eq!(
        a.config_overrides(),
        Ok(vec![
            entry("mode", "\"client\""),
            entry("connect/endpoints", "[\"tcp/10.0.0.1:7447\",\"udp/[::1]:7447\"]"),
            entry("listen/endpoints", "[\"tcp/0.0.0.0:7447\"]"),
            entry("scouting/multicast/enabled", "false"),
            entry("timestamping/enabled", "true"),
            entry("a", "b:c"),
            entry("k", ""),
        ])
    );
}

#[test]
fn json_string_escapes_quotes() {
    let mut a = args(Command::Read { keyexpr: "a".to_string(), ignore_eof: false });
    a.mode = Some("pe\"er".to_string());
    assert_eq!(a.config_overrides(), Ok(vec![entry("mode", "\"pe\\\"er\"")]));
}

#[test]
fn cfg_without_separator_is_refused() {
    let mut a = args(Command::Read { keyexpr: "a".to_string(), ignore_eof: false });
    a.cfg = vec!["x:1".to_string(), "novalue".to_string(), "also-bad".to_string()];
    assert_eq!(
        a.config_overrides(),
        Err(ConfigError::MissingSeparator("novalue".to_string()))
    );
}

#[test]
fn config_receives_the_overrides() {
    let mut a = args(Command::Read { keyexpr: "a".to_string(), ignore_eof: false });
    a.mode = Some("client".to_string());
    a.connect = vec!["tcp/127.0.0.1:7447".to_string()];
    a.no_multicast_scouting = true;
    let mut config = SessionConfig::new(zenoh::config::Config::default());
    assert_eq!(a.config(&mut config), Ok(()));
    assert_eq!(config.get().get_json("mode").unwrap(), "\"client\"");
    assert_eq!(config.get().get_json("scouting/multicast/enabled").unwrap(), "false");
    assert_eq!(config.get().get_json("connect/endpoints").unwrap(), "[\"tcp/127.0.0.1:7447\"]");
}

#[test]
fn config_reports_refused_entry() {
    let mut a = args(Command::Read { keyexpr: "a".to_string(), ignore_eof: false });
    a.cfg = vec!["no_such_key:1".to_string()];
    let mut config = SessionConfig::new(zenoh::config::Config::default());
    match a.config(&mut config) {
        Err(ConfigError::Rejected { key, value, .. }) => {
            assert_eq!(key, "no_such_key");
            assert_eq!(value, "1");
        }
        other => panic!("unexpected {:?}", other),
    }
}

#[test]
fn config_reports_missing_separator_before_inserting() {
    let mut a = args(Command::Read { keyexpr: "a".to_string(), ignore_eof: false });
    a.mode = Some("client".to_string());
    a.cfg = vec!["bad".to_string()];
    let mut config = SessionConfig::new(zenoh::config::Config::default());
    assert_eq!(a.config(&mut config), Err(ConfigError::MissingSeparator("bad".to_string())));
    assert_ne!(config.get().get_json("mode").unwrap(), "\"client\"");
}

#[test]
fn config_without_changes_leaves_config_alone() {
    let a = args(Command::Read { keyexpr: "a".to_string(), ignore_eof: false });
    let mut config = SessionConfig::new(zenoh::config::Config::default());
    let before = config.get().get_json("mode").unwrap();
    assert_eq!(a.config(&mut config), Ok(()));
    assert_eq!(config.get().get_json("mode").unwrap(), before);
}

#[test]
fn cfg_pair_is_split_at_first_colon_and_applied_last() {
    let mut a = args(Command::Read { keyexpr: "a".to_string(), ignore_eof: false });
    a.connect = vec!["tcp/10.0.0.1:7447".to_string()];
    a.cfg = vec!["connect/endpoints:['tcp/127.0.0.1:7447']".to_string()];
    let mut config = SessionConfig::new(zenoh::config::Config::default());
    assert_eq!(a.config(&mut config), Ok(()));
    assert_eq!(
        config.into_inner().get_json("connect/endpoints").unwrap(),
        "[\"tcp/127.0.0.1:7447\"]"
    );
}
