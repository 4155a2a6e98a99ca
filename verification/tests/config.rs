use layad::config::{
    default_model, default_python, BindAddress, Checkpoint, Cli, Config, Device, IpAddress,
};
use layad::environment::worker_env;
use layad::time::Duration;

fn defaults() -> Cli {
    Cli::defaults(default_python(false), default_model(false))
}

fn address(ip: IpAddress, port: u16, text: &str) -> BindAddress {
    BindAddress {
        ip,
        port,
        text: text.to_string(),
    }
}

fn local() -> BindAddress {
    address(IpAddress::V4(127, 0, 0, 1), 8787, "127.0.0.1:8787")
}

fn configured(cli: Cli) -> Result<Config, String> {
    Config::try_from(cli, Ok(local()))
}

#[test]
fn defaults_are_loopback_cpu_english() {
    let config = configured(defaults()).expect("defaults valid");
    assert_eq!(config.bind.ip, IpAddress::V4(127, 0, 0, 1));
    assert_eq!(config.bind.text, "127.0.0.1:8787");
    assert_eq!(config.checkpoint, Checkpoint::English);
    assert_eq!(config.checkpoint.subfolder(), None);
    assert_eq!(config.device, Device::Cpu);
    assert!(config.fail_fast);
    let (program, args) = config.worker_command();
    assert!(program.contains("python"));
    assert_eq!(args[0], "python/worker.py");
    assert!(args.contains(&"--model".to_string()));
    assert!(!args.contains(&"--subfolder".to_string()));
}

#[test]
fn non_loopback_bind_is_rejected() {
    let mut cli = defaults();
    cli.bind = "0.0.0.0:8787".to_string();
    let bind = address(IpAddress::V4(0, 0, 0, 0), 8787, "0.0.0.0:8787");
    let err = Config::try_from(cli, Ok(bind)).unwrap_err();
    assert!(err.contains("loopback"), "{err}");
    let mut cli = defaults();
    cli.bind = "192.168.1.10:8787".to_string();
    let bind = address(IpAddress::V4(192, 168, 1, 10), 8787, "192.168.1.10:8787");
    let err = Config::try_from(cli, Ok(bind)).unwrap_err();
    assert!(err.contains("loopback"), "{err}");
    assert_eq!(
        err,
        "refusing to bind 192.168.1.10:8787: layad is an unauthenticated local service and only \
         serves loopback addresses"
    );
}

#[test]
fn multilingual_uses_subfolder() {
    let mut cli = defaults();
    cli.checkpoint = Checkpoint::Multilingual;
    cli.model = "convaiinnovations/laya".to_string();
    let config = configured(cli).unwrap();
    assert_eq!(config.checkpoint.subfolder(), Some("multilingual"));
    let (_, args) = config.worker_command();
    let idx = args
        .iter()
        .position(|a| a == "--subfolder")
        .expect("subfolder flag");
    assert_eq!(args[idx + 1], "multilingual");
}

#[test]
fn python_env_must_be_key_value() {
    let mut cli = defaults();
    cli.python_env = vec!["justaname".to_string()];
    let err = configured(cli).unwrap_err();
    assert!(err.contains("KEY=VALUE"), "{err}");
    let mut cli = defaults();
    cli.python_env = vec![
        "HF_HUB_OFFLINE=1".to_string(),
        "TRANSFORMERS_OFFLINE=1".to_string(),
    ];
    let config = configured(cli).unwrap();
    assert_eq!(config.python_env.len(), 2);
    assert_eq!(config.python_env[0].0, "HF_HUB_OFFLINE");
}

#[test]
fn remote_model_keeps_upstream_layout() {
    let mut cli = defaults();
    cli.checkpoint = Checkpoint::TypedDecisions;
    cli.model = "convaiinnovations/laya".to_string();
    let config = configured(cli).unwrap();
    assert_eq!(config.subfolder().as_deref(), Some("typed-decisions"));
}

#[test]
fn empty_worker_script_runs_program_directly() {
    let mut cli = defaults();
    cli.worker_script = String::new();
    cli.worker_args = vec!["--mode".to_string(), "normal".to_string()];
    let config = configured(cli).unwrap();
    let (_, args) = config.worker_command();
    assert_eq!(args[0], "--model");
    assert!(args.contains(&"--mode".to_string()));
}

#[test]
fn worker_env_maps_config() {
    let mut cli = defaults();
    cli.python_env = vec!["HF_HUB_OFFLINE=1".to_string()];
    cli.device = Device::Mps;
    let config = configured(cli).unwrap();
    let env = worker_env(&config, None);
    assert_eq!(env.get("HF_HUB_OFFLINE"), Some("1"));
    assert_eq!(env.get("LAYAD_DEVICE"), Some("mps"));
    assert_eq!(env.get("PYTHONUNBUFFERED"), Some("1"));
}

#[test]
fn hf_home_defaults_to_the_project_cache_and_can_be_overridden() {
    let config = configured(defaults()).unwrap();
    assert_eq!(worker_env(&config, None).get("HF_HOME"), Some(".layad/hf"));
    assert_eq!(
        worker_env(&config, Some("/inherited")).get("HF_HOME"),
        Some("/inherited")
    );
    let mut cli = defaults();
    cli.python_env = vec![
        "HF_HOME=/first".to_string(),
        "HF_HOME=/custom/hf".to_string(),
    ];
    let config = configured(cli).unwrap();
    let env = worker_env(&config, Some("/inherited"));
    assert_eq!(env.get("HF_HOME"), Some("/custom/hf"));
    assert_eq!(env.get("NOT_SET"), None);
    assert_eq!(env.len(), 6);
    let names: Vec<&str> = (0..env.len()).map(|i| env.name_at(i)).collect();
    assert_eq!(
        names,
        [
            "PYTHONUNBUFFERED",
            "PYTHONIOENCODING",
            "LAYAD_MODEL",
            "LAYAD_DEVICE",
            "LAYAD_CHECKPOINT",
            "HF_HOME"
        ]
    );
    assert_eq!(env.value_at(4), "english");
}

#[test]
fn local_defaults_are_preferred() {
    assert_eq!(default_python(true), ".venv/bin/python");
    assert_eq!(default_python(false), "python3");
    assert_eq!(default_model(true), ".layad/model");
    assert_eq!(default_model(false), "convaiinnovations/laya");
}

#[test]
fn default_limits_fit_a_full_skill_pool() {
    let config = configured(defaults()).unwrap();
    assert_eq!(config.max_questions, 64);
    assert_eq!(config.max_concurrent, 24);
    assert_eq!(config.max_body_bytes, 1_048_576);
    assert_eq!(config.max_response_bytes, 8_388_608);
    assert_eq!(config.startup_timeout.as_millis(), 600_000);
    assert_eq!(config.inference_timeout.as_millis(), 60_000);
    assert_eq!(config.shutdown_timeout.as_millis(), 10_000);
    assert_eq!(config.log, "info");
}

#[test]
fn each_limit_must_be_positive() {
    let mut cli = defaults();
    cli.max_body_bytes = 0;
    assert_eq!(
        configured(cli).unwrap_err(),
        "--max-body-bytes must be greater than zero"
    );
    let mut cli = defaults();
    cli.max_questions = 0;
    assert_eq!(
        configured(cli).unwrap_err(),
        "--max-questions must be greater than zero"
    );
    let mut cli = defaults();
    cli.max_concurrent = 0;
    assert_eq!(
        configured(cli).unwrap_err(),
        "--max-concurrent must be greater than zero"
    );
    let mut cli = defaults();
    cli.max_response_bytes = 0;
    assert_eq!(
        configured(cli).unwrap_err(),
        "--max-response-bytes must be greater than zero"
    );
    let mut cli = defaults();
    cli.python = String::new();
    assert_eq!(configured(cli).unwrap_err(), "--python must not be empty");
}

#[test]
fn unreadable_bind_and_bad_variables_are_explained() {
    let mut cli = defaults();
    cli.bind = "no\"where".to_string();
    let err = Config::try_from(cli, Err("invalid socket address syntax".to_string())).unwrap_err();
    assert_eq!(
        err,
        "invalid --bind \"no\\\"where\": invalid socket address syntax"
    );
    let mut cli = defaults();
    cli.python_env = vec!["A=1".to_string(), "bare".to_string()];
    assert_eq!(
        configured(cli).unwrap_err(),
        "--python-env expects KEY=VALUE, got \"bare\""
    );
    // The name is trimmed, and one that is blank is none.
    let mut cli = defaults();
    cli.python_env = vec!["  = x".to_string()];
    assert_eq!(
        configured(cli).unwrap_err(),
        "--python-env expects KEY=VALUE, got \" x\""
    );
    let mut cli = defaults();
    cli.python_env = vec![" KEY\t=a=b ".to_string()];
    let config = configured(cli).unwrap();
    assert_eq!(
        config.python_env,
        [("KEY".to_string(), "a=b ".to_string())]
    );
}

#[test]
fn the_ipv6_loopback_is_accepted() {
    let cli = defaults();
    let bind = address(IpAddress::V6(1), 8787, "[::1]:8787");
    let config = Config::try_from(cli, Ok(bind)).unwrap();
    assert_eq!(config.bind.port, 8787);
    assert!(!IpAddress::V6(2).is_loopback());
    assert!(IpAddress::V4(127, 9, 9, 9).is_loopback());
}

#[test]
fn full_worker_command_line() {
    let mut cli = defaults();
    cli.checkpoint = Checkpoint::TypedDecisions;
    cli.device = Device::Auto;
    cli.worker_args = vec!["--no-warmup".to_string()];
    let config = configured(cli).unwrap();
    let (program, args) = config.clone().worker_command();
    assert_eq!(program, "python3");
    assert_eq!(
        args,
        [
            "python/worker.py",
            "--model",
            "convaiinnovations/laya",
            "--device",
            "auto",
            "--subfolder",
            "typed-decisions",
            "--no-warmup"
        ]
    );
    assert_eq!(Checkpoint::TypedDecisions.dir_name(), "typed-decisions");
    assert_eq!(Checkpoint::English.as_str(), "english");
    assert_eq!(Device::Cuda.as_str(), "cuda");
}

#[test]
fn durations_keep_their_milliseconds() {
    let d = Duration::from_millis(61_250);
    assert_eq!(d.as_secs(), 61);
    assert_eq!(d.as_millis(), 61_250);
    assert_eq!(d.max(Duration::from_secs(61)), d);
    assert_eq!(d.max(Duration::from_secs(62)).as_millis(), 62_000);
    assert_eq!(
        Duration::from_secs(u64::MAX).as_millis(),
        u64::MAX as u128 * 1000
    );
}

#[test]
fn names_read_back_as_what_they_name() {
    for checkpoint in [
        Checkpoint::English,
        Checkpoint::Multilingual,
        Checkpoint::TypedDecisions,
    ] {
        assert_eq!(Checkpoint::from_name(checkpoint.as_str()), Some(checkpoint));
        assert_eq!(checkpoint.dir_name(), checkpoint.as_str());
    }
    assert_eq!(Checkpoint::from_name("English"), None);
    for device in [Device::Cpu, Device::Mps, Device::Cuda, Device::Auto] {
        assert_eq!(Device::from_name(device.as_str()), Some(device));
    }
    assert_eq!(Device::from_name(""), None);
}
