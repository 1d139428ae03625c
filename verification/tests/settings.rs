use tritonserver_rs::message::{Index, State};
use tritonserver_rs::metrics::{Format, Metrics};
use tritonserver_rs::options::{Control, Limit, LogFormat, Options};
use tritonserver_rs::server::InstanceGroup;
use tritonserver_rs::trace::Trace;

#[test]
fn options_record_settings() {
    let mut options = Options::new("/models");
    assert_eq!(options.model_repositories, vec!["/models"]);
    assert_eq!(options.server_id, None);

    options.server_id("my server");
    assert_eq!(options.server_id.as_deref(), Some("my server"));

    options.model_control_mode(Control::Explicit);
    assert_eq!(options.model_control_mode, Some(Control::Explicit));

    options.startup_model("resnet");
    options.startup_model("bert");
    assert_eq!(options.startup_models, vec!["resnet", "bert"]);

    options.rate_limiter_mode(Limit::ExecCount);
    options.add_rate_limiter_resource("gpu_mem", 4, -1);
    assert_eq!(options.rate_limiter_resources, vec![("gpu_mem".to_string(), 4, -1)]);

    options.pinned_memory_pool_byte_size(1 << 20);
    assert_eq!(options.pinned_memory_pool_byte_size, Some(1 << 20));

    options.cuda_memory_pool_byte_size(0, 1 << 24);
    assert_eq!(options.cuda_memory_pool_byte_sizes, vec![(0, 1 << 24)]);

    options.cuda_virtual_address_size(0, 1 << 16);
    assert_eq!(options.cuda_virtual_address_sizes, vec![(0, 1 << 16)]);

    options.response_cache_byte_size(512);
    options.response_cache_directory("/caches");
    options.response_cache_config("local", "{\"size\": 1048576}");
    assert_eq!(options.response_cache_directory.as_deref(), Some("/caches"));
    assert_eq!(
        options.response_cache_configs,
        vec![("local".to_string(), "{\"size\": 1048576}".to_string())]
    );

    options.exit_on_error(true);
    options.strict_readiness(false);
    options.strict_model_config(true);
    options.model_config_name("alt_config");
    assert_eq!(options.exit_on_error, Some(true));
    assert_eq!(options.strict_readiness, Some(false));
    assert_eq!(options.strict_model_config, Some(true));
    assert_eq!(options.model_config_name.as_deref(), Some("alt_config"));

    options.buffer_manager_thread_count(2);
    options.model_load_thread_count(4);
    options.model_retry_count(1);
    options.peer_access(false);
    options.model_namespacing(true);
    assert_eq!(options.buffer_manager_thread_count, Some(2));
    assert_eq!(options.model_load_thread_count, Some(4));
    assert_eq!(options.model_retry_count, Some(1));
    assert_eq!(options.peer_access, Some(false));
    assert_eq!(options.model_namespacing, Some(true));

    options.log_file("/var/log/engine.log");
    options.log_info(true);
    options.log_warn(true);
    options.log_error(true);
    options.log_format(LogFormat::Iso8601);
    options.log_verbose(2);
    assert_eq!(options.log_file.as_deref(), Some("/var/log/engine.log"));
    assert_eq!(options.log_format, Some(LogFormat::Iso8601));
    assert_eq!(options.log_verbose, Some(2));

    options.metrics(true);
    options.gpu_metrics(false);
    options.cpu_metrics(true);
    assert_eq!(options.metrics, Some(true));
    assert_eq!(options.gpu_metrics, Some(false));
    assert_eq!(options.cpu_metrics, Some(true));

    options.backend_directory("/opt/backends");
    options.repo_agent_directory("/opt/agents");
    assert_eq!(options.backend_directory.as_deref(), Some("/opt/backends"));
    assert_eq!(options.repo_agent_directory.as_deref(), Some("/opt/agents"));

    options.backend_config("onnx", "threads", "4");
    options.host_policy("numa0", "cpus", "0-3");
    options.metrics_config("", "rate", "1000");
    assert_eq!(
        options.backend_configs,
        vec![("onnx".to_string(), "threads".to_string(), "4".to_string())]
    );
    assert_eq!(
        options.host_policies,
        vec![("numa0".to_string(), "cpus".to_string(), "0-3".to_string())]
    );
    assert_eq!(
        options.metrics_configs,
        vec![("".to_string(), "rate".to_string(), "1000".to_string())]
    );
}

#[test]
fn zero_timeouts_are_raised_to_one() {
    let mut options = Options::new("/models");
    options.exit_timeout(0);
    assert_eq!(options.exit_timeout_seconds, Some(1));
    options.exit_timeout(30);
    assert_eq!(options.exit_timeout_seconds, Some(30));

    options.metrics_interval(0);
    assert_eq!(options.metrics_interval_millis, Some(1));
    options.metrics_interval(2000);
    assert_eq!(options.metrics_interval_millis, Some(2000));
}

#[test]
fn instance_group_names() {
    assert_eq!(InstanceGroup::Auto.as_str(), "KIND_AUTO");
    assert_eq!(InstanceGroup::Cpu.as_str(), "KIND_CPU");
    assert_eq!(InstanceGroup::Gpu.as_str(), "KIND_GPU");
    assert_eq!(InstanceGroup::Model.as_str(), "KIND_MODEL");
}

#[test]
fn model_index_record() {
    let index = Index {
        name: "resnet".to_string(),
        state: State::Ready,
        version: 3,
    };
    assert_eq!(index.state, State::Ready);
    assert_eq!(index.version, 3);
}

#[test]
fn metrics_text_passes_through() {
    let metrics = Metrics::new(b"engine_requests_total 4".to_vec());
    assert_eq!(metrics.formatted(Format::Prometheus).as_slice(), b"engine_requests_total 4");
}

#[test]
fn trace_records_identity_and_activities() {
    let mut trace = Trace::new(17, 0);
    assert_eq!(trace.id(), 17);
    assert_eq!(trace.parent_id(), 0);
    assert_eq!(trace.model_name(), "");
    assert_eq!(trace.model_version(), 0);
    assert_eq!(trace.request_id(), "");

    trace.report_activity(1_000, "preprocess start");
    trace.report_activity(2_000, "preprocess end");
    assert_eq!(trace.activities.len(), 2);
    assert_eq!(trace.activities[0], (1_000, "preprocess start".to_string()));

    trace.set_context(String::from("span-1"));
    assert_eq!(trace.context(), "span-1");

    let child = trace.spawn_child(18);
    assert_eq!(child.id(), 18);
    assert_eq!(child.parent_id(), 17);

    // traces compare by id alone
    let same_id = Trace::new(17, 3);
    assert!(trace == same_id);
    assert!(trace != child);
}
