//! Engine creation options.
//!
//! [`Options`] is a plain record of every setting the engine accepts at
//! creation time. Each setter records its value exactly; unset options
//! stay `None` and the engine's own defaults apply. The unverified layer
//! hands the record to the engine when the server is created.

use vstd::prelude::*;

verus! {

/// Model control modes of the engine.
#[derive(Debug, Copy, Clone, PartialEq, Eq, Structural, Hash)]
pub enum Control {
    /// The models in the model repository are loaded on startup and later
    /// changes to the repository are ignored; this is the engine's
    /// "none" control mode.
    Disabled,
    /// The models are loaded on startup and the repository can be polled
    /// periodically, loading, unloading and updating models according to
    /// its changes.
    Poll,
    /// No model is loaded on startup; the model control calls must be
    /// used to load and unload models.
    Explicit,
}

/// Rate limit modes of the engine.
#[derive(Debug, Copy, Clone, PartialEq, Eq, Structural, Hash)]
pub enum Limit {
    /// Rate limiting is turned off: an inference is executed whenever an
    /// instance is available.
    Off,
    /// Execution is prioritized by the number of times each instance has
    /// got a chance to run, under the configured resource constraints.
    ExecCount,
}

/// Log formats of the engine: the fields are shared, the timestamp
/// representation differs.
#[derive(Debug, Copy, Clone, PartialEq, Eq, Structural, Hash)]
pub enum LogFormat {
    /// `<level><month><day><hour>:<min>:<sec>.<usec> <pid> <file>:<line>]`
    Default,
    /// `<year>-<month>-<day>T<hour>:<min>:<sec>Z <level> <pid> <file>:<line>]`
    Iso8601,
}

/// Kinds of instance groups recognized by the engine.
#[derive(Debug, Copy, Clone, PartialEq, Eq, Structural, Hash)]
pub enum InstanceGroupKind {
    /// Instances run on GPU devices when all the listed ones are
    /// available, else on the CPU.
    Auto,
    /// Instances must run on the CPU.
    Cpu,
    /// Instances must run on the GPU.
    Gpu,
    /// Instances run where the model or backend itself specifies.
    Model,
}

/// Engine creation options: a record of every configured setting.
#[derive(Debug, Clone)]
pub struct Options {
    /// The model repositories; the engine searches all of them.
    pub model_repositories: Vec<String>,
    /// The textual id that identifies the server.
    pub server_id: Option<String>,
    /// How the models of the repository are controlled.
    pub model_control_mode: Option<Control>,
    /// Whether strict model configuration handling is enabled.
    pub strict_model_config: Option<bool>,
    /// The custom model configuration name to load for all models; the default configuration file applies when empty.
    pub model_config_name: Option<String>,
    /// The rate limit mode.
    pub rate_limiter_mode: Option<Limit>,
    /// The total pinned memory byte size that the engine can allocate.
    pub pinned_memory_pool_byte_size: Option<u64>,
    /// The total response cache byte size that the engine can allocate in CPU memory.
    pub response_cache_byte_size: Option<u64>,
    /// The directory holding cache shared libraries.
    pub response_cache_directory: Option<String>,
    /// Whether the server exits on an initialization error.
    pub exit_on_error: Option<bool>,
    /// Whether strict readiness handling is enabled.
    pub strict_readiness: Option<bool>,
    /// The exit timeout, in seconds; at least one.
    pub exit_timeout_seconds: Option<u64>,
    /// The number of threads used in the buffer manager.
    pub buffer_manager_thread_count: Option<usize>,
    /// The number of threads that load models concurrently.
    pub model_load_thread_count: Option<usize>,
    /// The number of retries when loading a model.
    pub model_retry_count: Option<usize>,
    /// Whether a GPU device may directly access the memory of another one.
    pub peer_access: Option<bool>,
    /// Whether models of the same name may be served from different namespaces.
    pub model_namespacing: Option<bool>,
    /// The file log output is saved to; the console when empty.
    pub log_file: Option<String>,
    /// Whether info level logging is enabled.
    pub log_info: Option<bool>,
    /// Whether warning level logging is enabled.
    pub log_warn: Option<bool>,
    /// Whether error level logging is enabled.
    pub log_error: Option<bool>,
    /// The log format.
    pub log_format: Option<LogFormat>,
    /// The verbose logging level; zero disables verbose logging.
    pub log_verbose: Option<i32>,
    /// Whether metrics collection is enabled.
    pub metrics: Option<bool>,
    /// Whether GPU metrics collection is enabled; collected only when metrics are enabled too.
    pub gpu_metrics: Option<bool>,
    /// Whether CPU metrics collection is enabled; collected only when metrics are enabled too.
    pub cpu_metrics: Option<bool>,
    /// The metrics collection interval, in milliseconds; at least one.
    pub metrics_interval_millis: Option<u64>,
    /// The directory searched for backend shared libraries, after the version and model directories.
    pub backend_directory: Option<String>,
    /// The directory searched for repository agent shared libraries.
    pub repo_agent_directory: Option<String>,
    /// The models to load at startup; takes effect with [`Control::Explicit`].
    pub startup_models: Vec<String>,
    /// Resource counts for rate limiting: name, count and device; device -1 makes the count available on every device.
    pub rate_limiter_resources: Vec<(String, u64, i32)>,
    /// The total CUDA memory byte size the engine can allocate, per GPU device.
    pub cuda_memory_pool_byte_sizes: Vec<(i32, u64)>,
    /// The CUDA virtual address space size for growable memory, per GPU device.
    pub cuda_virtual_address_sizes: Vec<(i32, usize)>,
    /// Configuration, per cache name, that initializes the cache implementation.
    pub response_cache_configs: Vec<(String, String)>,
    /// Configuration settings for named backends: backend, setting and value.
    pub backend_configs: Vec<(String, String, String)>,
    /// Host policy settings: policy, setting and value.
    pub host_policies: Vec<(String, String, String)>,
    /// Metrics configuration settings: group, setting and value.
    pub metrics_configs: Vec<(String, String, String)>,
}

impl Options {
    /// Create a new options record against the model repository at
    /// `repository`, which must be the full absolute path to it. No other
    /// setting is configured yet.
    pub fn new(repository: &str) -> (r: Options)
        ensures
            r.model_repositories@.len() == 1,
            r.model_repositories@[0]@ == repository@,
            r.server_id is None,
            r.model_control_mode is None,
            r.strict_model_config is None,
            r.model_config_name is None,
            r.rate_limiter_mode is None,
            r.pinned_memory_pool_byte_size is None,
            r.response_cache_byte_size is None,
            r.response_cache_directory is None,
            r.exit_on_error is None,
            r.strict_readiness is None,
            r.exit_timeout_seconds is None,
            r.buffer_manager_thread_count is None,
            r.model_load_thread_count is None,
            r.model_retry_count is None,
            r.peer_access is None,
            r.model_namespacing is None,
            r.log_file is None,
            r.log_info is None,
            r.log_warn is None,
            r.log_error is None,
            r.log_format is None,
            r.log_verbose is None,
            r.metrics is None,
            r.gpu_metrics is None,
            r.cpu_metrics is None,
            r.metrics_interval_millis is None,
            r.backend_directory is None,
            r.repo_agent_directory is None,
            r.startup_models@ == Seq::<String>::empty(),
            r.rate_limiter_resources@ == Seq::<(String, u64, i32)>::empty(),
            r.cuda_memory_pool_byte_sizes@ == Seq::<(i32, u64)>::empty(),
            r.cuda_virtual_address_sizes@ == Seq::<(i32, usize)>::empty(),
            r.response_cache_configs@ == Seq::<(String, String)>::empty(),
            r.backend_configs@ == Seq::<(String, String, String)>::empty(),
            r.host_policies@ == Seq::<(String, String, String)>::empty(),
            r.metrics_configs@ == Seq::<(String, String, String)>::empty(),
    {
        let mut model_repositories: Vec<String> = Vec::new();
        model_repositories.push(repository.to_owned());
        Options {
            model_repositories,
            server_id: None,
            model_control_mode: None,
            strict_model_config: None,
            model_config_name: None,
            rate_limiter_mode: None,
            pinned_memory_pool_byte_size: None,
            response_cache_byte_size: None,
            response_cache_directory: None,
            exit_on_error: None,
            strict_readiness: None,
            exit_timeout_seconds: None,
            buffer_manager_thread_count: None,
            model_load_thread_count: None,
            model_retry_count: None,
            peer_access: None,
            model_namespacing: None,
            log_file: None,
            log_info: None,
            log_warn: None,
            log_error: None,
            log_format: None,
            log_verbose: None,
            metrics: None,
            gpu_metrics: None,
            cpu_metrics: None,
            metrics_interval_millis: None,
            backend_directory: None,
            repo_agent_directory: None,
            startup_models: Vec::new(),
            rate_limiter_resources: Vec::new(),
            cuda_memory_pool_byte_sizes: Vec::new(),
            cuda_virtual_address_sizes: Vec::new(),
            response_cache_configs: Vec::new(),
            backend_configs: Vec::new(),
            host_policies: Vec::new(),
            metrics_configs: Vec::new(),
        }
    }

    /// Set the textual id for the server; the id names the server.
    pub fn server_id(&mut self, id: &str)
        ensures
            (final(self).server_id matches Some(v) && v@ == id@),
            *final(self) == (Options { server_id: final(self).server_id, ..*old(self) }),
    {
        self.server_id = Some(id.to_owned());
    }

    /// Add a model to be loaded at startup; it takes effect with [`Control::Explicit`]. Can be called multiple times.
    pub fn startup_model(&mut self, model: &str)
        ensures
            final(self).startup_models@.len() == old(self).startup_models@.len() + 1,
            final(self).startup_models@.last()@ == model@,
            final(self).startup_models@.take(old(self).startup_models@.len() as int) == old(self).startup_models@,
            *final(self) == (Options { startup_models: final(self).startup_models, ..*old(self) }),
    {
        let ghost before = self.startup_models@;
        self.startup_models.push(model.to_owned());
        proof {
            assert(self.startup_models@.take(before.len() as int) =~= before);
        }
    }

    /// Set the model control mode; see [`Control`] for what each mode does.
    pub fn model_control_mode(&mut self, mode: Control)
        ensures
            *final(self) == (Options { model_control_mode: Some(mode), ..*old(self) }),
    {
        self.model_control_mode = Some(mode);
    }

    /// Enable or disable strict model configuration handling.
    pub fn strict_model_config(&mut self, enable: bool)
        ensures
            *final(self) == (Options { strict_model_config: Some(enable), ..*old(self) }),
    {
        self.strict_model_config = Some(enable);
    }

    /// Set the custom model configuration name to load for all models; the default configuration file applies when it is empty.
    pub fn model_config_name(&mut self, config_name: &str)
        ensures
            (final(self).model_config_name matches Some(v) && v@ == config_name@),
            *final(self) == (Options { model_config_name: final(self).model_config_name, ..*old(self) }),
    {
        self.model_config_name = Some(config_name.to_owned());
    }

    /// Set the rate limit mode; see [`Limit`].
    pub fn rate_limiter_mode(&mut self, mode: Limit)
        ensures
            *final(self) == (Options { rate_limiter_mode: Some(mode), ..*old(self) }),
    {
        self.rate_limiter_mode = Some(mode);
    }

    /// Add a resource count for rate limiting. A device of -1 makes the count available on every device.
    pub fn add_rate_limiter_resource(&mut self, name: &str, count: u64, device: i32)
        ensures
            final(self).rate_limiter_resources@.len() == old(self).rate_limiter_resources@.len() + 1,
            final(self).rate_limiter_resources@.last().0@ == name@,
            final(self).rate_limiter_resources@.last().1 == count,
            final(self).rate_limiter_resources@.last().2 == device,
            final(self).rate_limiter_resources@.take(old(self).rate_limiter_resources@.len() as int) == old(self).rate_limiter_resources@,
            *final(self) == (Options { rate_limiter_resources: final(self).rate_limiter_resources, ..*old(self) }),
    {
        let ghost before = self.rate_limiter_resources@;
        self.rate_limiter_resources.push((name.to_owned(), count, device));
        proof {
            assert(self.rate_limiter_resources@.take(before.len() as int) =~= before);
        }
    }

    /// Set the total pinned memory byte size that the engine can allocate.
    pub fn pinned_memory_pool_byte_size(&mut self, size: u64)
        ensures
            *final(self) == (Options { pinned_memory_pool_byte_size: Some(size), ..*old(self) }),
    {
        self.pinned_memory_pool_byte_size = Some(size);
    }

    /// Set the total CUDA memory byte size that the engine can allocate on the given GPU device.
    pub fn cuda_memory_pool_byte_size(&mut self, device: i32, size: u64)
        ensures
            final(self).cuda_memory_pool_byte_sizes@.len() == old(self).cuda_memory_pool_byte_sizes@.len() + 1,
            final(self).cuda_memory_pool_byte_sizes@.last() == (device, size),
            final(self).cuda_memory_pool_byte_sizes@.take(old(self).cuda_memory_pool_byte_sizes@.len() as int) == old(self).cuda_memory_pool_byte_sizes@,
            *final(self) == (Options { cuda_memory_pool_byte_sizes: final(self).cuda_memory_pool_byte_sizes, ..*old(self) }),
    {
        let ghost before = self.cuda_memory_pool_byte_sizes@;
        self.cuda_memory_pool_byte_sizes.push((device, size));
        proof {
            assert(self.cuda_memory_pool_byte_sizes@.take(before.len() as int) =~= before);
        }
    }

    /// Set the size of the virtual address space used for growable memory in implicit state, on the given GPU device.
    pub fn cuda_virtual_address_size(&mut self, device: i32, size: usize)
        ensures
            final(self).cuda_virtual_address_sizes@.len() == old(self).cuda_virtual_address_sizes@.len() + 1,
            final(self).cuda_virtual_address_sizes@.last() == (device, size),
            final(self).cuda_virtual_address_sizes@.take(old(self).cuda_virtual_address_sizes@.len() as int) == old(self).cuda_virtual_address_sizes@,
            *final(self) == (Options { cuda_virtual_address_sizes: final(self).cuda_virtual_address_sizes, ..*old(self) }),
    {
        let ghost before = self.cuda_virtual_address_sizes@;
        self.cuda_virtual_address_sizes.push((device, size));
        proof {
            assert(self.cuda_virtual_address_sizes@.take(before.len() as int) =~= before);
        }
    }

    /// Set the total response cache byte size that the engine can allocate in CPU memory.
    pub fn response_cache_byte_size(&mut self, size: u64)
        ensures
            *final(self) == (Options { response_cache_byte_size: Some(size), ..*old(self) }),
    {
        self.response_cache_byte_size = Some(size);
    }

    /// Set the directory holding cache shared libraries; it is searched for cache implementations.
    pub fn response_cache_directory(&mut self, cache_dir: &str)
        ensures
            (final(self).response_cache_directory matches Some(v) && v@ == cache_dir@),
            *final(self) == (Options { response_cache_directory: final(self).response_cache_directory, ..*old(self) }),
    {
        self.response_cache_directory = Some(cache_dir.to_owned());
    }

    /// Set the configuration used to initialize the cache implementation of `cache_name`, as a JSON text.
    pub fn response_cache_config(&mut self, cache_name: &str, config_json: &str)
        ensures
            final(self).response_cache_configs@.len() == old(self).response_cache_configs@.len() + 1,
            final(self).response_cache_configs@.last().0@ == cache_name@,
            final(self).response_cache_configs@.last().1@ == config_json@,
            final(self).response_cache_configs@.take(old(self).response_cache_configs@.len() as int) == old(self).response_cache_configs@,
            *final(self) == (Options { response_cache_configs: final(self).response_cache_configs, ..*old(self) }),
    {
        let ghost before = self.response_cache_configs@;
        self.response_cache_configs.push((cache_name.to_owned(), config_json.to_owned()));
        proof {
            assert(self.response_cache_configs@.take(before.len() as int) =~= before);
        }
    }

    /// Enable or disable exit-on-error: whether the server exits on an initialization error.
    pub fn exit_on_error(&mut self, enable: bool)
        ensures
            *final(self) == (Options { exit_on_error: Some(enable), ..*old(self) }),
    {
        self.exit_on_error = Some(enable);
    }

    /// Enable or disable strict readiness handling.
    pub fn strict_readiness(&mut self, enable: bool)
        ensures
            *final(self) == (Options { strict_readiness: Some(enable), ..*old(self) }),
    {
        self.strict_readiness = Some(enable);
    }

    /// Set the exit timeout, in seconds; a zero timeout is raised to one
    /// second.
    pub fn exit_timeout(&mut self, timeout_seconds: u64)
        ensures
            *final(self) == (Options {
                exit_timeout_seconds: Some(
                    if timeout_seconds == 0 {
                        1u64
                    } else {
                        timeout_seconds
                    },
                ),
                ..*old(self)
            }),
    {
        let stored: u64 = if timeout_seconds == 0 {
            1
        } else {
            timeout_seconds
        };
        self.exit_timeout_seconds = Some(stored);
    }

    /// Set the number of threads used in the buffer manager.
    pub fn buffer_manager_thread_count(&mut self, thread_count: usize)
        ensures
            *final(self) == (Options { buffer_manager_thread_count: Some(thread_count), ..*old(self) }),
    {
        self.buffer_manager_thread_count = Some(thread_count);
    }

    /// Set the number of threads that load models concurrently.
    pub fn model_load_thread_count(&mut self, thread_count: usize)
        ensures
            *final(self) == (Options { model_load_thread_count: Some(thread_count), ..*old(self) }),
    {
        self.model_load_thread_count = Some(thread_count);
    }

    /// Set the number of retries when loading a model.
    pub fn model_retry_count(&mut self, retry_count: usize)
        ensures
            *final(self) == (Options { model_retry_count: Some(retry_count), ..*old(self) }),
    {
        self.model_retry_count = Some(retry_count);
    }

    /// Enable or disable peer access: whether a GPU device may directly access the memory of another one. Even when enabled, the underlying system may not support it.
    pub fn peer_access(&mut self, enable_peer_access: bool)
        ensures
            *final(self) == (Options { peer_access: Some(enable_peer_access), ..*old(self) }),
    {
        self.peer_access = Some(enable_peer_access);
    }

    /// Enable or disable model namespacing: serving models of the same name from different namespaces.
    pub fn model_namespacing(&mut self, enable_namespace: bool)
        ensures
            *final(self) == (Options { model_namespacing: Some(enable_namespace), ..*old(self) }),
    {
        self.model_namespacing = Some(enable_namespace);
    }

    /// Provide a log output file; an empty name directs logging to the console.
    pub fn log_file(&mut self, log_file: &str)
        ensures
            (final(self).log_file matches Some(v) && v@ == log_file@),
            *final(self) == (Options { log_file: final(self).log_file, ..*old(self) }),
    {
        self.log_file = Some(log_file.to_owned());
    }

    /// Enable or disable info level logging.
    pub fn log_info(&mut self, enable: bool)
        ensures
            *final(self) == (Options { log_info: Some(enable), ..*old(self) }),
    {
        self.log_info = Some(enable);
    }

    /// Enable or disable warning level logging.
    pub fn log_warn(&mut self, enable: bool)
        ensures
            *final(self) == (Options { log_warn: Some(enable), ..*old(self) }),
    {
        self.log_warn = Some(enable);
    }

    /// Enable or disable error level logging.
    pub fn log_error(&mut self, enable: bool)
        ensures
            *final(self) == (Options { log_error: Some(enable), ..*old(self) }),
    {
        self.log_error = Some(enable);
    }

    /// Set the log format; see [`LogFormat`].
    pub fn log_format(&mut self, log_format: LogFormat)
        ensures
            *final(self) == (Options { log_format: Some(log_format), ..*old(self) }),
    {
        self.log_format = Some(log_format);
    }

    /// Set the verbose logging level; level zero disables verbose logging.
    pub fn log_verbose(&mut self, level: i32)
        ensures
            *final(self) == (Options { log_verbose: Some(level), ..*old(self) }),
    {
        self.log_verbose = Some(level);
    }

    /// Enable or disable metrics collection.
    pub fn metrics(&mut self, enable: bool)
        ensures
            *final(self) == (Options { metrics: Some(enable), ..*old(self) }),
    {
        self.metrics = Some(enable);
    }

    /// Enable or disable GPU metrics collection; GPU metrics are collected only when metrics are enabled too.
    pub fn gpu_metrics(&mut self, enable: bool)
        ensures
            *final(self) == (Options { gpu_metrics: Some(enable), ..*old(self) }),
    {
        self.gpu_metrics = Some(enable);
    }

    /// Enable or disable CPU metrics collection; CPU metrics are collected only when metrics are enabled too.
    pub fn cpu_metrics(&mut self, enable: bool)
        ensures
            *final(self) == (Options { cpu_metrics: Some(enable), ..*old(self) }),
    {
        self.cpu_metrics = Some(enable);
    }

    /// Set the metrics collection interval, in milliseconds; a zero
    /// interval is raised to one millisecond.
    pub fn metrics_interval(&mut self, interval_millis: u64)
        ensures
            *final(self) == (Options {
                metrics_interval_millis: Some(
                    if interval_millis == 0 {
                        1u64
                    } else {
                        interval_millis
                    },
                ),
                ..*old(self)
            }),
    {
        let stored: u64 = if interval_millis == 0 {
            1
        } else {
            interval_millis
        };
        self.metrics_interval_millis = Some(stored);
    }

    /// Set the directory holding backend shared libraries, searched after the version and model directories; the caller provides the full absolute path.
    pub fn backend_directory(&mut self, path: &str)
        ensures
            (final(self).backend_directory matches Some(v) && v@ == path@),
            *final(self) == (Options { backend_directory: final(self).backend_directory, ..*old(self) }),
    {
        self.backend_directory = Some(path.to_owned());
    }

    /// Set the directory holding repository agent shared libraries; the caller provides the full absolute path.
    pub fn repo_agent_directory(&mut self, path: &str)
        ensures
            (final(self).repo_agent_directory matches Some(v) && v@ == path@),
            *final(self) == (Options { repo_agent_directory: final(self).repo_agent_directory, ..*old(self) }),
    {
        self.repo_agent_directory = Some(path.to_owned());
    }

    /// Set a configuration setting for the named backend.
    pub fn backend_config(&mut self, name: &str, setting: &str, value: &str)
        ensures
            final(self).backend_configs@.len() == old(self).backend_configs@.len() + 1,
            final(self).backend_configs@.last().0@ == name@,
            final(self).backend_configs@.last().1@ == setting@,
            final(self).backend_configs@.last().2@ == value@,
            final(self).backend_configs@.take(old(self).backend_configs@.len() as int) == old(self).backend_configs@,
            *final(self) == (Options { backend_configs: final(self).backend_configs, ..*old(self) }),
    {
        let ghost before = self.backend_configs@;
        self.backend_configs.push((name.to_owned(), setting.to_owned(), value.to_owned()));
        proof {
            assert(self.backend_configs@.take(before.len() as int) =~= before);
        }
    }

    /// Set a host policy setting for the given policy name.
    pub fn host_policy(&mut self, name: &str, setting: &str, value: &str)
        ensures
            final(self).host_policies@.len() == old(self).host_policies@.len() + 1,
            final(self).host_policies@.last().0@ == name@,
            final(self).host_policies@.last().1@ == setting@,
            final(self).host_policies@.last().2@ == value@,
            final(self).host_policies@.take(old(self).host_policies@.len() as int) == old(self).host_policies@,
            *final(self) == (Options { host_policies: final(self).host_policies, ..*old(self) }),
    {
        let ghost before = self.host_policies@;
        self.host_policies.push((name.to_owned(), setting.to_owned(), value.to_owned()));
        proof {
            assert(self.host_policies@.take(before.len() as int) =~= before);
        }
    }

    /// Set a configuration setting for metrics; an empty group name indicates a global setting.
    pub fn metrics_config(&mut self, name: &str, setting: &str, value: &str)
        ensures
            final(self).metrics_configs@.len() == old(self).metrics_configs@.len() + 1,
            final(self).metrics_configs@.last().0@ == name@,
            final(self).metrics_configs@.last().1@ == setting@,
            final(self).metrics_configs@.last().2@ == value@,
            final(self).metrics_configs@.take(old(self).metrics_configs@.len() as int) == old(self).metrics_configs@,
            *final(self) == (Options { metrics_configs: final(self).metrics_configs, ..*old(self) }),
    {
        let ghost before = self.metrics_configs@;
        self.metrics_configs.push((name.to_owned(), setting.to_owned(), value.to_owned()));
        proof {
            assert(self.metrics_configs@.take(before.len() as int) =~= before);
        }
    }
}

} // verus!
