//! Server configuration: read once at start-up and passed by reference afterwards.
use vstd::prelude::*;

verus! {

/// Where and how the server listens and serves.
pub struct Server {
    /// The address to listen on
    pub host: String,
    /// The port to listen on
    pub port: String,
    /// Time to live of the packets sent
    pub ttl: u32,
    /// The directory served as the root
    pub root_folder: String,
    /// Whether a directory without an index file is listed, or refused
    pub list_directories: bool,
    /// How many workers run on each logical processor
    pub workers_per_thread: usize,
    /// The names of the index files of a directory, in order of preference
    pub index: Vec<String>,
}

/// Time limits.
pub struct Timeouts {
    /// How long a request may take to arrive
    pub request_miliseconds: u32,
}

/// What is logged, and where.
pub struct Debug {
    /// Whether logging is on
    pub active: bool,
    /// Whether errors are logged
    pub error: bool,
    /// Whether warnings are logged
    pub warning: bool,
    /// Whether every request is logged
    pub verbose: bool,
    /// Whether logs go to the console
    pub log_to_console: bool,
    /// Whether logs go to a file
    pub log_to_file: bool,
}

/// The whole configuration.
pub struct Settings {
    pub server: Server,
    pub timeout: Timeouts,
    pub debug: Debug,
}

impl Timeouts {
    /// The request time limit in nanoseconds.
    pub fn get_nanoseconds(&self) -> (r: u32)
        requires
            self.request_miliseconds * 1000000 <= u32::MAX,
        ensures
            r == self.request_miliseconds * 1000000,
    {
        self.request_miliseconds * 1000000
    }
}

impl Server {
    /// How many workers the pool holds on a machine with `core_count` logical
    /// processors; `None` where the product does not fit.
    pub fn worker_count(&self, core_count: usize) -> (r: Option<usize>)
        ensures
            r is Some <==> core_count * self.workers_per_thread <= usize::MAX,
            r is Some ==> r->0 == core_count * self.workers_per_thread,
    {
        core_count.checked_mul(self.workers_per_thread)
    }
}

impl Settings {
    /// These settings with `/` appended to the root folder, so that a request path can
    /// be joined to it.
    pub fn with_root_slash(self) -> (r: Settings)
        ensures
            r.server.root_folder@ == self.server.root_folder@ + "/"@,
            r.server.host == self.server.host,
            r.server.port == self.server.port,
            r.server.ttl == self.server.ttl,
            r.server.list_directories == self.server.list_directories,
            r.server.workers_per_thread == self.server.workers_per_thread,
            r.server.index == self.server.index,
            r.timeout == self.timeout,
            r.debug == self.debug,
    {
        let mut s = self;
        s.server.root_folder.append("/");
        s
    }
}

} // verus!
