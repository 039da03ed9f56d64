//! The configuration snapshot that every request reads.

use vstd::prelude::*;
use crate::status::Status;

verus! {

/// Output format of a directory listing.
#[derive(Clone, Copy, Debug, PartialEq, Eq, Structural)]
pub enum DirListFmt {
    Html,
    Json,
}

/// One virtual host: a host name and the root directory served for it.
#[derive(Clone, Debug)]
pub struct VirtualHost {
    pub host: String,
    pub root: String,
}

/// Settings that only some deployments carry.
#[derive(Clone, Debug)]
pub struct Advanced {
    pub virtual_hosts: Option<Vec<VirtualHost>>,
}

/// It defines options for a request handler.
pub struct RequestHandlerOpts {
    /// Root directory of static files.
    pub root_dir: String,
    /// Compression feature.
    pub compression: bool,
    /// Compression static feature.
    pub compression_static: bool,
    /// Directory listing feature.
    pub dir_listing: bool,
    /// Directory listing order feature.
    pub dir_listing_order: u8,
    /// Directory listing format feature.
    pub dir_listing_format: DirListFmt,
    /// CORS feature.
    pub cors: bool,
    /// Security headers feature.
    pub security_headers: bool,
    /// Cache control headers feature.
    pub cache_control_headers: bool,
    /// Page for 404 errors.
    pub page404: String,
    /// Page for 50x errors.
    pub page50x: String,
    /// Page fallback feature.
    pub page_fallback: Vec<u8>,
    /// Basic auth feature.
    pub basic_auth: String,
    /// Index files feature.
    pub index_files: Vec<String>,
    /// Log remote address feature.
    pub log_remote_address: bool,
    /// Redirect trailing slash feature.
    pub redirect_trailing_slash: bool,
    /// Ignore hidden files feature.
    pub ignore_hidden_files: bool,
    /// Health endpoint feature.
    pub health: bool,
    /// Metrics endpoint feature.
    pub experimental_metrics: bool,
    /// Maintenance mode feature.
    pub maintenance_mode: bool,
    /// Custom HTTP status for when entering into maintenance mode.
    pub maintenance_mode_status: Status,
    /// Custom maintenance mode HTML file.
    pub maintenance_mode_file: String,
    /// Advanced options from the config file.
    pub advanced_opts: Option<Advanced>,
}

impl RequestHandlerOpts {
    /// The options are well formed when the maintenance status is a status
    /// code.
    pub open spec fn wf(&self) -> bool {
        self.maintenance_mode_status.wf()
    }

    /// The configured page that an error status is rendered from: the 404
    /// page for a client error, the 50x page for a server error, none for
    /// any other status.
    pub open spec fn page_for(&self, status: Status) -> Option<String> {
        if status.is_client_error() {
            Some(self.page404)
        } else if status.is_server_error() {
            Some(self.page50x)
        } else {
            None
        }
    }

    /// The configured page that an error status is rendered from.
    pub fn error_page_path(&self, status: Status) -> (r: Option<&String>)
        ensures
            r.is_some() == self.page_for(status).is_some(),
            r.is_some() ==> *r.unwrap() == self.page_for(status).unwrap(),
    {
        if status.is_client_error() {
            Some(&self.page404)
        } else if status.is_server_error() {
            Some(&self.page50x)
        } else {
            None
        }
    }
}

impl Default for RequestHandlerOpts {
    fn default() -> (r: Self)
        ensures
            r.wf(),
            r.root_dir@ == "./public"@,
            r.compression,
            !r.compression_static,
            !r.dir_listing,
            r.dir_listing_order == 6,
            r.dir_listing_format == DirListFmt::Html,
            !r.cors,
            !r.security_headers,
            r.cache_control_headers,
            r.page404@ == "./404.html"@,
            r.page50x@ == "./50x.html"@,
            r.page_fallback@ == Seq::<u8>::empty(),
            r.basic_auth@ == Seq::<char>::empty(),
            r.index_files@.len() == 1,
            r.index_files@[0]@ == "index.html"@,
            !r.log_remote_address,
            r.redirect_trailing_slash,
            !r.ignore_hidden_files,
            !r.health,
            !r.experimental_metrics,
            !r.maintenance_mode,
            r.maintenance_mode_status.code == 503,
            r.maintenance_mode_file@ == Seq::<char>::empty(),
            r.advanced_opts.is_none(),
    {
        let mut index_files: Vec<String> = Vec::new();
        index_files.push("index.html".to_owned());
        Self {
            root_dir: "./public".to_owned(),
            compression: true,
            compression_static: false,
            dir_listing: false,
            dir_listing_order: 6,
            dir_listing_format: DirListFmt::Html,
            cors: false,
            security_headers: false,
            cache_control_headers: true,
            page404: "./404.html".to_owned(),
            page50x: "./50x.html".to_owned(),
            page_fallback: Vec::new(),
            basic_auth: String::new(),
            index_files,
            log_remote_address: false,
            redirect_trailing_slash: true,
            ignore_hidden_files: false,
            health: false,
            experimental_metrics: false,
            maintenance_mode: false,
            maintenance_mode_status: Status::service_unavailable(),
            maintenance_mode_file: String::new(),
            advanced_opts: None,
        }
    }
}

} // verus!
