//! A verified core for an opcache metrics exporter.
//!
//! The pipeline of one scrape: build the CGI parameter set of a
//! configuration, frame it as FastCGI request bytes, read the response
//! records back into stdout and stderr streams, split the CGI-style payload
//! at the first blank line, decode the JSON body into a typed snapshot, and
//! render the snapshot — or the failure that prevented one — as Prometheus
//! exposition text. The calling infrastructure owns the socket and the
//! deadline; everything between the bytes is specified and proved here.

pub mod config;
pub mod decode;
pub mod error;
pub mod fcgi;
pub mod json;
pub mod php_date_format;
pub mod render;
pub mod response;
pub mod scrape;
pub mod snapshot;
pub mod text;
