//! How the telemetry settings of the demo pick the export pipeline: the
//! service name, the export mode and the OTLP compression.
use vstd::prelude::*;

use crate::json::str_eq;
use crate::text::{lower_seq, to_ascii_lowercase};

verus! {

broadcast use vstd::string::group_string_axioms;

/// The token of an initialised telemetry pipeline.
#[derive(Debug)]
pub struct TelemetryHandle;

/// The OTLP transport that the settings ask for.
#[derive(Debug, Clone, Copy, PartialEq, Eq, Structural)]
pub enum OtlpProtocol {
    Http,
    Grpc,
}

/// Where spans are exported to.
#[derive(Debug, Clone, Copy, PartialEq, Eq, Structural)]
pub enum ExportKind {
    /// JSON lines on the console: the default when no OTLP settings are given.
    JsonDefault,
    OtlpGrpc,
    OtlpHttp,
}

pub open spec fn default_service_name() -> Seq<char> {
    "greentic-demo"@
}

/// The service name that spans carry: the configured one, else `greentic-demo`.
pub fn service_name_or_default(name: &Option<String>) -> (r: String)
    ensures
        r@ == match name {
            Some(n) => n@,
            None => default_service_name(),
        },
{
    match name {
        Some(n) => n.clone(),
        None => "greentic-demo".to_string(),
    }
}

/// The export mode: JSON without OTLP settings, else the OTLP transport they
/// name, gRPC by default.
pub open spec fn export_kind_of(otlp_given: bool, protocol: Option<OtlpProtocol>) -> ExportKind {
    if !otlp_given {
        ExportKind::JsonDefault
    } else {
        match protocol {
            Some(OtlpProtocol::Http) => ExportKind::OtlpHttp,
            _ => ExportKind::OtlpGrpc,
        }
    }
}

/// The export mode of the settings.
pub fn export_kind(otlp_given: bool, protocol: Option<OtlpProtocol>) -> (r: ExportKind)
    ensures
        r == export_kind_of(otlp_given, protocol),
{
    if !otlp_given {
        ExportKind::JsonDefault
    } else {
        match protocol {
            Some(OtlpProtocol::Http) => ExportKind::OtlpHttp,
            _ => ExportKind::OtlpGrpc,
        }
    }
}

/// Whether OTLP payloads are gzip-compressed: only `gzip`, in any ASCII case,
/// is supported; any other compression is ignored.
pub fn gzip_compression(compression: Option<&str>) -> (r: bool)
    ensures
        r == match compression {
            Some(c) => lower_seq(c@) == "gzip"@,
            None => false,
        },
{
    match compression {
        Some(c) => {
            let lowered = to_ascii_lowercase(c);
            str_eq(lowered.as_str(), "gzip")
        },
        None => false,
    }
}

} // verus!
