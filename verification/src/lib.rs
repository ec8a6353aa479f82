//! A build-tool provisioning library: project detection, version-file
//! parsing, a content-keyed tool cache, and an ordered provider chain that
//! acquires tool binaries from the host, a download URL, or a source build.

pub mod bazel;
pub mod buck2;
pub mod config;
pub mod deno;
pub mod detector;
pub mod dotnet;
pub mod gradle;
pub mod maven;
pub mod npm;
pub mod python;
pub mod size_format;
pub mod strutil;
pub mod tool_cache;
pub mod toolchain;
