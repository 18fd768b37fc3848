//! The C-style tags of the external interface: backend, error, variant and
//! version codes as an embedding caller would pass them, and their
//! conversions into the library's own enums.

#![allow(non_camel_case_types)]

use vstd::prelude::*;

use crate::config::{Backend, Variant, Version};

verus! {

/// Available backends, as an external embedding names them.
#[derive(Clone, Copy, Debug, PartialEq, Eq, Structural)]
pub enum argonautica_backend_t {
    /// The supported compute engine.
    ARGONAUTICA_C,
    /// The placeholder Rust backend.
    ARGONAUTICA_RUST,
}

/// Error codes of the external interface.
#[derive(Clone, Copy, Debug, PartialEq, Eq, Structural)]
pub enum argonautica_error_t {
    /// No error.
    ARGONAUTICA_OK,
    /// A first error class.
    ARGONAUTICA_ERROR1,
    /// A second error class.
    ARGONAUTICA_ERROR2,
}

/// Available Argon2 variants, as an external embedding names them.
#[derive(Clone, Copy, Debug, PartialEq, Eq, Structural)]
pub enum argonautica_variant_t {
    /// Data-dependent memory access.
    ARGONAUTICA_ARGON2D,
    /// Data-independent memory access.
    ARGONAUTICA_ARGON2I,
    /// The hybrid variant.
    ARGONAUTICA_ARGON2ID,
}

/// Available Argon2 versions, as an external embedding names them.
#[derive(Clone, Copy, Debug, PartialEq, Eq, Structural)]
pub enum argonautica_version_t {
    /// Version 0x10.
    ARGONAUTICA_0x10,
    /// Version 0x13.
    ARGONAUTICA_0x13,
}

impl From<argonautica_backend_t> for Backend {
    fn from(backend: argonautica_backend_t) -> (r: Backend)
    {
        match backend {
            argonautica_backend_t::ARGONAUTICA_C => Backend::C,
            argonautica_backend_t::ARGONAUTICA_RUST => Backend::Rust,
        }
    }
}

impl vstd::std_specs::convert::FromSpecImpl<argonautica_backend_t> for Backend {
    open spec fn obeys_from_spec() -> bool {
        true
    }

    open spec fn from_spec(backend: argonautica_backend_t) -> Backend {
        match backend {
            argonautica_backend_t::ARGONAUTICA_C => Backend::C,
            argonautica_backend_t::ARGONAUTICA_RUST => Backend::Rust,
        }
    }
}

impl From<argonautica_variant_t> for Variant {
    fn from(variant: argonautica_variant_t) -> (r: Variant)
    {
        match variant {
            argonautica_variant_t::ARGONAUTICA_ARGON2D => Variant::Argon2d,
            argonautica_variant_t::ARGONAUTICA_ARGON2I => Variant::Argon2i,
            argonautica_variant_t::ARGONAUTICA_ARGON2ID => Variant::Argon2id,
        }
    }
}

impl vstd::std_specs::convert::FromSpecImpl<argonautica_variant_t> for Variant {
    open spec fn obeys_from_spec() -> bool {
        true
    }

    open spec fn from_spec(variant: argonautica_variant_t) -> Variant {
        match variant {
            argonautica_variant_t::ARGONAUTICA_ARGON2D => Variant::Argon2d,
            argonautica_variant_t::ARGONAUTICA_ARGON2I => Variant::Argon2i,
            argonautica_variant_t::ARGONAUTICA_ARGON2ID => Variant::Argon2id,
        }
    }
}

impl From<argonautica_version_t> for Version {
    fn from(version: argonautica_version_t) -> (r: Version)
    {
        match version {
            argonautica_version_t::ARGONAUTICA_0x10 => Version::_0x10,
            argonautica_version_t::ARGONAUTICA_0x13 => Version::_0x13,
        }
    }
}

impl vstd::std_specs::convert::FromSpecImpl<argonautica_version_t> for Version {
    open spec fn obeys_from_spec() -> bool {
        true
    }

    open spec fn from_spec(version: argonautica_version_t) -> Version {
        match version {
            argonautica_version_t::ARGONAUTICA_0x10 => Version::_0x10,
            argonautica_version_t::ARGONAUTICA_0x13 => Version::_0x13,
        }
    }
}

} // verus!
