//! Simulator runtime images, as the external facility lists them.

use vstd::prelude::*;

verus! {

/// Mathematical image of a [`Runtime`].
#[verifier::ext_equal]
pub struct RuntimeV {
    pub identifier: Seq<char>,
    pub build: Seq<char>,
    pub version: Seq<char>,
    pub state: Seq<char>,
    pub deletable: bool,
    pub kind: Seq<char>,
    pub last_used_at: Option<Seq<char>>,
    pub mount_path: Option<Seq<char>>,
    pub path: Option<Seq<char>>,
    pub platform_identifier: Option<Seq<char>>,
    pub runtime_bundle_path: Option<Seq<char>>,
    pub runtime_identifier: Seq<char>,
    pub signature_state: Option<Seq<char>>,
    pub size_bytes: u64,
    pub unusable_error_message: Option<Seq<char>>,
}

/// One installed simulator runtime image.
#[derive(Debug)]
pub struct Runtime {
    pub identifier: String,
    pub build: String,
    pub version: String,
    pub state: String,
    pub deletable: bool,
    pub kind: String,
    pub last_used_at: Option<String>,
    pub mount_path: Option<String>,
    pub path: Option<String>,
    pub platform_identifier: Option<String>,
    pub runtime_bundle_path: Option<String>,
    pub runtime_identifier: String,
    pub signature_state: Option<String>,
    pub size_bytes: u64,
    pub unusable_error_message: Option<String>,
}

impl View for Runtime {
    type V = RuntimeV;

    open spec fn view(&self) -> RuntimeV {
        RuntimeV {
            identifier: self.identifier@,
            build: self.build@,
            version: self.version@,
            state: self.state@,
            deletable: self.deletable,
            kind: self.kind@,
            last_used_at: self.last_used_at.deep_view(),
            mount_path: self.mount_path.deep_view(),
            path: self.path.deep_view(),
            platform_identifier: self.platform_identifier.deep_view(),
            runtime_bundle_path: self.runtime_bundle_path.deep_view(),
            runtime_identifier: self.runtime_identifier@,
            signature_state: self.signature_state.deep_view(),
            size_bytes: self.size_bytes,
            unusable_error_message: self.unusable_error_message.deep_view(),
        }
    }
}

impl Default for Runtime {
    /// The all-empty runtime record, for documents that omit fields.
    fn default() -> (r: Self)
        ensures
            r@.identifier.len() == 0,
            r@.build.len() == 0,
            r@.version.len() == 0,
            r@.state.len() == 0,
            !r@.deletable,
            r@.kind.len() == 0,
            r@.last_used_at is None,
            r@.mount_path is None,
            r@.path is None,
            r@.platform_identifier is None,
            r@.runtime_bundle_path is None,
            r@.runtime_identifier.len() == 0,
            r@.signature_state is None,
            r@.size_bytes == 0,
            r@.unusable_error_message is None,
    {
        Runtime {
            identifier: String::new(),
            build: String::new(),
            version: String::new(),
            state: String::new(),
            deletable: false,
            kind: String::new(),
            last_used_at: None,
            mount_path: None,
            path: None,
            platform_identifier: None,
            runtime_bundle_path: None,
            runtime_identifier: String::new(),
            signature_state: None,
            size_bytes: 0,
            unusable_error_message: None,
        }
    }
}

} // verus!
