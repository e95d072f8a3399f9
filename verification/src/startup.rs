//! The startup snapshot the frontend asks for.
//!
//! A read-only aggregate, computed fresh on each request from the shell's
//! observations: the configuration, whether the model file is present and
//! large enough, its size and display name, and the gateway's port.

use vstd::prelude::*;

use crate::config::AppConfig;

verus! {

use crate::paths::MODEL_FILENAME;
use crate::paths::MODEL_MIN_SIZE;

/// The aggregate handed to the frontend at startup.
#[derive(Clone, Debug)]
pub struct StartupInfo {
    pub config: AppConfig,
    pub model_exists: bool,
    pub model_size: u64,
    pub model_name: String,
    pub gateway_port: u16,
}

/// Whether a model file of the given length (`None` when absent or
/// unreadable) counts as downloaded: present and strictly larger than the
/// sanity floor.
pub open spec fn spec_model_ready(len: Option<u64>) -> bool {
    match len {
        Option::Some(l) => l > MODEL_MIN_SIZE,
        Option::None => false,
    }
}

/// Decide whether the model file counts as downloaded.
pub fn model_is_ready(len: Option<u64>) -> (b: bool)
    ensures
        b == spec_model_ready(len),
{
    match len {
        Option::Some(l) => l > MODEL_MIN_SIZE,
        Option::None => false,
    }
}

/// Assemble the startup snapshot from the configuration, the model file's
/// observed length, and the resolved port. The model counts as existing
/// exactly when it is ready; its reported size is its length then and zero
/// otherwise; its display name is always the model's deterministic file
/// name.
pub fn make_startup_info(config: AppConfig, model_len: Option<u64>, gateway_port: u16) -> (info:
    StartupInfo)
    ensures
        info.config == config,
        info.model_exists == spec_model_ready(model_len),
        info.model_size == if spec_model_ready(model_len) {
            model_len.unwrap()
        } else {
            0u64
        },
        info.model_name@ == MODEL_FILENAME@,
        info.gateway_port == gateway_port,
{
    let model_exists = model_is_ready(model_len);
    let model_size: u64 = if model_exists {
        match model_len {
            Option::Some(l) => l,
            Option::None => 0,
        }
    } else {
        0
    };
    StartupInfo {
        config,
        model_exists,
        model_size,
        model_name: MODEL_FILENAME.to_owned(),
        gateway_port,
    }
}

} // verus!
