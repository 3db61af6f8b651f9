//! OpenHarmony: the supported architectures and their names.

pub mod ohos_arch;
