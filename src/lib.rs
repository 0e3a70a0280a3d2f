//! Patch contributions of cluster features: the patch document model, the
//! kube-apiserver options feature, a registry of features and a harness that
//! applies patches to a control-plane node template.
pub mod patch;
pub mod document;
pub mod kubeapi_options;
pub mod harness;
pub mod registry;
pub mod laws;
