//! The commands the tool runs and the options they carry, as typed values.
use vstd::prelude::*;
use crate::filter::EnvVarsFilter;

verus! {

/// How much to show: the normal columns, or extra low-priority ones too.
#[derive(PartialEq, Eq, Structural, Clone, Copy, Debug)]
pub enum OutputFormat {
    Normal,
    Wide,
}

/// The top-level commands.
pub enum Commands {
    /// Show cluster resources.
    Get { resource: GetResources },
}

/// The resource kinds that can be listed, with their filters and display options.
pub enum GetResources {
    Pods {
        /// Only the pod of this name.
        pod_name: Option<String>,
        /// The namespace to list.
        namespace: String,
        /// Only pods scheduled on this node.
        node: Option<String>,
        /// List every namespace; shows the namespace column.
        all_namespaces: bool,
        output: OutputFormat,
        labels: bool,
        annotations: bool,
        /// Show the environment of the containers this filter selects.
        env_vars: Option<EnvVarsFilter>,
        /// The kubeconfig file to use.
        kubeconfig: Option<String>,
    },
    Nodes {
        /// Only the node of this name.
        node_name: Option<String>,
        output: OutputFormat,
        labels: bool,
        annotations: bool,
        /// The kubeconfig file to use.
        kubeconfig: Option<String>,
    },
}

impl GetResources {
    /// The kubeconfig path given for this command, if any.
    pub fn get_kubeconfig_path(&self) -> (r: Option<String>)
        ensures
            r == match self {
                GetResources::Pods { kubeconfig, .. } => *kubeconfig,
                GetResources::Nodes { kubeconfig, .. } => *kubeconfig,
            },
    {
        match self {
            GetResources::Pods { kubeconfig, .. } => kubeconfig.clone(),
            GetResources::Nodes { kubeconfig, .. } => kubeconfig.clone(),
        }
    }

    /// The namespace to query: the one given for pods, `default` for nodes.
    pub fn get_namespace(&self) -> (r: &str)
        ensures
            r@ == match self {
                GetResources::Pods { namespace, .. } => namespace@,
                GetResources::Nodes { .. } => "default"@,
            },
    {
        match self {
            GetResources::Pods { namespace, .. } => namespace.as_str(),
            GetResources::Nodes { .. } => "default",
        }
    }

    /// Whether every namespace is queried; never for nodes.
    pub fn is_all_namespaces(&self) -> (r: bool)
        ensures
            r == match self {
                GetResources::Pods { all_namespaces, .. } => *all_namespaces,
                GetResources::Nodes { .. } => false,
            },
    {
        match self {
            GetResources::Pods { all_namespaces, .. } => *all_namespaces,
            GetResources::Nodes { .. } => false,
        }
    }

    /// Whether to advise that a pod name is looked up across all
    /// namespaces, where it need not be unique and the search is slow.
    pub fn pod_name_across_namespaces(&self) -> (r: bool)
        ensures
            r == match self {
                GetResources::Pods { pod_name, all_namespaces, .. } => pod_name is Some && *all_namespaces,
                GetResources::Nodes { .. } => false,
            },
    {
        match self {
            GetResources::Pods { pod_name, all_namespaces, .. } => pod_name.is_some() && *all_namespaces,
            GetResources::Nodes { .. } => false,
        }
    }
}

} // verus!
