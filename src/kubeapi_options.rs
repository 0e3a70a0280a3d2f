//! The feature that passes extra command-line options to kube-apiserver. It
//! ships a kustomization to the control-plane nodes, whose patch appends each
//! option to the static pod's command, and the commands that apply it.
use vstd::prelude::*;
use crate::document::{
    json_object, Kustomization, KustomizationView, KustomizePatch,
    KustomizePatchTarget, KustomizePatchTargetView, KustomizePatchView, NodeFile, NodeFileView,
};
use crate::patch::{
    defs_view, opt_text, JsonPatch, JsonPatchView, Payload, PayloadView, PatchDefinition,
    PatchDefinitionView, PatchOp, PatchTarget, PatchTargetView, Selector, SelectorView,
};

verus! {

/// The name of the feature's variable and of its patch definition.
pub const VARIABLE_NAME: &'static str = "kubeAPIOptions";

/// Truthy exactly when some option is not empty: the options joined with no
/// separator are then not empty. It never indexes the list, so an empty list
/// is merely falsy.
pub const ENABLED_IF: &'static str = "{{ if (join \"\" .kubeAPIOptions) }}true{{ end }}";

pub const CONTROL_PLANE_API_VERSION: &'static str = "controlplane.cluster.x-k8s.io/v1beta1";

pub const CONTROL_PLANE_KIND: &'static str = "KubeadmControlPlaneTemplate";

pub const FILES_PATH: &'static str = "/spec/template/spec/kubeadmConfigSpec/files/-";

pub const PRE_COMMANDS_PATH: &'static str = "/spec/template/spec/kubeadmConfigSpec/preKubeadmCommands/-";

pub const POST_COMMANDS_PATH: &'static str = "/spec/template/spec/kubeadmConfigSpec/postKubeadmCommands/-";

pub const KUSTOMIZATION_PATH: &'static str = "/etc/kubernetes/kustomizations/kubeapi_options/kustomization.yml";

pub const FILE_PERMISSIONS: &'static str = "0644";

pub const FILE_OWNER: &'static str = "root:root";

pub const MANIFEST_NAME: &'static str = "kube-apiserver.yaml";

pub const MKDIR_COMMAND: &'static str = "mkdir -p /etc/kubernetes/kustomizations/kubeapi_options";

pub const COPY_COMMAND: &'static str = "cp /etc/kubernetes/manifests/kube-apiserver.yaml /etc/kubernetes/kustomizations/kubeapi_options/kube-apiserver.yaml";

pub const BUILD_COMMAND: &'static str = "kubectl kustomize /etc/kubernetes/kustomizations/kubeapi_options -o /etc/kubernetes/manifests/kube-apiserver.yaml";

/// The path, inside the static pod, of its first container's command list.
pub const CONTAINER_COMMAND_PATH: &'static str = "/spec/containers/0/command/-";

/// The kustomization's patch: for each option, one `add` of it to the first
/// container's command.
pub const COMMAND_PATCH_TEMPLATE: &'static str = "{{- range .kubeAPIOptions }}\n- op: add\n  path: /spec/containers/0/command/-\n  value: {{ . }}\n{{ end -}}\n";

/// The values the feature takes: the options to pass, in order.
#[derive(Clone, Debug)]
pub struct FeatureValues {
    pub kubeapi_options: Vec<String>,
}

impl FeatureValues {
    pub open spec fn flags(&self) -> Seq<Seq<char>> {
        self.kubeapi_options@.map_values(|s: String| s@)
    }

    /// Whether the feature's condition holds for these values.
    pub fn is_active(&self) -> (r: bool)
        ensures
            r == is_active(self.flags()),
    {
        let n = self.kubeapi_options.len();
        for i in 0..n
            invariant
                n == self.kubeapi_options@.len(),
                forall|j: int| 0 <= j < i ==> #[trigger] self.flags()[j].len() == 0,
        {
            if !self.kubeapi_options[i].as_str().is_empty() {
                assert(self.flags()[i as int].len() > 0);
                return true;
            }
        }
        false
    }
}

/// The feature is active when some option is not empty.
pub open spec fn is_active(flags: Seq<Seq<char>>) -> bool {
    exists|i: int| 0 <= i < flags.len() && #[trigger] flags[i].len() > 0
}

/// The kustomization the feature ships.
pub open spec fn kustomization_spec() -> KustomizationView {
    KustomizationView {
        resources: seq![MANIFEST_NAME@],
        patches: seq![KustomizePatchView {
            target: KustomizePatchTargetView {
                group: ""@,
                version: "v1"@,
                kind: "Pod"@,
                name: "kube-apiserver"@,
            },
            patch: COMMAND_PATCH_TEMPLATE@,
        }],
    }
}

/// The file that carries the kustomization with the given text.
pub open spec fn node_file_spec(content: Seq<char>) -> NodeFileView {
    NodeFileView {
        path: KUSTOMIZATION_PATH@,
        permissions: Some(FILE_PERMISSIONS@),
        owner: Some(FILE_OWNER@),
        content: Some(content),
    }
}

/// The template of the file descriptor.
pub open spec fn file_template_spec() -> Seq<char> {
    json_object(node_file_spec(kustomization_spec().yaml()).fields())
}

pub open spec fn add_op(path: Seq<char>, payload: PayloadView) -> JsonPatchView {
    JsonPatchView { op: PatchOp::Add, path, payload: Some(payload) }
}

/// The feature's patch definition, with the given file descriptor template.
pub open spec fn definition_spec(file_template: Seq<char>) -> PatchDefinitionView {
    PatchDefinitionView {
        name: VARIABLE_NAME@,
        enabled_if: Some(ENABLED_IF@),
        definitions: seq![PatchTargetView {
            selector: SelectorView {
                api_version: CONTROL_PLANE_API_VERSION@,
                kind: CONTROL_PLANE_KIND@,
                control_plane: Some(true),
            },
            json_patches: seq![
                add_op(FILES_PATH@, PayloadView::Template(file_template)),
                add_op(PRE_COMMANDS_PATH@, PayloadView::Literal(MKDIR_COMMAND@)),
                add_op(POST_COMMANDS_PATH@, PayloadView::Literal(COPY_COMMAND@)),
                add_op(POST_COMMANDS_PATH@, PayloadView::Literal(BUILD_COMMAND@)),
            ],
        }],
    }
}

/// What the feature contributes: its one definition.
pub open spec fn feature_patches_spec() -> Seq<PatchDefinitionView> {
    seq![definition_spec(file_template_spec())]
}

pub fn kustomization() -> (r: Kustomization)
    ensures
        r@ == kustomization_spec(),
{
    let target = KustomizePatchTarget {
        group: "".to_string(),
        version: "v1".to_string(),
        kind: "Pod".to_string(),
        name: "kube-apiserver".to_string(),
    };
    let r = Kustomization {
        resources: vec![MANIFEST_NAME.to_string()],
        patches: vec![KustomizePatch { target, patch: COMMAND_PATCH_TEMPLATE.to_string() }],
    };
    assert(r@.resources =~= kustomization_spec().resources);
    assert(r@.patches =~= kustomization_spec().patches);
    r
}

pub fn node_file(content: String) -> (r: NodeFile)
    ensures
        r@ == node_file_spec(content@),
{
    NodeFile {
        path: KUSTOMIZATION_PATH.to_string(),
        permissions: Some(FILE_PERMISSIONS.to_string()),
        owner: Some(FILE_OWNER.to_string()),
        content: Some(content),
    }
}

/// The JSON descriptor of the file that carries the kustomization.
pub fn file_template() -> (r: String)
    ensures
        r@ == file_template_spec(),
{
    node_file(kustomization().to_yaml()).to_json()
}

fn add_patch(path: &str, payload: Payload) -> (r: JsonPatch)
    ensures
        r@ == add_op(path@, payload@),
{
    JsonPatch { op: PatchOp::Add, path: path.to_string(), payload: Some(payload) }
}

/// The feature's patch definition around a given file descriptor template.
pub fn patches_with_file(file_template: String) -> (r: Vec<PatchDefinition>)
    ensures
        defs_view(r@) == seq![definition_spec(file_template@)],
{
    let ghost spec_def = definition_spec(file_template@);
    let ops = vec![
        add_patch(FILES_PATH, Payload::Template(file_template)),
        add_patch(PRE_COMMANDS_PATH, Payload::Literal(MKDIR_COMMAND.to_string())),
        add_patch(POST_COMMANDS_PATH, Payload::Literal(COPY_COMMAND.to_string())),
        add_patch(POST_COMMANDS_PATH, Payload::Literal(BUILD_COMMAND.to_string())),
    ];
    let target = PatchTarget {
        selector: Selector {
            api_version: CONTROL_PLANE_API_VERSION.to_string(),
            kind: CONTROL_PLANE_KIND.to_string(),
            control_plane: Some(true),
        },
        json_patches: ops,
    };
    assert(target@.json_patches =~= spec_def.definitions[0].json_patches);
    let r = vec![PatchDefinition {
        name: VARIABLE_NAME.to_string(),
        enabled_if: Some(ENABLED_IF.to_string()),
        definitions: vec![target],
    }];
    assert(r@[0]@.definitions =~= spec_def.definitions);
    assert(defs_view(r@) =~= seq![spec_def]);
    r
}

/// The kube-apiserver options feature. It carries no state.
#[derive(Clone, Copy, Debug)]
pub struct Feature {}

impl Feature {
    /// The feature's patch definitions.
    pub fn patches(&self) -> (r: Vec<PatchDefinition>)
        ensures
            defs_view(r@) == feature_patches_spec(),
    {
        patches_with_file(file_template())
    }
}

/// The operations the kustomization's patch stands for once expanded over the
/// given options: one `add` of each option, in order.
pub open spec fn command_patches_spec(flags: Seq<Seq<char>>) -> Seq<JsonPatchView> {
    flags.map_values(|f: Seq<char>| add_op(CONTAINER_COMMAND_PATH@, PayloadView::Literal(f)))
}

/// The operations the kustomization's patch expands to for these values.
pub fn command_patches(values: &FeatureValues) -> (r: Vec<JsonPatch>)
    ensures
        r@.map_values(|p: JsonPatch| p@) == command_patches_spec(values.flags()),
{
    let mut r: Vec<JsonPatch> = Vec::new();
    let n = values.kubeapi_options.len();
    for i in 0..n
        invariant
            n == values.kubeapi_options@.len(),
            r@.map_values(|p: JsonPatch| p@) =~= command_patches_spec(values.flags().take(i as int)),
    {
        let flag = values.kubeapi_options[i].clone();
        let ghost prev = r@;
        r.push(add_patch(CONTAINER_COMMAND_PATH, Payload::Literal(flag)));
        assert(values.flags().take(i + 1) =~= values.flags().take(i as int).push(values.flags()[i as int]));
        assert(r@.map_values(|p: JsonPatch| p@) =~= prev.map_values(|p: JsonPatch| p@).push(
            add_op(CONTAINER_COMMAND_PATH@, PayloadView::Literal(values.flags()[i as int])),
        ));
        assert(r@.map_values(|p: JsonPatch| p@) =~= command_patches_spec(values.flags().take(i + 1)));
    }
    assert(values.flags().take(n as int) =~= values.flags());
    r
}

} // verus!
