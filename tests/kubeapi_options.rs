use kubeapi_options::harness::{apply_command_patches, ControlPlaneConfig};
use kubeapi_options::kubeapi_options::{POST_COMMANDS_PATH, PRE_COMMANDS_PATH};
use kubeapi_options::kubeapi_options::{
    command_patches, file_template, kustomization, node_file, patches_with_file, Feature,
    FeatureValues, BUILD_COMMAND, COMMAND_PATCH_TEMPLATE, CONTROL_PLANE_API_VERSION,
    CONTROL_PLANE_KIND, COPY_COMMAND, ENABLED_IF, KUSTOMIZATION_PATH, MKDIR_COMMAND,
};
use kubeapi_options::patch::{JsonPatch, Payload, PatchDefinition, PatchOp, PatchTarget, Selector};
use kubeapi_options::registry::FeatureRegistry;

fn values(flags: &[&str]) -> FeatureValues {
    FeatureValues { kubeapi_options: flags.iter().map(|f| f.to_string()).collect() }
}

fn applied(flags: &[&str]) -> ControlPlaneConfig {
    let feature = Feature {};
    let patches = feature.patches();
    let mut resources = ControlPlaneConfig::new();
    resources.files.push("{\"path\":\"/etc/kubernetes/admission.yaml\"}".to_string());
    resources.post_kubeadm_commands.push("echo done".to_string());
    resources.apply_patches(&patches, &values(flags));
    resources
}

fn descriptor(text: &str) -> serde_json::Value {
    serde_json::from_str(text).expect("descriptor should be JSON")
}

fn kustomization_file(resources: &ControlPlaneConfig) -> Option<serde_json::Value> {
    resources
        .files
        .iter()
        .map(|f| descriptor(f))
        .find(|f| f["path"] == KUSTOMIZATION_PATH)
}

#[test]
fn test_empty_patch_args() {
    let resources = applied(&[""]);
    assert_eq!(kustomization_file(&resources), None);
    assert_eq!(
        resources.post_kubeadm_commands.contains(&COPY_COMMAND.to_string()),
        false,
        "postKubeadmCommands should not contain references to kubeapi_options kustomizations",
    );
}

#[test]
fn test_apply_patches() {
    let flags = ["--foo=1", "--bar=2"];
    let resources = applied(&flags);
    let file = kustomization_file(&resources).expect("file should be set");
    assert_eq!(file["path"], "/etc/kubernetes/kustomizations/kubeapi_options/kustomization.yml");
    assert_eq!(file["permissions"], "0644");
    assert_eq!(file["owner"], "root:root");
    let content = file["content"].as_str().expect("content should be set");

    let kustomize: serde_yaml::Value = serde_yaml::from_str(content).expect("kustomize should be set");
    assert_eq!(kustomize["patches"][0]["patch"].as_str(), Some(COMMAND_PATCH_TEMPLATE));

    // The templating engine lies outside the library: the expansion of the
    // patch text above is checked through the library's model of it.
    let mut command = vec!["kube-apiserver".to_string()];
    apply_command_patches(&mut command, &command_patches(&values(&flags)));
    assert!(command.contains(&"--foo=1".to_string()));
    assert!(command.contains(&"--bar=2".to_string()));

    assert!(resources
        .pre_kubeadm_commands
        .contains(&"mkdir -p /etc/kubernetes/kustomizations/kubeapi_options".to_string()));
    assert!(resources.post_kubeadm_commands.contains(&"cp /etc/kubernetes/manifests/kube-apiserver.yaml /etc/kubernetes/kustomizations/kubeapi_options/kube-apiserver.yaml".to_string()));
    assert!(resources.post_kubeadm_commands.contains(&"kubectl kustomize /etc/kubernetes/kustomizations/kubeapi_options -o /etc/kubernetes/manifests/kube-apiserver.yaml".to_string()));
}

#[test]
fn no_options_leave_template_unchanged() {
    let resources = applied(&[]);
    assert_eq!(resources.files, vec!["{\"path\":\"/etc/kubernetes/admission.yaml\"}".to_string()]);
    assert!(resources.pre_kubeadm_commands.is_empty());
    assert_eq!(resources.post_kubeadm_commands, vec!["echo done".to_string()]);
}

#[test]
fn later_option_makes_feature_active() {
    let resources = applied(&["", "--foo=1"]);
    assert_eq!(resources.files.len(), 2);
    assert_eq!(resources.pre_kubeadm_commands, vec![MKDIR_COMMAND.to_string()]);
    assert_eq!(
        resources.post_kubeadm_commands,
        vec!["echo done".to_string(), COPY_COMMAND.to_string(), BUILD_COMMAND.to_string()]
    );
}

#[test]
fn only_empty_options_are_inert() {
    let resources = applied(&["", ""]);
    assert_eq!(resources.files.len(), 1);
    assert!(resources.pre_kubeadm_commands.is_empty());
}

#[test]
fn options_add_exactly_one_file() {
    let resources = applied(&["--foo=1"]);
    assert_eq!(resources.files.len(), 2);
    let found: Vec<serde_json::Value> = resources
        .files
        .iter()
        .map(|f| descriptor(f))
        .filter(|f| f["path"] == KUSTOMIZATION_PATH)
        .collect();
    assert_eq!(found.len(), 1);
    assert_eq!(found[0]["permissions"], "0644");
    assert_eq!(found[0]["owner"], "root:root");
}

#[test]
fn expanded_patch_follows_option_order() {
    let ops = command_patches(&values(&["--b=2", "--a=1", "--c=3"]));
    assert_eq!(ops.len(), 3);
    let texts: Vec<String> = ops
        .iter()
        .map(|op| {
            assert_eq!(op.op, PatchOp::Add);
            assert_eq!(op.path, "/spec/containers/0/command/-");
            match &op.payload {
                Some(Payload::Literal(s)) => s.clone(),
                _ => panic!("literal expected"),
            }
        })
        .collect();
    assert_eq!(texts, vec!["--b=2", "--a=1", "--c=3"]);
}

#[test]
fn expanded_patch_appends_after_base_command() {
    let mut command = vec!["kube-apiserver".to_string()];
    apply_command_patches(&mut command, &command_patches(&values(&["--foo=1", "--bar=2"])));
    assert_eq!(command, vec!["kube-apiserver", "--foo=1", "--bar=2"]);
}

#[test]
fn command_patches_skip_other_operations() {
    let mut command = vec!["kube-apiserver".to_string()];
    let ops = vec![
        JsonPatch { op: PatchOp::Remove, path: "/spec/containers/0/command/-".to_string(), payload: None },
        JsonPatch {
            op: PatchOp::Add,
            path: "/spec/containers/0/args/-".to_string(),
            payload: Some(Payload::Literal("--x".to_string())),
        },
    ];
    apply_command_patches(&mut command, &ops);
    assert_eq!(command, vec!["kube-apiserver"]);
}

#[test]
fn one_directory_command_when_active() {
    let resources = applied(&["--foo=1", "--bar=2"]);
    assert_eq!(resources.pre_kubeadm_commands, vec![MKDIR_COMMAND.to_string()]);
}

#[test]
fn copy_precedes_build() {
    let resources = applied(&["--foo=1"]);
    let post = &resources.post_kubeadm_commands;
    let copy = post.iter().position(|c| c == COPY_COMMAND).expect("copy command");
    let build = post.iter().position(|c| c == BUILD_COMMAND).expect("build command");
    assert!(copy < build);
    assert_eq!(post, &vec!["echo done".to_string(), COPY_COMMAND.to_string(), BUILD_COMMAND.to_string()]);
}

#[test]
fn feature_patch_definition_shape() {
    let patches = Feature {}.patches();
    assert_eq!(patches.len(), 1);
    let def = &patches[0];
    assert_eq!(def.name, "kubeAPIOptions");
    assert_eq!(def.enabled_if.as_deref(), Some("{{ if (join \"\" .kubeAPIOptions) }}true{{ end }}"));
    assert_eq!(def.definitions.len(), 1);
    let target = &def.definitions[0];
    assert_eq!(target.selector.api_version, "controlplane.cluster.x-k8s.io/v1beta1");
    assert_eq!(target.selector.kind, "KubeadmControlPlaneTemplate");
    assert_eq!(target.selector.control_plane, Some(true));
    let paths: Vec<&str> = target.json_patches.iter().map(|p| p.path.as_str()).collect();
    assert_eq!(
        paths,
        vec![
            "/spec/template/spec/kubeadmConfigSpec/files/-",
            "/spec/template/spec/kubeadmConfigSpec/preKubeadmCommands/-",
            "/spec/template/spec/kubeadmConfigSpec/postKubeadmCommands/-",
            "/spec/template/spec/kubeadmConfigSpec/postKubeadmCommands/-",
        ]
    );
    assert!(target.json_patches.iter().all(|p| p.op == PatchOp::Add));
    assert!(matches!(target.json_patches[0].payload, Some(Payload::Template(_))));
}

#[test]
fn file_descriptor_round_trips() {
    let text = file_template();
    let parsed = descriptor(&text);
    let object = parsed.as_object().expect("an object");
    let keys: Vec<&str> = object.keys().map(|k| k.as_str()).collect();
    assert_eq!(keys, vec!["path", "permissions", "owner", "content"]);
    let content = parsed["content"].as_str().expect("content");
    let doc: serde_yaml::Value = serde_yaml::from_str(content).expect("kustomization");
    assert_eq!(doc["resources"][0].as_str(), Some("kube-apiserver.yaml"));
    let target = &doc["patches"][0]["target"];
    assert_eq!(target["group"].as_str(), Some(""));
    assert_eq!(target["version"].as_str(), Some("v1"));
    assert_eq!(target["kind"].as_str(), Some("Pod"));
    assert_eq!(target["name"].as_str(), Some("kube-apiserver"));
    let k = kustomization();
    assert_eq!(doc["patches"][0]["patch"].as_str(), Some(k.patches[0].patch.as_str()));
}

#[test]
fn node_file_json_leaves_out_absent_fields() {
    let mut file = node_file("x: 1\n".to_string());
    file.owner = None;
    let text = file.to_json();
    let parsed = descriptor(&text);
    assert_eq!(parsed["path"], KUSTOMIZATION_PATH);
    assert_eq!(parsed["content"], "x: 1\n");
    assert!(parsed.get("owner").is_none());
    assert_eq!(parsed.as_object().map(|o| o.len()), Some(3));
}

#[test]
fn registering_twice_contributes_twice() {
    let mut registry = FeatureRegistry::new();
    registry.register(Feature {});
    assert_eq!(registry.composed_patches().len(), 1);
    registry.register(Feature {});
    assert_eq!(registry.all().len(), 2);
    let composed = registry.composed_patches();
    assert_eq!(composed.len(), 2);
    assert!(composed.iter().all(|d| d.name == "kubeAPIOptions"));

    let mut resources = ControlPlaneConfig::new();
    resources.apply_patches(&composed, &values(&["--foo=1"]));
    assert_eq!(resources.files.len(), 2);
    assert_eq!(resources.pre_kubeadm_commands.len(), 2);
}

#[test]
fn empty_registry_contributes_nothing() {
    assert!(FeatureRegistry::new().composed_patches().is_empty());
}

#[test]
fn unmatched_selector_is_a_no_op() {
    let mut patches: Vec<PatchDefinition> = patches_with_file("{}".to_string());
    patches[0].definitions[0].selector.control_plane = Some(false);
    let mut resources = ControlPlaneConfig::new();
    resources.apply_patches(&patches, &values(&["--foo=1"]));
    assert!(resources.files.is_empty());
    assert!(resources.post_kubeadm_commands.is_empty());
}

#[test]
fn unconditional_definition_always_applies() {
    let def = PatchDefinition {
        name: "always".to_string(),
        enabled_if: None,
        definitions: vec![PatchTarget {
            selector: Selector {
                api_version: CONTROL_PLANE_API_VERSION.to_string(),
                kind: CONTROL_PLANE_KIND.to_string(),
                control_plane: Some(true),
            },
            json_patches: vec![JsonPatch {
                op: PatchOp::Add,
                path: "/spec/template/spec/kubeadmConfigSpec/preKubeadmCommands/-".to_string(),
                payload: Some(Payload::Literal("true".to_string())),
            }],
        }],
    };
    let mut resources = ControlPlaneConfig::new();
    resources.apply_patches(&vec![def], &values(&[]));
    assert_eq!(resources.pre_kubeadm_commands, vec!["true".to_string()]);
}

#[test]
fn unknown_condition_is_not_applied() {
    let mut patches = patches_with_file("{}".to_string());
    patches[0].enabled_if = Some("{{ .other }}".to_string());
    let mut resources = ControlPlaneConfig::new();
    resources.apply_patches(&patches, &values(&["--foo=1"]));
    assert!(resources.pre_kubeadm_commands.is_empty());
    assert_eq!(ENABLED_IF, "{{ if (join \"\" .kubeAPIOptions) }}true{{ end }}");
}

#[test]
fn is_active_checks_first_option() {
    assert!(!values(&[]).is_active());
    assert!(!values(&[""]).is_active());
    assert!(!values(&["", ""]).is_active());
    assert!(values(&["--foo=1"]).is_active());
    assert!(values(&["", "--foo=1"]).is_active());
}

#[test]
fn operation_names() {
    let names: Vec<String> = [PatchOp::Add, PatchOp::Remove, PatchOp::Replace, PatchOp::Move, PatchOp::Copy, PatchOp::Test]
        .iter()
        .map(|o| o.name())
        .collect();
    assert_eq!(names, vec!["add", "remove", "replace", "move", "copy", "test"]);
}

#[test]
fn operation_names_read_back() {
    for op in [PatchOp::Add, PatchOp::Remove, PatchOp::Replace, PatchOp::Move, PatchOp::Copy, PatchOp::Test] {
        assert_eq!(PatchOp::from_name(&op.name()), Some(op));
    }
    assert_eq!(PatchOp::from_name(&"append".to_string()), None);
    assert_eq!(PatchOp::from_name(&"Add".to_string()), None);
}

fn control_plane_definition(ops: Vec<JsonPatch>) -> PatchDefinition {
    PatchDefinition {
        name: "edits".to_string(),
        enabled_if: None,
        definitions: vec![PatchTarget {
            selector: Selector {
                api_version: CONTROL_PLANE_API_VERSION.to_string(),
                kind: CONTROL_PLANE_KIND.to_string(),
                control_plane: Some(true),
            },
            json_patches: ops,
        }],
    }
}

fn op(op: PatchOp, path: &str, payload: Option<Payload>) -> JsonPatch {
    JsonPatch { op, path: path.to_string(), payload }
}

fn literal(s: &str) -> Option<Payload> {
    Some(Payload::Literal(s.to_string()))
}

fn commands(list: &[&str]) -> ControlPlaneConfig {
    let mut c = ControlPlaneConfig::new();
    c.pre_kubeadm_commands = list.iter().map(|s| s.to_string()).collect();
    c
}

const PRE: &str = "/spec/template/spec/kubeadmConfigSpec/preKubeadmCommands";

#[test]
fn replace_and_remove_edit_by_index() {
    let mut c = commands(&["a", "b", "c"]);
    let def = control_plane_definition(vec![
        op(PatchOp::Replace, &format!("{PRE}/1"), literal("B")),
        op(PatchOp::Remove, &format!("{PRE}/0"), None),
        op(PatchOp::Add, &format!("{PRE}/0"), literal("first")),
        op(PatchOp::Add, PRE_COMMANDS_PATH, literal("last")),
    ]);
    c.apply_patches(&vec![def], &values(&[]));
    assert_eq!(c.pre_kubeadm_commands, vec!["first", "B", "c", "last"]);
}

#[test]
fn out_of_range_or_malformed_indexes_are_no_ops() {
    let mut c = commands(&["a", "b"]);
    let def = control_plane_definition(vec![
        op(PatchOp::Replace, &format!("{PRE}/2"), literal("x")),
        op(PatchOp::Remove, &format!("{PRE}/01"), None),
        op(PatchOp::Remove, &format!("{PRE}/1x"), None),
        op(PatchOp::Remove, &format!("{PRE}/99999999999999999999999"), None),
        op(PatchOp::Add, &format!("{PRE}/3"), literal("x")),
        op(PatchOp::Add, &format!("{PRE}/"), literal("x")),
        op(PatchOp::Remove, PRE, None),
    ]);
    c.apply_patches(&vec![def], &values(&[]));
    assert_eq!(c.pre_kubeadm_commands, vec!["a", "b"]);
}

#[test]
fn add_at_length_appends() {
    let mut c = commands(&["a", "b"]);
    let def = control_plane_definition(vec![op(PatchOp::Add, &format!("{PRE}/2"), literal("c"))]);
    c.apply_patches(&vec![def], &values(&[]));
    assert_eq!(c.pre_kubeadm_commands, vec!["a", "b", "c"]);
}

#[test]
fn variable_payload_is_left_to_the_templating_engine() {
    let mut c = commands(&["a"]);
    let def = control_plane_definition(vec![
        op(PatchOp::Add, PRE_COMMANDS_PATH, Some(Payload::Variable("kubeAPIOptions".to_string()))),
        op(PatchOp::Replace, &format!("{PRE}/0"), Some(Payload::Variable("x".to_string()))),
        op(PatchOp::Add, POST_COMMANDS_PATH, literal("done")),
    ]);
    c.apply_patches(&vec![def], &values(&[]));
    assert_eq!(c.pre_kubeadm_commands, vec!["a"]);
    assert_eq!(c.post_kubeadm_commands, vec!["done"]);
}
