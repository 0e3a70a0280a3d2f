//! The documents a feature ships to a node: the kustomization that patches a
//! static pod manifest, and the file descriptor that carries it.
use vstd::prelude::*;
use crate::patch::opt_text;
use serde_yaml::Value;

verus! {

/// Which resource of a kustomization a patch applies to.
#[derive(Clone, Debug)]
pub struct KustomizePatchTarget {
    pub group: String,
    pub version: String,
    pub kind: String,
    pub name: String,
}

pub ghost struct KustomizePatchTargetView {
    pub group: Seq<char>,
    pub version: Seq<char>,
    pub kind: Seq<char>,
    pub name: Seq<char>,
}

impl View for KustomizePatchTarget {
    type V = KustomizePatchTargetView;

    open spec fn view(&self) -> KustomizePatchTargetView {
        KustomizePatchTargetView {
            group: self.group@,
            version: self.version@,
            kind: self.kind@,
            name: self.name@,
        }
    }
}

/// A patch of a kustomization; `patch` is a template that the templating
/// engine expands before the kustomization runs.
#[derive(Clone, Debug)]
pub struct KustomizePatch {
    pub target: KustomizePatchTarget,
    pub patch: String,
}

pub ghost struct KustomizePatchView {
    pub target: KustomizePatchTargetView,
    pub patch: Seq<char>,
}

impl View for KustomizePatch {
    type V = KustomizePatchView;

    open spec fn view(&self) -> KustomizePatchView {
        KustomizePatchView { target: self.target@, patch: self.patch@ }
    }
}

/// A kustomization: the resource files it reads and the patches it applies.
#[derive(Clone, Debug)]
pub struct Kustomization {
    pub resources: Vec<String>,
    pub patches: Vec<KustomizePatch>,
}

pub ghost struct KustomizationView {
    pub resources: Seq<Seq<char>>,
    pub patches: Seq<KustomizePatchView>,
}

impl View for Kustomization {
    type V = KustomizationView;

    open spec fn view(&self) -> KustomizationView {
        KustomizationView {
            resources: self.resources@.map_values(|r: String| r@),
            patches: self.patches@.map_values(|p: KustomizePatch| p@),
        }
    }
}

/// The members of a patch target: key and string value pairs, in order.
pub type Entries = Vec<(String, String)>;

/// A kustomization patch as the keyed target members and the keyed patch
/// text.
pub type PatchEntry = ((String, Entries), (String, String));

pub open spec fn patch_entry_view(
    p: PatchEntry,
) -> ((Seq<char>, Seq<(Seq<char>, Seq<char>)>), (Seq<char>, Seq<char>)) {
    ((p.0.0@, fields_view(p.0.1@)), (p.1.0@, p.1.1@))
}

/// The YAML text of a mapping of two members: under `resources.0` the list of
/// strings `resources.1`, and under `patches.0` a list of mappings, each of a
/// keyed mapping of string members and a keyed string.
pub uninterp spec fn kustomization_yaml(
    resources: (Seq<char>, Seq<Seq<char>>),
    patches: (Seq<char>, Seq<((Seq<char>, Seq<(Seq<char>, Seq<char>)>), (Seq<char>, Seq<char>))>),
) -> Seq<char>;

/// Relies on serde_yaml::to_string, applied to a `serde_yaml::Value` built
/// from the keys and values in order: it fails only where serialization
/// fails, which a tree of strings never does, and its text depends on the
/// tree alone.
#[verifier::external_body]
fn to_yaml(rk: &String, resources: &Vec<String>, pk: &String, patches: &Vec<PatchEntry>) -> (r: Option<String>)
    ensures
        r is Some,
        opt_text(r) == Some(kustomization_yaml(
            (rk@, texts(resources@)),
            (pk@, patches@.map_values(|p: PatchEntry| patch_entry_view(p))),
        )),
{
    let s = |v: &String| Value::from(v.as_str());
    let map = |m: Vec<(&String, Value)>| Value::Mapping(m.into_iter().map(|(k, v)| (s(k), v)).collect());
    let patch = |((a, t), (b, p)): &PatchEntry| map(vec![(a, map(t.iter().map(|(k, v)| (k, s(v))).collect())), (b, s(p))]);
    serde_yaml::to_string(&map(vec![(rk, resources.iter().map(s).collect()), (pk, patches.iter().map(patch).collect())])).ok()
}

pub open spec fn texts(v: Seq<String>) -> Seq<Seq<char>> {
    v.map_values(|s: String| s@)
}

impl KustomizePatchTargetView {
    /// The members of the target, in order.
    pub open spec fn entries(self) -> Seq<(Seq<char>, Seq<char>)> {
        seq![("group"@, self.group), ("version"@, self.version), ("kind"@, self.kind), ("name"@, self.name)]
    }
}

impl KustomizationView {
    /// The patches as keyed target members and keyed patch text.
    pub open spec fn patch_entries(self) -> Seq<((Seq<char>, Seq<(Seq<char>, Seq<char>)>), (Seq<char>, Seq<char>))> {
        self.patches.map_values(|p: KustomizePatchView| (("target"@, p.target.entries()), ("patch"@, p.patch)))
    }

    /// The YAML text of the kustomization.
    pub open spec fn yaml(self) -> Seq<char> {
        kustomization_yaml(("resources"@, self.resources), ("patches"@, self.patch_entries()))
    }
}

impl KustomizePatchTarget {
    pub fn entries(&self) -> (r: Entries)
        ensures
            fields_view(r@) == self@.entries(),
    {
        let r = vec![
            ("group".to_string(), self.group.clone()),
            ("version".to_string(), self.version.clone()),
            ("kind".to_string(), self.kind.clone()),
            ("name".to_string(), self.name.clone()),
        ];
        assert(fields_view(r@) =~= self@.entries());
        r
    }
}

impl Kustomization {
    /// The YAML text of the kustomization.
    pub fn to_yaml(&self) -> (r: String)
        ensures
            r@ == self@.yaml(),
    {
        let mut patches: Vec<PatchEntry> = Vec::new();
        let n = self.patches.len();
        for i in 0..n
            invariant
                n == self.patches@.len(),
                patches@.len() == i,
                patches@.map_values(|p: PatchEntry| patch_entry_view(p))
                    =~= self@.patch_entries().take(i as int),
        {
            let p = &self.patches[i];
            let ghost prev = patches@;
            patches.push((("target".to_string(), p.target.entries()), ("patch".to_string(), p.patch.clone())));
            assert(patches@ =~= prev.push(patches@[i as int]));
            assert(self@.patch_entries().take(i + 1) =~= self@.patch_entries().take(i as int).push(
                self@.patch_entries()[i as int],
            ));
            assert(patches@.map_values(|p: PatchEntry| patch_entry_view(p))
                =~= prev.map_values(|p: PatchEntry| patch_entry_view(p)).push(
                self@.patch_entries()[i as int],
            ));
        }
        assert(self@.patch_entries().take(n as int) =~= self@.patch_entries());
        proof {
            assert(texts(self.resources@) =~= self@.resources);
        }
        match to_yaml(&"resources".to_string(), &self.resources, &"patches".to_string(), &patches) {
            Some(t) => t,
            None => String::new(),
        }
    }
}

/// The JSON text of an object whose members are the given pairs of key and
/// string value, in order.
pub uninterp spec fn json_object(fields: Seq<(Seq<char>, Seq<char>)>) -> Seq<char>;

/// The views of a list of key and value pairs.
pub open spec fn fields_view(fields: Seq<(String, String)>) -> Seq<(Seq<char>, Seq<char>)> {
    fields.map_values(|f: (String, String)| (f.0@, f.1@))
}

/// Relies on serde_json::to_string, applied to a JSON object of string
/// members built from the pairs in order: it fails only for a failing
/// `Serialize` or a map with keys that are not strings, neither of which
/// occurs here, and its text depends on the pairs alone.
#[verifier::external_body]
pub(crate) fn to_json_object(fields: &Vec<(String, String)>) -> (r: Option<String>)
    ensures
        r is Some,
        opt_text(r) == Some(json_object(fields_view(fields@))),
{
    let object: serde_json::Value = fields.iter().cloned().collect();
    serde_json::to_string(&object).ok()
}

/// A file that the node's bootstrap configuration writes; absent optional
/// fields are left out of its descriptor.
#[derive(Clone, Debug)]
pub struct NodeFile {
    pub path: String,
    pub permissions: Option<String>,
    pub owner: Option<String>,
    pub content: Option<String>,
}

pub ghost struct NodeFileView {
    pub path: Seq<char>,
    pub permissions: Option<Seq<char>>,
    pub owner: Option<Seq<char>>,
    pub content: Option<Seq<char>>,
}

impl View for NodeFile {
    type V = NodeFileView;

    open spec fn view(&self) -> NodeFileView {
        NodeFileView {
            path: self.path@,
            permissions: opt_text(self.permissions),
            owner: opt_text(self.owner),
            content: opt_text(self.content),
        }
    }
}

/// The member `(key, v)` where the value is present, nothing where absent.
pub open spec fn opt_field(key: Seq<char>, value: Option<Seq<char>>) -> Seq<(Seq<char>, Seq<char>)> {
    match value {
        Some(v) => seq![(key, v)],
        None => seq![],
    }
}

impl NodeFileView {
    /// The members of the file descriptor, in order.
    pub open spec fn fields(self) -> Seq<(Seq<char>, Seq<char>)> {
        seq![("path"@, self.path)] + opt_field("permissions"@, self.permissions)
            + opt_field("owner"@, self.owner) + opt_field("content"@, self.content)
    }
}

fn push_opt_field(fields: &mut Vec<(String, String)>, key: &str, value: &Option<String>)
    ensures
        fields_view(final(fields)@) == fields_view(old(fields)@) + opt_field(key@, opt_text(*value)),
{
    proof {
        broadcast use vstd::seq::group_seq_axioms;
    }
    match value {
        Some(v) => {
            fields.push((key.to_string(), v.clone()));
            assert(fields_view(fields@) =~= fields_view(old(fields)@) + opt_field(key@, opt_text(*value)));
        },
        None => {
            assert(fields_view(fields@) =~= fields_view(old(fields)@) + opt_field(key@, opt_text(*value)));
        },
    }
}

impl NodeFile {
    /// The members of the file descriptor, in order.
    pub fn fields(&self) -> (r: Vec<(String, String)>)
        ensures
            fields_view(r@) == self@.fields(),
    {
        let mut r: Vec<(String, String)> = Vec::new();
        r.push(("path".to_string(), self.path.clone()));
        assert(fields_view(r@) =~= seq![("path"@, self.path@)]);
        push_opt_field(&mut r, "permissions", &self.permissions);
        push_opt_field(&mut r, "owner", &self.owner);
        push_opt_field(&mut r, "content", &self.content);
        r
    }

    /// The JSON text of the file descriptor.
    pub fn to_json(&self) -> (r: String)
        ensures
            r@ == json_object(self@.fields()),
    {
        let fields = self.fields();
        match to_json_object(&fields) {
            Some(t) => t,
            None => String::new(),
        }
    }
}

} // verus!
