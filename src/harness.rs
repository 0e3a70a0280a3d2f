//! Applies patch definitions to a model of the control-plane node template:
//! its bootstrap files and the commands run before and after kubeadm.
use vstd::prelude::*;
use crate::document::texts;
use vstd::string::StrSliceExecFns;
use crate::kubeapi_options::{
    is_active, FeatureValues, CONTAINER_COMMAND_PATH, CONTROL_PLANE_API_VERSION,
    CONTROL_PLANE_KIND, ENABLED_IF,
};
use crate::patch::{
    opt_text,
    JsonPatch, JsonPatchView, Payload, PatchDefinition, PatchDefinitionView, PatchOp, PatchTarget,
    PatchTargetView, SelectorView,
};

verus! {

/// The paths of the three lists of the node template's bootstrap
/// configuration.
pub const FILES_LIST: &'static str = "/spec/template/spec/kubeadmConfigSpec/files";

pub const PRE_COMMANDS_LIST: &'static str = "/spec/template/spec/kubeadmConfigSpec/preKubeadmCommands";

pub const POST_COMMANDS_LIST: &'static str = "/spec/template/spec/kubeadmConfigSpec/postKubeadmCommands";

/// The parts of a control-plane node template that patches edit. A file is
/// held as its descriptor, before the templating engine expands it.
#[derive(Clone, Debug)]
pub struct ControlPlaneConfig {
    pub files: Vec<String>,
    pub pre_kubeadm_commands: Vec<String>,
    pub post_kubeadm_commands: Vec<String>,
}

pub ghost struct ConfigView {
    pub files: Seq<Seq<char>>,
    pub pre_kubeadm_commands: Seq<Seq<char>>,
    pub post_kubeadm_commands: Seq<Seq<char>>,
}

impl View for ControlPlaneConfig {
    type V = ConfigView;

    open spec fn view(&self) -> ConfigView {
        ConfigView {
            files: texts(self.files@),
            pre_kubeadm_commands: texts(self.pre_kubeadm_commands@),
            post_kubeadm_commands: texts(self.post_kubeadm_commands@),
        }
    }
}

/// Whether a selector picks the control-plane node template.
pub open spec fn selects(s: SelectorView) -> bool {
    s.api_version == CONTROL_PLANE_API_VERSION@ && s.kind == CONTROL_PLANE_KIND@
        && s.control_plane == Some(true)
}

/// Whether a definition with this condition applies to the given options. A
/// condition other than the one the harness knows is never truthy.
pub open spec fn enabled(cond: Option<Seq<char>>, flags: Seq<Seq<char>>) -> bool {
    match cond {
        None => true,
        Some(c) => c == ENABLED_IF@ && is_active(flags),
    }
}

pub open spec fn is_digit(c: char) -> bool {
    '0' <= c && c <= '9'
}

/// The number a string of decimal digits spells.
pub open spec fn digits_value(s: Seq<char>) -> int
    decreases s.len(),
{
    if s.len() == 0 {
        0
    } else {
        digits_value(s.drop_last()) * 10 + ((s.last() as u32) as int - 48)
    }
}

/// The array index a JSON-pointer reference token spells: decimal digits,
/// with no leading zero but in `0` itself.
pub open spec fn array_index(t: Seq<char>) -> Option<int> {
    if t.len() > 0 && (forall|i: int| 0 <= i < t.len() ==> is_digit(#[trigger] t[i])) && (t.len()
        == 1 || t[0] != '0') {
        Some(digits_value(t))
    } else {
        None
    }
}

/// The reference token that follows `base` and a slash in `path`, if `path`
/// has that shape.
pub open spec fn token_under(path: Seq<char>, base: Seq<char>) -> Option<Seq<char>> {
    if path.len() > base.len() && path.take(base.len() as int) == base && path[base.len() as int]
        == '/' {
        Some(path.skip(base.len() as int + 1))
    } else {
        None
    }
}

/// An operation on a list of strings at the reference token `t`: `add` at
/// `-` appends and at an index up to the length inserts, `replace` and
/// `remove` at an index below the length replace or remove that element. An
/// operation that does not fit the list, or lacks a value it needs, leaves
/// the list as it is.
pub open spec fn edit_list(l: Seq<Seq<char>>, op: PatchOp, t: Seq<char>, value: Option<Seq<char>>) -> Seq<Seq<char>> {
    match (op, value) {
        (PatchOp::Add, Some(v)) => if t == "-"@ {
            l.push(v)
        } else {
            match array_index(t) {
                Some(i) if i <= l.len() => l.insert(i, v),
                _ => l,
            }
        },
        (PatchOp::Replace, Some(v)) => match array_index(t) {
            Some(i) if i < l.len() => l.update(i, v),
            _ => l,
        },
        (PatchOp::Remove, _) => match array_index(t) {
            Some(i) if i < l.len() => l.remove(i),
            _ => l,
        },
        _ => l,
    }
}

pub open spec fn op_value(op: JsonPatchView) -> Option<Seq<char>> {
    match op.payload {
        Some(p) => p.text(),
        None => None,
    }
}

/// One operation: an edit of one of the three lists; an operation at any
/// other path leaves the template as it is.
pub open spec fn apply_op(c: ConfigView, op: JsonPatchView) -> ConfigView {
    if let Some(t) = token_under(op.path, FILES_LIST@) {
        ConfigView { files: edit_list(c.files, op.op, t, op_value(op)), ..c }
    } else if let Some(t) = token_under(op.path, PRE_COMMANDS_LIST@) {
        ConfigView { pre_kubeadm_commands: edit_list(c.pre_kubeadm_commands, op.op, t, op_value(op)), ..c }
    } else if let Some(t) = token_under(op.path, POST_COMMANDS_LIST@) {
        ConfigView { post_kubeadm_commands: edit_list(c.post_kubeadm_commands, op.op, t, op_value(op)), ..c }
    } else {
        c
    }
}

pub open spec fn apply_ops(c: ConfigView, ops: Seq<JsonPatchView>) -> ConfigView
    decreases ops.len(),
{
    if ops.len() == 0 {
        c
    } else {
        apply_op(apply_ops(c, ops.drop_last()), ops.last())
    }
}

pub open spec fn apply_target(c: ConfigView, t: PatchTargetView) -> ConfigView {
    if selects(t.selector) {
        apply_ops(c, t.json_patches)
    } else {
        c
    }
}

pub open spec fn apply_targets(c: ConfigView, ts: Seq<PatchTargetView>) -> ConfigView
    decreases ts.len(),
{
    if ts.len() == 0 {
        c
    } else {
        apply_target(apply_targets(c, ts.drop_last()), ts.last())
    }
}

pub open spec fn apply_definition(c: ConfigView, d: PatchDefinitionView, flags: Seq<Seq<char>>) -> ConfigView {
    if enabled(d.enabled_if, flags) {
        apply_targets(c, d.definitions)
    } else {
        c
    }
}

/// The template after the definitions, in order.
pub open spec fn apply_definitions(
    c: ConfigView,
    ds: Seq<PatchDefinitionView>,
    flags: Seq<Seq<char>>,
) -> ConfigView
    decreases ds.len(),
{
    if ds.len() == 0 {
        c
    } else {
        apply_definition(apply_definitions(c, ds.drop_last(), flags), ds.last(), flags)
    }
}

fn push_text(v: &mut Vec<String>, s: String)
    ensures
        texts(final(v)@) == texts(old(v)@).push(s@),
{
    v.push(s);
    assert(texts(v@) =~= texts(old(v)@).push(s@));
}

fn payload_text(p: &Option<Payload>) -> (r: Option<String>)
    ensures
        opt_text(r) == match p {
            Some(q) => q@.text(),
            None => None,
        },
{
    match p {
        Some(Payload::Literal(s)) => Some(s.clone()),
        Some(Payload::Template(s)) => Some(s.clone()),
        _ => None,
    }
}

proof fn lemma_digits_grow(s: Seq<char>, j: int)
    requires
        0 <= j <= s.len(),
        forall|i: int| 0 <= i < s.len() ==> is_digit(#[trigger] s[i]),
    ensures
        digits_value(s) >= digits_value(s.take(j)),
        digits_value(s.take(j)) >= 0,
    decreases s.len(), s.len() - j,
{
    if j < s.len() {
        lemma_digits_grow(s, j + 1);
        assert(s.take(j + 1).drop_last() =~= s.take(j));
        assert(is_digit(s[j]));
        assert(s.take(j + 1).last() == s[j]);
    } else {
        assert(s.take(j) =~= s);
        if s.len() > 0 {
            lemma_digits_grow(s.drop_last(), s.len() - 1);
            assert(s.drop_last().take(s.len() - 1) =~= s.drop_last());
            assert(is_digit(s.last()));
        }
    }
}

/// The array index `t` spells, where it is at most `bound`.
fn array_index_upto(t: &str, bound: usize) -> (r: Option<usize>)
    ensures
        r matches Some(i) ==> array_index(t@) == Some(i as int) && i <= bound,
        r is None ==> (array_index(t@) matches Some(i) ==> i > bound),
{
    let n = t.unicode_len();
    if n == 0 {
        return None;
    }
    if n > 1 && t.get_char(0) == '0' {
        return None;
    }
    let mut v: usize = 0;
    let mut i: usize = 0;
    while i < n
        invariant
            0 < n == t@.len(),
            i <= n,
            n > 1 ==> t@[0] != '0',
            forall|j: int| 0 <= j < i ==> is_digit(#[trigger] t@[j]),
            v as int == digits_value(t@.take(i as int)),
            v <= bound,
        decreases n - i,
    {
        let c = t.get_char(i);
        if !('0' <= c && c <= '9') {
            assert(!is_digit(t@[i as int]));
            return None;
        }
        let d = (c as u32 - 48) as usize;
        assert(t@.take(i + 1).drop_last() =~= t@.take(i as int));
        assert(t@.take(i + 1).last() == c);
        assert(digits_value(t@.take(i + 1)) == v * 10 + d);
        if v > bound / 10 {
            proof {
                assert(v * 10 + d > bound) by (nonlinear_arith)
                    requires v > bound / 10;
                if forall|j: int| 0 <= j < t@.len() ==> is_digit(#[trigger] t@[j]) {
                    lemma_digits_grow(t@, i + 1);
                }
            }
            return None;
        }
        assert(v * 10 <= bound) by (nonlinear_arith)
            requires v <= bound / 10;
        if d > bound - v * 10 {
            proof {
                if forall|j: int| 0 <= j < t@.len() ==> is_digit(#[trigger] t@[j]) {
                    lemma_digits_grow(t@, i + 1);
                }
            }
            return None;
        }
        v = v * 10 + d;
        i = i + 1;
    }
    assert(t@.take(n as int) =~= t@);
    Some(v)
}

/// The reference token after `base` and a slash in `path`, if any.
fn exec_token_under(path: &String, base: &str) -> (r: Option<String>)
    ensures
        opt_text(r) == token_under(path@, base@),
{
    let p = path.as_str();
    let n = p.unicode_len();
    let m = base.unicode_len();
    if n <= m {
        return None;
    }
    let mut i: usize = 0;
    while i < m
        invariant
            i <= m < n,
            n == p@.len(),
            m == base@.len(),
            p@ == path@,
            forall|j: int| 0 <= j < i ==> p@[j] == base@[j],
        decreases m - i,
    {
        if p.get_char(i) != base.get_char(i) {
            assert(p@.take(m as int)[i as int] != base@[i as int]);
            return None;
        }
        i = i + 1;
    }
    assert(p@.take(m as int) =~= base@);
    if p.get_char(m) != '/' {
        return None;
    }
    let r = p.substring_char(m + 1, n).to_owned();
    assert(r@ =~= path@.skip(m + 1));
    Some(r)
}

/// Applies an operation to a list of strings at the reference token `t`.
fn exec_edit_list(l: &mut Vec<String>, op: PatchOp, t: &String, value: Option<String>)
    ensures
        texts(final(l)@) == edit_list(texts(old(l)@), op, t@, opt_text(value)),
{
    let ghost before = texts(l@);
    let ghost vv = opt_text(value);
    proof {
        if array_index(t@) is Some {
            lemma_digits_grow(t@, 0);
        }
    }
    let is_end = *t == "-".to_string();
    match (op, value) {
        (PatchOp::Add, Some(v)) => {
            if is_end {
                push_text(l, v);
            } else if let Some(i) = array_index_upto(t.as_str(), l.len()) {
                l.insert(i, v);
                assert(texts(l@) =~= before.insert(i as int, v@));
            }
            assert(texts(l@) == edit_list(before, op, t@, vv));
        },
        (PatchOp::Replace, Some(v)) => {
            if l.len() > 0 {
                if let Some(i) = array_index_upto(t.as_str(), l.len() - 1) {
                    l[i] = v;
                    assert(texts(l@) =~= before.update(i as int, v@));
                }
            }
            assert(texts(l@) == edit_list(before, op, t@, vv));
        },
        (PatchOp::Remove, _) => {
            if l.len() > 0 {
                if let Some(i) = array_index_upto(t.as_str(), l.len() - 1) {
                    l.remove(i);
                    assert(texts(l@) =~= before.remove(i as int));
                }
            }
            assert(texts(l@) == edit_list(before, op, t@, vv));
        },
        _ => {
            assert(texts(l@) == edit_list(before, op, t@, vv));
        },
    }
}

impl ControlPlaneConfig {
    /// A template with no files and no commands.
    pub fn new() -> (r: ControlPlaneConfig)
        ensures
            r@.files.len() == 0,
            r@.pre_kubeadm_commands.len() == 0,
            r@.post_kubeadm_commands.len() == 0,
    {
        ControlPlaneConfig {
            files: Vec::new(),
            pre_kubeadm_commands: Vec::new(),
            post_kubeadm_commands: Vec::new(),
        }
    }

    pub fn apply_op(&mut self, op: &JsonPatch)
        ensures
            final(self)@ == apply_op(old(self)@, op@),
    {
        let value = payload_text(&op.payload);
        if let Some(t) = exec_token_under(&op.path, FILES_LIST) {
            exec_edit_list(&mut self.files, op.op, &t, value);
        } else if let Some(t) = exec_token_under(&op.path, PRE_COMMANDS_LIST) {
            exec_edit_list(&mut self.pre_kubeadm_commands, op.op, &t, value);
        } else if let Some(t) = exec_token_under(&op.path, POST_COMMANDS_LIST) {
            exec_edit_list(&mut self.post_kubeadm_commands, op.op, &t, value);
        }
    }

    pub fn apply_target(&mut self, t: &PatchTarget)
        ensures
            final(self)@ == apply_target(old(self)@, t@),
    {
        if t.selector.api_version == CONTROL_PLANE_API_VERSION.to_string()
            && t.selector.kind == CONTROL_PLANE_KIND.to_string()
            && t.selector.control_plane == Some(true) {
            let ghost ops = t@.json_patches;
            let n = t.json_patches.len();
            for i in 0..n
                invariant
                    n == t.json_patches@.len(),
                    ops == t.json_patches@.map_values(|p: JsonPatch| p@),
                    self@ == apply_ops(old(self)@, ops.take(i as int)),
            {
                self.apply_op(&t.json_patches[i]);
                assert(ops.take(i + 1).drop_last() =~= ops.take(i as int));
            }
            assert(ops.take(n as int) =~= ops);
        }
    }

    /// Applies the definitions in order, each only where its condition holds
    /// for `values`.
    pub fn apply_patches(&mut self, patches: &Vec<PatchDefinition>, values: &FeatureValues)
        ensures
            final(self)@ == apply_definitions(
                old(self)@,
                patches@.map_values(|d: PatchDefinition| d@),
                values.flags(),
            ),
    {
        let ghost ds = patches@.map_values(|d: PatchDefinition| d@);
        let ghost flags = values.flags();
        let known = ENABLED_IF.to_string();
        let active = values.is_active();
        let n = patches.len();
        for i in 0..n
            invariant
                n == patches@.len(),
                ds == patches@.map_values(|d: PatchDefinition| d@),
                flags == values.flags(),
                known@ == ENABLED_IF@,
                active == is_active(flags),
                self@ == apply_definitions(old(self)@, ds.take(i as int), flags),
        {
            let d = &patches[i];
            let on = match &d.enabled_if {
                None => true,
                Some(c) => *c == known && active,
            };
            if on {
                let ghost start = self@;
                let m = d.definitions.len();
                for j in 0..m
                    invariant
                        m == d.definitions@.len(),
                        self@ == apply_targets(start, d@.definitions.take(j as int)),
                {
                    self.apply_target(&d.definitions[j]);
                    assert(d@.definitions.take(j + 1).drop_last() =~= d@.definitions.take(j as int));
                }
                assert(d@.definitions.take(m as int) =~= d@.definitions);
            }
            assert(ds.take(i + 1).drop_last() =~= ds.take(i as int));
        }
        assert(ds.take(n as int) =~= ds);
    }
}

/// The command after the operations: each `add` of a literal at the
/// container command path appends it; others leave the command as it is.
pub open spec fn apply_command_ops(cmd: Seq<Seq<char>>, ops: Seq<JsonPatchView>) -> Seq<Seq<char>>
    decreases ops.len(),
{
    if ops.len() == 0 {
        cmd
    } else {
        let c = apply_command_ops(cmd, ops.drop_last());
        let op = ops.last();
        match op.payload {
            Some(p) if op.op == PatchOp::Add && op.path == CONTAINER_COMMAND_PATH@ => match p.text() {
                Some(v) => c.push(v),
                None => c,
            },
            _ => c,
        }
    }
}

/// Applies resolved operations to a container's command list, in order.
pub fn apply_command_patches(command: &mut Vec<String>, ops: &Vec<JsonPatch>)
    ensures
        texts(final(command)@) == apply_command_ops(
            texts(old(command)@),
            ops@.map_values(|p: JsonPatch| p@),
        ),
{
    let ghost os = ops@.map_values(|p: JsonPatch| p@);
    let path = CONTAINER_COMMAND_PATH.to_string();
    let n = ops.len();
    for i in 0..n
        invariant
            n == ops@.len(),
            os == ops@.map_values(|p: JsonPatch| p@),
            path@ == CONTAINER_COMMAND_PATH@,
            texts(command@) == apply_command_ops(texts(old(command)@), os.take(i as int)),
    {
        let op = &ops[i];
        if op.op == PatchOp::Add && op.path == path {
            match payload_text(&op.payload) {
                Some(v) => push_text(command, v),
                None => {},
            }
        }
        assert(os.take(i + 1).drop_last() =~= os.take(i as int));
    }
    assert(os.take(n as int) =~= os);
}

} // verus!
