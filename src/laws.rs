//! Properties of the kube-apiserver options feature, its registry and the
//! harness, proved over the contracts' spec functions.
use vstd::prelude::*;
use crate::document::json_object;
use crate::harness::{
    apply_command_ops, apply_definitions, apply_op, apply_ops, apply_targets, enabled, token_under,
    ConfigView, FILES_LIST, POST_COMMANDS_LIST, PRE_COMMANDS_LIST,
};
use crate::kubeapi_options::{
    add_op, command_patches_spec, definition_spec, feature_patches_spec, file_template_spec,
    is_active, kustomization_spec, node_file_spec, BUILD_COMMAND, CONTAINER_COMMAND_PATH,
    COPY_COMMAND, FILES_PATH, FILE_OWNER, FILE_PERMISSIONS, KUSTOMIZATION_PATH, MKDIR_COMMAND,
    POST_COMMANDS_PATH, PRE_COMMANDS_PATH,
};
use crate::patch::PayloadView;
use crate::registry::repeated;

verus! {

/// With no options, or with one empty option, the feature adds no file and no
/// command to the control-plane node template.
pub proof fn lemma_inert_without_options(c: ConfigView, flags: Seq<Seq<char>>)
    requires
        flags.len() == 0 || flags =~= seq![Seq::<char>::empty()],
    ensures
        apply_definitions(c, feature_patches_spec(), flags) == c,
{
    let ds = feature_patches_spec();
    assert forall|i: int| 0 <= i < flags.len() implies #[trigger] flags[i].len() == 0 by {
        assert(flags[0] == Seq::<char>::empty());
    }
    assert(!is_active(flags));
    if ds.len() > 0 {
        assert(ds.drop_last() =~= seq![]);
        assert(apply_definitions(c, ds.drop_last(), flags) == c);
    }
}

/// With some option that is not empty, the feature adds exactly one file, the
/// directory-creation command before kubeadm, and the manifest-copy command
/// followed by the kustomize-build command after it.
pub proof fn lemma_active_with_options(c: ConfigView, flags: Seq<Seq<char>>)
    requires
        is_active(flags),
    ensures
        apply_definitions(c, feature_patches_spec(), flags) == (ConfigView {
            files: c.files.push(file_template_spec()),
            pre_kubeadm_commands: c.pre_kubeadm_commands.push(MKDIR_COMMAND@),
            post_kubeadm_commands: c.post_kubeadm_commands.push(COPY_COMMAND@).push(BUILD_COMMAND@),
        }),
{
    let ds = feature_patches_spec();
    let t = file_template_spec();
    let d = definition_spec(t);
    assert(ds.drop_last() =~= seq![]);
    assert(d.definitions.drop_last() =~= seq![]);
    let ops = d.definitions[0].json_patches;
    assert(ops.drop_last() =~= ops.take(3));
    assert(ops.take(3).drop_last() =~= ops.take(2));
    assert(ops.take(2).drop_last() =~= ops.take(1));
    assert(ops.take(1).drop_last() =~= seq![]);
    lemma_append_paths();
    assert(apply_ops(c, ops.take(1).drop_last()) == c);
    assert(ops.take(1).last() == ops[0]);
    assert(ops.take(2).last() == ops[1]);
    assert(ops.take(3).last() == ops[2]);
    let c1 = apply_ops(c, ops.take(1));
    assert(c1 == apply_op(c, ops[0]));
    let c2 = apply_ops(c, ops.take(2));
    assert(c2 == apply_op(c1, ops[1]));
    let c3 = apply_ops(c, ops.take(3));
    assert(c3 == apply_op(c2, ops[2]));
    let c4 = apply_ops(c, ops);
    assert(c4 == apply_op(c3, ops[3]));
    let want = ConfigView {
        files: c.files.push(t),
        pre_kubeadm_commands: c.pre_kubeadm_commands.push(MKDIR_COMMAND@),
        post_kubeadm_commands: c.post_kubeadm_commands.push(COPY_COMMAND@).push(BUILD_COMMAND@),
    };
    assert(c1 == ConfigView { files: c.files.push(t), ..c });
    assert(c4 == want);
    assert(apply_targets(c, d.definitions.drop_last()) == c);
    assert(apply_targets(c, d.definitions) == c4);
    assert(enabled(d.enabled_if, flags));
    assert(apply_definitions(c, ds.drop_last(), flags) == c);
}

/// Each append path names its own list's end and no other list.
proof fn lemma_append_paths()
    ensures
        token_under(FILES_PATH@, FILES_LIST@) == Some("-"@),
        token_under(PRE_COMMANDS_PATH@, FILES_LIST@) is None,
        token_under(PRE_COMMANDS_PATH@, PRE_COMMANDS_LIST@) == Some("-"@),
        token_under(POST_COMMANDS_PATH@, FILES_LIST@) is None,
        token_under(POST_COMMANDS_PATH@, PRE_COMMANDS_LIST@) is None,
        token_under(POST_COMMANDS_PATH@, POST_COMMANDS_LIST@) == Some("-"@),
{
    reveal_strlit("/spec/template/spec/kubeadmConfigSpec/files/-");
    reveal_strlit("/spec/template/spec/kubeadmConfigSpec/preKubeadmCommands/-");
    reveal_strlit("/spec/template/spec/kubeadmConfigSpec/postKubeadmCommands/-");
    reveal_strlit("/spec/template/spec/kubeadmConfigSpec/files");
    reveal_strlit("/spec/template/spec/kubeadmConfigSpec/preKubeadmCommands");
    reveal_strlit("/spec/template/spec/kubeadmConfigSpec/postKubeadmCommands");
    reveal_strlit("-");
    assert(FILES_PATH@.take(FILES_LIST@.len() as int) =~= FILES_LIST@);
    assert(FILES_PATH@.skip(FILES_LIST@.len() as int + 1) =~= "-"@);
    assert(PRE_COMMANDS_PATH@.take(PRE_COMMANDS_LIST@.len() as int) =~= PRE_COMMANDS_LIST@);
    assert(PRE_COMMANDS_PATH@.skip(PRE_COMMANDS_LIST@.len() as int + 1) =~= "-"@);
    assert(POST_COMMANDS_PATH@.take(POST_COMMANDS_LIST@.len() as int) =~= POST_COMMANDS_LIST@);
    assert(POST_COMMANDS_PATH@.skip(POST_COMMANDS_LIST@.len() as int + 1) =~= "-"@);
    assert(PRE_COMMANDS_PATH@.take(FILES_LIST@.len() as int)[38] != FILES_LIST@[38]);
    assert(POST_COMMANDS_PATH@.take(FILES_LIST@.len() as int)[38] != FILES_LIST@[38]);
    assert(POST_COMMANDS_PATH@.take(PRE_COMMANDS_LIST@.len() as int)[39] != PRE_COMMANDS_LIST@[39]);
}

/// The one file the feature adds is the descriptor of the kustomization file,
/// at its fixed path, with mode 0644 and owner root:root, whose content is the
/// kustomization's text.
pub proof fn lemma_file_descriptor()
    ensures
        file_template_spec() == json_object(node_file_spec(kustomization_spec().yaml()).fields()),
        node_file_spec(kustomization_spec().yaml()).fields() == seq![
            ("path"@, KUSTOMIZATION_PATH@),
            ("permissions"@, FILE_PERMISSIONS@),
            ("owner"@, FILE_OWNER@),
            ("content"@, kustomization_spec().yaml()),
        ],
{
    let f = node_file_spec(kustomization_spec().yaml());
    assert(f.fields() =~= seq![
        ("path"@, KUSTOMIZATION_PATH@),
        ("permissions"@, FILE_PERMISSIONS@),
        ("owner"@, FILE_OWNER@),
        ("content"@, kustomization_spec().yaml()),
    ]);
}

/// The kustomization's patch, expanded over the options, is one `add` per
/// option to the container command, in the options' order.
pub proof fn lemma_command_patches_follow_options(flags: Seq<Seq<char>>)
    ensures
        command_patches_spec(flags).len() == flags.len(),
        forall|i: int|
            0 <= i < flags.len() ==> #[trigger] command_patches_spec(flags)[i] == add_op(
                CONTAINER_COMMAND_PATH@,
                PayloadView::Literal(flags[i]),
            ),
{
}

/// Applying the expanded patch to a container command appends the options to
/// it, in order.
pub proof fn lemma_command_patches_append(cmd: Seq<Seq<char>>, flags: Seq<Seq<char>>)
    ensures
        apply_command_ops(cmd, command_patches_spec(flags)) == cmd + flags,
    decreases flags.len(),
{
    if flags.len() == 0 {
        assert(cmd + flags =~= cmd);
    } else {
        let init = flags.drop_last();
        assert(command_patches_spec(flags).drop_last() =~= command_patches_spec(init));
        lemma_command_patches_append(cmd, init);
        assert(cmd + flags =~= (cmd + init).push(flags.last()));
    }
}

/// The registry does not deduplicate: after `n` registrations of the feature
/// the composition holds its contribution `n` times, so a second registration
/// adds it once more.
pub proof fn lemma_registrations_accumulate(n: nat)
    ensures
        repeated(feature_patches_spec(), n).len() == n * feature_patches_spec().len(),
        repeated(feature_patches_spec(), n + 2) == repeated(feature_patches_spec(), n)
            + feature_patches_spec() + feature_patches_spec(),
    decreases n,
{
    let s = feature_patches_spec();
    if n > 0 {
        lemma_registrations_accumulate((n - 1) as nat);
        assert(repeated(s, n) == repeated(s, (n - 1) as nat) + s);
        assert(n * s.len() == (n - 1) * s.len() + s.len()) by (nonlinear_arith);
    }
    assert(repeated(s, n + 1) == repeated(s, n) + s);
    assert(repeated(s, n + 2) == repeated(s, n + 1) + s);
    assert(repeated(s, n + 2) =~= repeated(s, n) + s + s);
}

} // verus!
