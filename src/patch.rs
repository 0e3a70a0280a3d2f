//! The patch document model: selectors, JSON-patch operations, patch targets
//! and patch definitions, each with a mathematical view.
use vstd::prelude::*;

verus! {

/// The view of an optional string.
pub open spec fn opt_text(o: Option<String>) -> Option<Seq<char>> {
    match o {
        Some(s) => Some(s@),
        None => None,
    }
}

/// An RFC 6902 operation kind.
#[derive(Clone, Copy, Debug, PartialEq, Eq, Structural)]
pub enum PatchOp {
    Add,
    Remove,
    Replace,
    Move,
    Copy,
    Test,
}

impl PatchOp {
    /// The spelling of the operation in a patch document.
    pub open spec fn spec_name(self) -> Seq<char> {
        match self {
            PatchOp::Add => "add"@,
            PatchOp::Remove => "remove"@,
            PatchOp::Replace => "replace"@,
            PatchOp::Move => "move"@,
            PatchOp::Copy => "copy"@,
            PatchOp::Test => "test"@,
        }
    }

    /// The operation a patch document spells so, if any.
    pub open spec fn spec_from_name(s: Seq<char>) -> Option<PatchOp> {
        if s == "add"@ {
            Some(PatchOp::Add)
        } else if s == "remove"@ {
            Some(PatchOp::Remove)
        } else if s == "replace"@ {
            Some(PatchOp::Replace)
        } else if s == "move"@ {
            Some(PatchOp::Move)
        } else if s == "copy"@ {
            Some(PatchOp::Copy)
        } else if s == "test"@ {
            Some(PatchOp::Test)
        } else {
            None
        }
    }

    pub fn from_name(s: &String) -> (r: Option<PatchOp>)
        ensures
            r == PatchOp::spec_from_name(s@),
    {
        if *s == "add".to_string() {
            Some(PatchOp::Add)
        } else if *s == "remove".to_string() {
            Some(PatchOp::Remove)
        } else if *s == "replace".to_string() {
            Some(PatchOp::Replace)
        } else if *s == "move".to_string() {
            Some(PatchOp::Move)
        } else if *s == "copy".to_string() {
            Some(PatchOp::Copy)
        } else if *s == "test".to_string() {
            Some(PatchOp::Test)
        } else {
            None
        }
    }

    pub fn name(&self) -> (r: String)
        ensures
            r@ == self.spec_name(),
    {
        match self {
            PatchOp::Add => "add".to_string(),
            PatchOp::Remove => "remove".to_string(),
            PatchOp::Replace => "replace".to_string(),
            PatchOp::Move => "move".to_string(),
            PatchOp::Copy => "copy".to_string(),
            PatchOp::Test => "test".to_string(),
        }
    }
}

/// Reading back the spelling of an operation gives the same operation.
pub proof fn lemma_op_name_round_trip(op: PatchOp)
    ensures
        PatchOp::spec_from_name(op.spec_name()) == Some(op),
{
    reveal_strlit("add");
    reveal_strlit("remove");
    reveal_strlit("replace");
    reveal_strlit("move");
    reveal_strlit("copy");
    reveal_strlit("test");
    assert("add"@[0] != "remove"@[0] && "add"@[0] != "replace"@[0] && "add"@[0] != "move"@[0]);
    assert("add"@[0] != "copy"@[0] && "add"@[0] != "test"@[0] && "remove"@[2] != "replace"@[2]);
    assert("remove"@[0] != "move"@[0] && "remove"@[0] != "copy"@[0] && "remove"@[0] != "test"@[0]);
    assert("replace"@[0] != "move"@[0] && "replace"@[0] != "copy"@[0] && "replace"@[0] != "test"@[0]);
    assert("move"@[0] != "copy"@[0] && "move"@[0] != "test"@[0] && "copy"@[0] != "test"@[0]);
}

/// The payload of an operation: a literal value, a template that the
/// templating engine expands at cluster-instantiation time, or a reference to
/// a variable that it substitutes.
#[derive(Clone, Debug)]
pub enum Payload {
    Literal(String),
    Template(String),
    Variable(String),
}

pub ghost enum PayloadView {
    Literal(Seq<char>),
    Template(Seq<char>),
    Variable(Seq<char>),
}

impl View for Payload {
    type V = PayloadView;

    open spec fn view(&self) -> PayloadView {
        match self {
            Payload::Literal(s) => PayloadView::Literal(s@),
            Payload::Template(s) => PayloadView::Template(s@),
            Payload::Variable(s) => PayloadView::Variable(s@),
        }
    }
}

impl PayloadView {
    /// The text a literal or a template carries; a variable reference has
    /// none until the templating engine substitutes it.
    pub open spec fn text(self) -> Option<Seq<char>> {
        match self {
            PayloadView::Literal(s) => Some(s),
            PayloadView::Template(s) => Some(s),
            PayloadView::Variable(_) => None,
        }
    }
}

/// One JSON-patch operation; `payload` is absent only for operations that
/// carry none.
#[derive(Clone, Debug)]
pub struct JsonPatch {
    pub op: PatchOp,
    pub path: String,
    pub payload: Option<Payload>,
}

pub ghost struct JsonPatchView {
    pub op: PatchOp,
    pub path: Seq<char>,
    pub payload: Option<PayloadView>,
}

impl View for JsonPatch {
    type V = JsonPatchView;

    open spec fn view(&self) -> JsonPatchView {
        JsonPatchView {
            op: self.op,
            path: self.path@,
            payload: match self.payload {
                Some(p) => Some(p@),
                None => None,
            },
        }
    }
}

/// Which generated resources a patch target applies to.
#[derive(Clone, Debug)]
pub struct Selector {
    pub api_version: String,
    pub kind: String,
    pub control_plane: Option<bool>,
}

pub ghost struct SelectorView {
    pub api_version: Seq<char>,
    pub kind: Seq<char>,
    pub control_plane: Option<bool>,
}

impl View for Selector {
    type V = SelectorView;

    open spec fn view(&self) -> SelectorView {
        SelectorView {
            api_version: self.api_version@,
            kind: self.kind@,
            control_plane: self.control_plane,
        }
    }
}

/// A selector with the operations applied, in order, to what it selects.
#[derive(Clone, Debug)]
pub struct PatchTarget {
    pub selector: Selector,
    pub json_patches: Vec<JsonPatch>,
}

pub ghost struct PatchTargetView {
    pub selector: SelectorView,
    pub json_patches: Seq<JsonPatchView>,
}

impl View for PatchTarget {
    type V = PatchTargetView;

    open spec fn view(&self) -> PatchTargetView {
        PatchTargetView {
            selector: self.selector@,
            json_patches: self.json_patches@.map_values(|p: JsonPatch| p@),
        }
    }
}

/// A named bundle of patch targets, active when `enabled_if` is absent or
/// evaluates to a truthy value.
#[derive(Clone, Debug)]
pub struct PatchDefinition {
    pub name: String,
    pub enabled_if: Option<String>,
    pub definitions: Vec<PatchTarget>,
}

pub ghost struct PatchDefinitionView {
    pub name: Seq<char>,
    pub enabled_if: Option<Seq<char>>,
    pub definitions: Seq<PatchTargetView>,
}

impl View for PatchDefinition {
    type V = PatchDefinitionView;

    open spec fn view(&self) -> PatchDefinitionView {
        PatchDefinitionView {
            name: self.name@,
            enabled_if: opt_text(self.enabled_if),
            definitions: self.definitions@.map_values(|t: PatchTarget| t@),
        }
    }
}

/// The views of a sequence of patch definitions.
pub open spec fn defs_view(defs: Seq<PatchDefinition>) -> Seq<PatchDefinitionView> {
    defs.map_values(|d: PatchDefinition| d@)
}

} // verus!
