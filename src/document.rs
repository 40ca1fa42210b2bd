//! The shared document and its steps, as the document engine defines them, and
//! how a batch of steps reaches a channel's document.
use crate::channel::{
    batch_json, default_name, doc_state_json, member_index, public_json, roster_json, Broadcast,
    ChannelState, InitReply, Member,
};
use crate::ids::UserID;
use crate::text::parse_json;
use prosemirror::dynamic::types::Dyn;
use prosemirror::dynamic::{DynamicNode, DynamicSchema};
use prosemirror::transform::Step;
use vstd::prelude::*;

verus! {

/// The schema of the documents: their node and mark types.
#[verifier::external_type_specification]
#[verifier::external_body]
pub struct ExDynamicSchema(DynamicSchema);

/// A document, or a node of one.
#[verifier::external_type_specification]
#[verifier::external_body]
pub struct ExDynamicNode(DynamicNode);

/// A batch of steps: atomic edits of a document, in order.
#[verifier::external_body]
#[derive(Debug)]
pub struct StepList {
    steps: Vec<Step<Dyn>>,
}

/// How many steps a batch holds.
pub uninterp spec fn step_count(b: StepList) -> nat;

/// What step `i` of `batch` makes of `doc` under `schema`: `Some(Some(d))` for
/// the edited document, `Some(None)` where the step does not fit the document,
/// and `None` where applying it does not return (the engine panics when a
/// position falls inside a character outside the Basic Multilingual Plane).
pub uninterp spec fn step_result(schema: DynamicSchema, batch: StepList, i: int, doc: DynamicNode) -> Option<Option<DynamicNode>>;

/// The steps that a JSON text holds under `schema`, if it holds steps.
pub uninterp spec fn parsed_steps(schema: DynamicSchema, text: Seq<char>) -> Option<StepList>;

/// The JSON text of a batch of steps.
pub uninterp spec fn steps_text(schema: DynamicSchema, batch: StepList) -> Seq<char>;

/// The document that a JSON text holds under `schema`, if it holds one.
pub uninterp spec fn parsed_doc(schema: DynamicSchema, text: Seq<char>) -> Option<DynamicNode>;

/// The JSON text of a document.
pub uninterp spec fn doc_text(schema: DynamicSchema, doc: DynamicNode) -> Seq<char>;

impl StepList {
    /// Relies on `Vec::len`: the number of steps.
    #[verifier::external_body]
    pub(crate) fn len(&self) -> (r: usize)
        ensures
            r as nat == step_count(*self),
    {
        self.steps.len()
    }
}

/// Relies on `Step::apply` on step `i` of `batch`, run under
/// `DynamicSchema::with_types` so that the schema's node types are known to it:
/// the edited document, or `None` where the step does not fit the document.
/// `Step::apply` panics where a position of the step falls inside a character
/// outside the Basic Multilingual Plane; `step_result` is `None` there, and such
/// inputs are left out.
#[verifier::external_body]
fn apply_step(schema: &DynamicSchema, batch: &StepList, i: usize, doc: &DynamicNode) -> (r: Option<DynamicNode>)
    requires
        i < step_count(*batch),
        step_result(*schema, *batch, i as int, *doc) is Some,
    ensures
        Some(r) == step_result(*schema, *batch, i as int, *doc),
{
    schema.with_types(|| batch.steps[i].apply(doc)).ok()
}

/// Relies on `serde_json::from_str` into steps of the schema, under
/// `DynamicSchema::with_types`: `None` where the text is no JSON array of steps.
#[verifier::external_body]
pub(crate) fn parse_steps(schema: &DynamicSchema, text: &str) -> (r: Option<StepList>)
    ensures
        r == parsed_steps(*schema, text@),
{
    schema.with_types(|| serde_json::from_str::<Vec<Step<Dyn>>>(text).ok()).map(|steps| StepList { steps })
}

/// Relies on `serde_json::to_string` on steps, under `DynamicSchema::with_types`:
/// the steps as a JSON array.
#[verifier::external_body]
fn steps_json(schema: &DynamicSchema, batch: &StepList) -> (r: String)
    ensures
        r@ == steps_text(*schema, *batch),
{
    schema.with_types(|| serde_json::to_string(&batch.steps).unwrap_or_default())
}

/// Relies on `serde_json::to_string` on a node, under `DynamicSchema::with_types`:
/// the document as JSON.
#[verifier::external_body]
fn doc_json(schema: &DynamicSchema, doc: &DynamicNode) -> (r: String)
    ensures
        r@ == doc_text(*schema, *doc),
{
    schema.with_types(|| serde_json::to_string(doc).unwrap_or_default())
}

/// The schema of the documents, in the engine's JSON notation: the Markdown
/// nodes (doc, paragraph, blockquote, horizontal rule, heading, code block, the
/// two kinds of list and their items, text, image, hard break) and marks.
pub const SCHEMA_SPEC: &'static str = r#"{"nodes":{"doc":{"content":"block+"},"paragraph":{"content":"inline*","group":"block"},"blockquote":{"content":"block+","group":"block"},"horizontal_rule":{"group":"block"},"heading":{"content":"inline*","group":"block","attrs":{"level":{"default":1}}},"code_block":{"content":"text*","group":"block","code":true,"marks":"_","attrs":{"params":{"default":""}}},"ordered_list":{"content":"list_item+","group":"block","attrs":{"order":{"default":1},"tight":{"default":false}}},"bullet_list":{"content":"list_item+","group":"block","attrs":{"tight":{"default":false}}},"list_item":{"content":"paragraph block*"},"text":{"group":"inline"},"image":{"inline":true,"group":"inline","attrs":{"src":{},"alt":{"default":null},"title":{"default":null}}},"hard_break":{"inline":true,"group":"inline"}},"marks":{"em":{},"strong":{},"link":{"attrs":{"href":{},"title":{"default":null}}},"code":{}}}"#;

/// The document a new file starts with, as JSON.
pub const INITIAL_DOC: &'static str = r#"{"type":"doc","content":[{"type":"heading","attrs":{"level":1},"content":[{"type":"text","text":"Padington"}]},{"type":"code_block","attrs":{"params":""},"content":[{"type":"text","text":"fn foo(a: u32) -> u32 {\n  2 * a\n}"}]},{"type":"heading","attrs":{"level":2},"content":[{"type":"text","text":"Lorem Ipsum"}]},{"type":"blockquote","content":[{"type":"paragraph","content":[{"type":"text","text":"Lorem ipsum dolor sit amet, consetetur sadipscing elitr, sed diam nonumy eirmod tempor invidunt ut labore et dolore magna aliquyam erat, sed diam voluptua. At vero eos et accusam et justo duo dolores et ea rebum. Stet clita kasd gubergren, no sea takimata sanctus est Lorem ipsum dolor sit amet. Lorem ipsum dolor sit amet, consetetur sadipscing elitr, sed diam nonumy eirmod tempor invidunt ut labore et dolore magna aliquyam erat, sed diam voluptua. At vero eos et accusam et justo duo dolores et ea rebum. Stet clita kasd gubergren, no sea takimata sanctus est Lorem ipsum dolor sit amet. Lorem ipsum dolor sit amet, consetetur sadipscing elitr, sed diam nonumy eirmod tempor invidunt ut labore et dolore magna aliquyam erat, sed diam voluptua. At vero eos et accusam et justo duo dolores et ea rebum. Stet clita kasd gubergren, no sea takimata sanctus est Lorem ipsum dolor sit amet."}]}]}]}"#;

/// Relies on `DynamicSchema::from_json`: the schema that a JSON specification
/// describes, or `None` where it describes none. Building it walks the
/// specification's `HashMap`s, so the numbering of node types differs between
/// two schemas built from one specification: no name is given to the result.
#[verifier::external_body]
fn schema_from_json(spec: &serde_json::Value) -> (r: Option<DynamicSchema>) {
    DynamicSchema::from_json(spec).ok()
}

/// The schema of the documents. Documents and steps are to be read and applied
/// under one and the same schema value.
pub fn markdown_schema() -> (r: Option<DynamicSchema>) {
    match parse_json(SCHEMA_SPEC) {
        Some(v) => schema_from_json(&v),
        None => None,
    }
}

/// Relies on `serde_json::from_str` into a node, under
/// `DynamicSchema::with_types`: `None` where the text is no JSON node.
#[verifier::external_body]
fn parse_doc(schema: &DynamicSchema, text: &str) -> (r: Option<DynamicNode>)
    ensures
        r == parsed_doc(*schema, text@),
{
    schema.with_types(|| serde_json::from_str::<DynamicNode>(text).ok())
}

/// The document a new file starts with.
pub fn initial_doc(schema: &DynamicSchema) -> (r: Option<DynamicNode>)
    ensures
        r == parsed_doc(*schema, INITIAL_DOC@),
{
    parse_doc(schema, INITIAL_DOC)
}

/// How a channel's document was obtained when the channel started.
#[derive(Debug)]
pub enum Loaded {
    /// Read from the channel's file
    Stored(DynamicNode),
    /// The file did not exist: the initial document, with the text to write to it
    Seeded(DynamicNode, String),
}

/// The document of a starting channel: `stored` is the content of its file, or
/// `None` where the file does not exist. A file is read as it is; a missing one
/// is seeded with the initial document, whose text is to be written to it.
/// `None` where the text holds no document.
pub fn load_document(schema: &DynamicSchema, stored: Option<&str>) -> (r: Option<Loaded>)
    ensures
        match stored {
            Some(t) => match parsed_doc(*schema, t@) {
                Some(d) => r matches Some(Loaded::Stored(x)) && x == d,
                None => r is None,
            },
            None => match parsed_doc(*schema, INITIAL_DOC@) {
                Some(d) => r matches Some(Loaded::Seeded(x, text)) && x == d && text@ == doc_text(
                    *schema,
                    d,
                ),
                None => r is None,
            },
        },
{
    match stored {
        Some(text) => match parse_doc(schema, text) {
            Some(d) => Some(Loaded::Stored(d)),
            None => None,
        },
        None => match initial_doc(schema) {
            Some(d) => {
                let text = doc_json(schema, &d);
                Some(Loaded::Seeded(d, text))
            },
            None => None,
        },
    }
}

/// The outcome of applying the first `k` steps of `steps` to `doc`, one after
/// the other: `Some(Some(d))` for the document they produce, `Some(None)` where
/// one of them does not fit, `None` where one does not return.
pub open spec fn batch_run(schema: DynamicSchema, doc: DynamicNode, steps: StepList, k: nat) -> Option<Option<DynamicNode>>
    decreases k,
{
    if k == 0 {
        Some(Some(doc))
    } else {
        match batch_run(schema, doc, steps, (k - 1) as nat) {
            Some(Some(d)) => step_result(schema, steps, k - 1, d),
            other => other,
        }
    }
}

/// The outcome of applying a whole batch to `doc`.
pub open spec fn batch_result(schema: DynamicSchema, doc: DynamicNode, steps: StepList) -> Option<Option<DynamicNode>> {
    batch_run(schema, doc, steps, step_count(steps))
}

proof fn lemma_batch_run_stops(schema: DynamicSchema, doc: DynamicNode, steps: StepList, i: nat, j: nat)
    requires
        i <= j,
    ensures
        batch_run(schema, doc, steps, i) is None ==> batch_run(schema, doc, steps, j) is None,
        batch_run(schema, doc, steps, i) == Some(None::<DynamicNode>) ==> batch_run(schema, doc, steps, j)
            == Some(None::<DynamicNode>),
    decreases j - i,
{
    if i < j {
        lemma_batch_run_stops(schema, doc, steps, i, (j - 1) as nat);
    }
}

/// Applies `steps` to `doc` strictly from left to right, each step to the
/// document the one before it produced. `None` as soon as one step fails: the
/// batch is then applied not at all.
pub fn apply_batch(schema: &DynamicSchema, doc: &DynamicNode, steps: &StepList) -> (r: Option<
    DynamicNode,
>)
    requires
        step_count(*steps) > 0,
        batch_result(*schema, *doc, *steps) is Some,
    ensures
        Some(r) == batch_result(*schema, *doc, *steps),
{
    let n = steps.len();
    proof {
        lemma_batch_run_stops(*schema, *doc, *steps, 1, n as nat);
        assert(batch_run(*schema, *doc, *steps, 0) == Some(Some(*doc)));
        assert(batch_run(*schema, *doc, *steps, 1) == step_result(*schema, *steps, 0, *doc));
    }
    let mut current = match apply_step(schema, steps, 0, doc) {
        Some(d) => d,
        None => {
            return None;
        },
    };
    let mut i: usize = 1;
    while i < n
        invariant
            1 <= i <= n,
            n as nat == step_count(*steps),
            batch_run(*schema, *doc, *steps, i as nat) == Some(Some(current)),
            batch_run(*schema, *doc, *steps, n as nat) is Some,
        decreases n - i,
    {
        proof {
            lemma_batch_run_stops(*schema, *doc, *steps, (i + 1) as nat, n as nat);
        }
        current = match apply_step(schema, steps, i, &current) {
            Some(d) => d,
            None => {
                return None;
            },
        };
        i = i + 1;
    }
    Some(current)
}

/// A channel receives the batch `steps` from `src`, declared against version
/// `declared`. A batch that the channel does not accept (a stale version, an
/// empty batch) leaves it as it was and is not announced. Otherwise the batch is
/// applied as a whole: where a step fails nothing changes and nothing is
/// announced; else the document is the result, the version grows by the length
/// of the batch, and the batch is announced with its author.
pub fn receive_steps(
    state: &mut ChannelState<DynamicNode>,
    schema: &DynamicSchema,
    src: UserID,
    declared: usize,
    steps: &StepList,
) -> (r: Option<Broadcast>)
    requires
        old(state).wf(),
        old(state).spec_accepts(declared, step_count(*steps) as usize) ==> batch_result(
            *schema,
            old(state).spec_doc(),
            *steps,
        ) is Some,
    ensures
        final(state).wf(),
        final(state).spec_members() == old(state).spec_members(),
        !old(state).spec_accepts(declared, step_count(*steps) as usize) ==> {
            &&& *final(state) == *old(state)
            &&& r is None
        },
        old(state).spec_accepts(declared, step_count(*steps) as usize) ==> match batch_result(
            *schema,
            old(state).spec_doc(),
            *steps,
        ) {
            Some(Some(d)) => {
                &&& final(state).spec_doc() == d
                &&& final(state).spec_version() == old(state).spec_version() + step_count(*steps)
                &&& final(state).spec_accepted() == old(state).spec_accepted().push(step_count(*steps))
                &&& r matches Some(Broadcast::Steps(t)) && t@ == batch_json(src, steps_text(*schema, *steps))
            },
            _ => {
                &&& *final(state) == *old(state)
                &&& r is None
            },
        },
{
    let n = steps.len();
    if !state.accepts(declared, n) {
        return None;
    }
    let outcome = apply_batch(schema, state.doc(), steps);
    let text = steps_json(schema, steps);
    state.apply_steps(src, declared, n, outcome, text.as_str())
}

/// Admits user `id` to the channel as `ChannelState::init_member` does, with the
/// current document written as JSON into the reply.
pub fn welcome(
    state: &mut ChannelState<DynamicNode>,
    schema: &DynamicSchema,
    id: UserID,
    name: Option<String>,
) -> (r: (InitReply, Broadcast))
    requires
        old(state).wf(),
    ensures
        final(state).wf(),
        final(state).spec_doc() == old(state).spec_doc(),
        final(state).spec_version() == old(state).spec_version(),
        final(state).spec_accepted() == old(state).spec_accepted(),
        ({
            let new_name = match name {
                Some(n) => n@,
                None => default_name(id),
            };
            let ms = old(state).spec_members();
            let ms2 = final(state).spec_members();
            &&& match member_index(ms, id) {
                Some(j) => ms2 == ms.update(j, Member { id, name: ms2[j].name, audio: false }),
                None => ms2 == ms.push(Member { id, name: ms2.last().name, audio: false }),
            }
            &&& member_index(ms2, id) matches Some(k) && ms2[k].name@ == new_name
            &&& r.0.doc@ == doc_state_json(doc_text(*schema, old(state).spec_doc()), old(state).spec_version())
            &&& r.0.j_peers@ == roster_json(ms2)
            &&& r.1 matches Broadcast::NewUser { remote_id, data } && remote_id == id && data@
                == public_json(new_name, false)
        }),
{
    let doc = doc_json(schema, state.doc());
    state.init_member(id, name, doc.as_str())
}

/// The text a channel's file is given when the channel terminates: its current
/// document as JSON, which `load_document` reads back.
pub fn stored_text(state: &ChannelState<DynamicNode>, schema: &DynamicSchema) -> (r: String)
    ensures
        r@ == doc_text(*schema, state.spec_doc()),
{
    doc_json(schema, state.doc())
}

} // verus!
