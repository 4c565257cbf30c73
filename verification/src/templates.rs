use vstd::prelude::*;
use crate::table::{assoc, find_entry, table_view};

verus! {

/// A context value handed to the renderer: a string, a boolean, or a number.
pub enum CtxValue {
    Text(String),
    Flag(bool),
    Number(i64),
}

/// Mathematical counterpart of `CtxValue`.
pub enum CtxVal {
    Text(Seq<char>),
    Flag(bool),
    Number(int),
}

impl View for CtxValue {
    type V = CtxVal;

    open spec fn view(&self) -> CtxVal {
        match self {
            CtxValue::Text(s) => CtxVal::Text(s@),
            CtxValue::Flag(b) => CtxVal::Flag(*b),
            CtxValue::Number(n) => CtxVal::Number(*n as int),
        }
    }
}

/// The variable bindings of a render context.
pub open spec fn ctx_view(ctx: Seq<(String, CtxValue)>) -> Seq<(Seq<char>, CtxVal)> {
    ctx.map_values(|e: (String, CtxValue)| (e.0@, e.1@))
}

/// What the rendering engine produces for a template source and a context:
/// the rendered text, or nothing when the source does not parse or render
/// under that context.
pub uninterp spec fn render_outcome(source: Seq<char>, ctx: Seq<(Seq<char>, CtxVal)>) -> Option<
    Seq<char>,
>;

/// Relies on minijinja's Environment::render_str on a fresh default
/// environment: it parses and renders a template source under a context
/// mapping, and its outcome depends on the source text and the context
/// values alone.
#[verifier::external_body]
fn render_source(source: &str, ctx: &Vec<(String, CtxValue)>) -> (r: Result<String, String>)
    ensures
        match r {
            Ok(out) => render_outcome(source@, ctx_view(ctx@)) == Some(out@),
            Err(_) => render_outcome(source@, ctx_view(ctx@)) is None,
        },
{
    let mut vals = std::collections::BTreeMap::new();
    for (k, v) in ctx.iter() {
        let value = match v {
            CtxValue::Text(s) => minijinja::Value::from(s.clone()),
            CtxValue::Flag(b) => minijinja::Value::from(*b),
            CtxValue::Number(n) => minijinja::Value::from(*n),
        };
        vals.insert(k.clone(), value);
    }
    let env = minijinja::Environment::new();
    env.render_str(source, vals).map_err(|e| e.to_string())
}

/// A failed render: the name resolved to no template, or the engine
/// refused the source or the context.
#[derive(Debug)]
pub enum RenderError {
    UnknownTemplate,
    RenderFailed(String),
}

/// The template namespace: on-disk overrides in front of embedded defaults,
/// merged once at startup and immutable afterwards.
pub struct TemplateSet {
    disk: Vec<(String, String)>,
    embedded: Vec<(String, String)>,
}

/// Mathematical counterpart of `TemplateSet`: the two name-to-source tables.
pub struct TemplateSetV {
    pub disk: Seq<(Seq<char>, Seq<char>)>,
    pub embedded: Seq<(Seq<char>, Seq<char>)>,
}

impl View for TemplateSet {
    type V = TemplateSetV;

    closed spec fn view(&self) -> TemplateSetV {
        TemplateSetV { disk: table_view(self.disk@), embedded: table_view(self.embedded@) }
    }
}

/// Name resolution over the merged namespace: the on-disk set is consulted
/// first, the embedded defaults second.
pub open spec fn template_of(ts: TemplateSetV, name: Seq<char>) -> Option<Seq<char>> {
    match assoc(ts.disk, name) {
        Some(src) => Some(src),
        None => assoc(ts.embedded, name),
    }
}

/// What rendering template `name` under `ctx` yields: resolve the name,
/// then render the source it resolved to.
pub open spec fn render_of(ts: TemplateSetV, name: Seq<char>, ctx: Seq<(Seq<char>, CtxVal)>) -> Option<
    Seq<char>,
> {
    match template_of(ts, name) {
        Some(src) => render_outcome(src, ctx),
        None => None,
    }
}

impl TemplateSet {
    /// Merge the two template sources into one namespace.
    pub fn new(disk: Vec<(String, String)>, embedded: Vec<(String, String)>) -> (r: TemplateSet)
        ensures
            r@.disk == table_view(disk@),
            r@.embedded == table_view(embedded@),
    {
        TemplateSet { disk, embedded }
    }

    /// The source bound to `name`, on-disk entries overriding embedded ones.
    pub fn lookup(&self, name: &str) -> (r: Option<String>)
        ensures
            match r {
                Some(src) => template_of(self@, name@) == Some(src@),
                None => template_of(self@, name@) is None,
            },
    {
        match find_entry(&self.disk, name) {
            Some(i) => Some(self.disk[i].1.clone()),
            None => match find_entry(&self.embedded, name) {
                Some(i) => Some(self.embedded[i].1.clone()),
                None => None,
            },
        }
    }

    /// Render template `name` under `ctx`. An unresolved name and a render
    /// the engine refuses are errors of the request being served, told
    /// apart in the result.
    pub fn render(&self, name: &str, ctx: &Vec<(String, CtxValue)>) -> (r: Result<
        String,
        RenderError,
    >)
        ensures
            match r {
                Ok(out) => render_of(self@, name@, ctx_view(ctx@)) == Some(out@),
                Err(RenderError::UnknownTemplate) => template_of(self@, name@) is None,
                Err(RenderError::RenderFailed(_)) => {
                    &&& template_of(self@, name@) matches Some(src)
                    &&& render_outcome(src, ctx_view(ctx@)) is None
                },
            },
    {
        match self.lookup(name) {
            None => Err(RenderError::UnknownTemplate),
            Some(src) => match render_source(src.as_str(), ctx) {
                Ok(out) => Ok(out),
                Err(msg) => Err(RenderError::RenderFailed(msg)),
            },
        }
    }
}

/// Rendering is deterministic: two renders of the same template name under
/// the same context in the same namespace yield the same text, so any
/// number of concurrent renders of one (name, context) pair agree.
pub proof fn lemma_render_deterministic(
    ts: TemplateSetV,
    name: Seq<char>,
    ctx: Seq<(Seq<char>, CtxVal)>,
    r1: Option<Seq<char>>,
    r2: Option<Seq<char>>,
)
    requires
        r1 == render_of(ts, name, ctx),
        r2 == render_of(ts, name, ctx),
    ensures
        r1 == r2,
{
}

/// An on-disk template overrides an embedded default of the same name; with
/// no on-disk entry for the name, the embedded default is visible.
pub proof fn lemma_disk_overrides(ts: TemplateSetV, name: Seq<char>)
    ensures
        assoc(ts.disk, name) is Some ==> template_of(ts, name) == assoc(ts.disk, name),
        assoc(ts.disk, name) is None ==> template_of(ts, name) == assoc(ts.embedded, name),
{
}

} // verus!
