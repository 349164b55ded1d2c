//! The per-job variable context: a string-keyed store of JSON values,
//! the templating frontier, and step output registration.
//!
//! Before each step runs, its expected state is re-rendered against the
//! context, so variables set by the caller and outputs registered by
//! earlier steps reach every module uniformly.

use vstd::prelude::*;
use crate::error::Error;
use crate::json::Json;
use crate::json::JsonV;
use crate::json::lemma_lookup_at;
use crate::json::lemma_lookup_other;
use crate::json::lemma_lookup_push_other;
use crate::json::spec_obj_lookup;
use crate::json::view_obj;
use crate::json::lemma_view_obj_len;
use crate::modules::ModuleBlockExpectedState;
use crate::modules::ModuleV;
use crate::modules::apt::AptBlockExpectedState;
use crate::modules::command::CommandBlockExpectedState;
use crate::modules::debug::DebugBlockExpectedState;
use crate::modules::lineinfile::LineInFileBlockExpectedState;
use crate::modules::ping::PingBlockExpectedState;
use crate::modules::service::ServiceBlockExpectedState;
use crate::modules::yumdnf::YumDnfBlockExpectedState;
use crate::step::ApiCallResult;
use crate::step::ApiCallResultV;
use crate::step::StepResult;
use crate::step::status_label_v;
use crate::strutil::opt_str_v;

verus! {

/// Relies on `tera::Tera::one_off`: renders one template against the
/// given variables, autoescaping off; `Err` when the template does not
/// render (bad syntax, unknown variable).
///
/// Nothing is promised of the rendered text, deliberately: rendering is
/// not a function of the template and the context alone. One of tera's
/// built-in filters collects groups through an unordered hash map and
/// emits them in its iteration order, so two renderings of the same
/// template can differ. The engine therefore carries each concrete
/// rendered value; no contract in this crate needs two renderings to
/// coincide.
#[verifier::external_body]
fn render_template(tpl: &str, ctx: &Json) -> (r: Result<String, String>)
{
    let value = crate::json::value_of_json(ctx);
    let tera_ctx = match tera::Context::from_serialize(&value) {
        Ok(c) => c,
        Err(e) => {
            return Err(e.to_string());
        },
    };
    match tera::Tera::one_off(tpl, &tera_ctx, false) {
        Ok(s) => Ok(s),
        Err(e) => Err(e.to_string()),
    }
}

/// The per-job variable store. Lookup takes the first entry under a
/// key; `set` replaces it, so the store behaves as a map.
pub struct Context {
    pub vars: Vec<(String, Json)>,
}

impl View for Context {
    type V = Seq<(Seq<char>, JsonV)>;

    open spec fn view(&self) -> Seq<(Seq<char>, JsonV)> {
        view_obj(self.vars@)
    }
}

impl Context {
    /// An empty context.
    pub fn new() -> (r: Context)
        ensures
            r@ == Seq::<(Seq<char>, JsonV)>::empty(),
    {
        proof {
            assert(view_obj(Seq::<(String, Json)>::empty()) =~= Seq::<
                (Seq<char>, JsonV),
            >::empty());
        }
        Context { vars: Vec::new() }
    }

    /// A context seeded from variables.
    pub fn from_vars(vars: Vec<(String, Json)>) -> (r: Context)
        ensures
            r@ == view_obj(vars@),
    {
        Context { vars }
    }

    /// The value under a key.
    pub fn get<'a>(&'a self, key: &str) -> (r: Option<&'a Json>)
        ensures
            match r {
                Some(v) => spec_obj_lookup(self@, key@) == Some(v@),
                None => spec_obj_lookup(self@, key@) is None,
            },
    {
        proof {
            lemma_view_obj_len(self.vars@);
        }
        let mut i: usize = 0;
        while i < self.vars.len()
            invariant
                i <= self.vars@.len(),
                self@ == view_obj(self.vars@),
                self@.len() == self.vars@.len(),
                forall|j: int|
                    0 <= j < self.vars@.len() ==> #[trigger] self@[j] == (
                    self.vars@[j].0@,
                    self.vars@[j].1@,
                    ),
                forall|j: int| 0 <= j < i ==> (#[trigger] self@[j]).0 != key@,
            decreases self.vars@.len() - i,
        {
            if crate::strutil::str_eq(self.vars[i].0.as_str(), key) {
                proof {
                    lemma_lookup_at(self@, i as int, key@);
                }
                return Some(&self.vars[i].1);
            }
            i = i + 1;
        }
        proof {
            crate::json::lemma_lookup_absent(self@, key@);
        }
        None
    }

    /// Binds `key` to `value`: afterwards the key reads back as the
    /// value and every other key is untouched.
    pub fn set(&mut self, key: &str, value: Json)
        ensures
            spec_obj_lookup(final(self)@, key@) == Some(value@),
            forall|k: Seq<char>|
                k != key@ ==> #[trigger] spec_obj_lookup(final(self)@, k) == spec_obj_lookup(
                    old(self)@,
                    k,
                ),
    {
        proof {
            lemma_view_obj_len(self.vars@);
        }
        let ghost f1 = self@;
        let mut out: Vec<(String, Json)> = Vec::new();
        let mut i: usize = 0;
        let mut replaced: bool = false;
        let ghost mut rep_at: int = 0;
        while i < self.vars.len()
            invariant
                i <= self.vars@.len(),
                out@.len() == i,
                f1 == view_obj(self.vars@),
                f1.len() == self.vars@.len(),
                forall|j: int|
                    0 <= j < self.vars@.len() ==> #[trigger] f1[j] == (
                    self.vars@[j].0@,
                    self.vars@[j].1@,
                    ),
                forall|j: int| 0 <= j < i ==> (#[trigger] out@[j].0@) == f1[j].0,
                !replaced ==> forall|j: int|
                    0 <= j < i ==> ((#[trigger] out@[j].0@), out@[j].1@) == f1[j],
                !replaced ==> forall|j: int| 0 <= j < i ==> (#[trigger] f1[j]).0 != key@,
                replaced ==> 0 <= rep_at < i,
                replaced ==> (out@[rep_at].0@, out@[rep_at].1@) == (key@, value@),
                replaced ==> f1[rep_at].0 == key@,
                replaced ==> forall|j: int| 0 <= j < rep_at ==> (#[trigger] f1[j]).0 != key@,
                replaced ==> forall|j: int|
                    0 <= j < i && j != rep_at ==> ((#[trigger] out@[j].0@), out@[j].1@) == f1[j],
            decreases self.vars@.len() - i,
        {
            if !replaced && crate::strutil::str_eq(self.vars[i].0.as_str(), key) {
                out.push((key.to_owned(), value.clone()));
                proof {
                    rep_at = i as int;
                }
                replaced = true;
            } else {
                out.push((self.vars[i].0.clone(), self.vars[i].1.clone()));
            }
            i = i + 1;
        }
        if !replaced {
            out.push((key.to_owned(), value));
        }
        proof {
            lemma_view_obj_len(out@);
        }
        let ghost f2 = view_obj(out@);
        proof {
            if !replaced {
                assert(f2.len() == f1.len() + 1);
                assert(f2.drop_last() =~= f1);
                assert(f2 =~= f1.push((key@, value@)));
                lemma_lookup_at(f2, f1.len() as int, key@);
                assert(spec_obj_lookup(f2, key@) == Some(value@));
                assert forall|k: Seq<char>| k != key@ implies #[trigger] spec_obj_lookup(f2, k)
                    == spec_obj_lookup(f1, k) by {
                    lemma_lookup_push_other(f1, (key@, value@), k);
                }
            } else {
                assert(f2.len() == f1.len());
                assert(f2[rep_at] == (key@, value@));
                assert forall|j: int| 0 <= j < rep_at implies (#[trigger] f2[j]).0 != key@ by {
                    assert(f2[j] == f1[j]);
                }
                lemma_lookup_at(f2, rep_at, key@);
                assert(spec_obj_lookup(f2, key@) == Some(value@));
                assert forall|j: int| 0 <= j < f2.len() implies (#[trigger] f2[j]).0
                    == f1[j].0 by {
                    if j != rep_at {
                        assert(f2[j] == f1[j]);
                    }
                }
                assert forall|k: Seq<char>| k != key@ implies #[trigger] spec_obj_lookup(f2, k)
                    == spec_obj_lookup(f1, k) by {
                    lemma_lookup_other(f2, f1, key@, k);
                }
            }
        }
        self.vars = out;
    }

    /// The whole context as one JSON object, for rendering.
    pub fn to_obj(&self) -> (r: Json)
        ensures
            r@ == JsonV::Obj(self@),
    {
        proof {
            lemma_view_obj_len(self.vars@);
        }
        let mut out: Vec<(String, Json)> = Vec::new();
        let mut i: usize = 0;
        while i < self.vars.len()
            invariant
                i <= self.vars@.len(),
                out@.len() == i,
                self@ == view_obj(self.vars@),
                self@.len() == self.vars@.len(),
                forall|j: int|
                    0 <= j < self.vars@.len() ==> #[trigger] self@[j] == (
                    self.vars@[j].0@,
                    self.vars@[j].1@,
                    ),
                forall|j: int|
                    0 <= j < i ==> ((#[trigger] out@[j].0@), out@[j].1@) == self@[j],
            decreases self.vars@.len() - i,
        {
            out.push((self.vars[i].0.clone(), self.vars[i].1.clone()));
            i = i + 1;
        }
        proof {
            lemma_view_obj_len(out@);
            assert(view_obj(out@) =~= self@);
        }
        Json::Obj(out)
    }

    /// Renders one template against this context. The rendered text is
    /// whatever the engine produced (see [`render_template`]); a
    /// failure is a demotable evaluation error.
    pub fn render(&self, tpl: &str) -> (r: Result<String, Error>)
        ensures
            r matches Err(e) ==> e is FailedDryRunEvaluation,
    {
        let obj = self.to_obj();
        match render_template(tpl, &obj) {
            Ok(s) => Ok(s),
            Err(m) => Err(Error::FailedDryRunEvaluation(m)),
        }
    }
}

/// The record one api call contributes to a registered output.
pub open spec fn spec_call_record(c: ApiCallResultV) -> JsonV {
    JsonV::Obj(
        seq![
            (
                "rc"@,
                match c.rc {
                    Some(i) => JsonV::Int(i),
                    None => JsonV::Null,
                },
            ),
            (
                "output"@,
                match c.output {
                    Some(o) => JsonV::Str(o),
                    None => JsonV::Null,
                },
            ),
            ("status"@, JsonV::Str(status_label_v(c.status))),
        ],
    )
}

/// The views of a list of call results.
pub open spec fn call_result_views(s: Seq<ApiCallResult>) -> Seq<ApiCallResultV> {
    s.map_values(|c: ApiCallResult| c@)
}

/// The record a whole step result registers under its name: the derived
/// exit code and output, the last call's status, and every call's own
/// record.
pub open spec fn spec_result_record(r: &StepResult) -> JsonV {
    let calls = call_result_views(r.apicallresults@);
    JsonV::Obj(
        seq![
            (
                "rc"@,
                match r.rc {
                    Some(i) => JsonV::Int(i as int),
                    None => JsonV::Null,
                },
            ),
            (
                "output"@,
                match opt_str_v(r.output) {
                    Some(o) => JsonV::Str(o),
                    None => JsonV::Null,
                },
            ),
            (
                "status"@,
                JsonV::Str(
                    if calls.len() == 0 {
                        "none"@
                    } else {
                        status_label_v(calls.last().status)
                    },
                ),
            ),
            ("apicallresults"@, JsonV::Arr(calls.map_values(|c: ApiCallResultV| spec_call_record(c)))),
        ],
    )
}

fn call_record(c: &ApiCallResult) -> (r: Json)
    ensures
        r@ == spec_call_record(c@),
{
    let mut fields: Vec<(String, Json)> = Vec::new();
    fields.push(
        (
            "rc".to_owned(),
            match c.rc {
                Some(i) => Json::Int(i as i64),
                None => Json::Null,
            },
        ),
    );
    fields.push(
        (
            "output".to_owned(),
            match &c.output {
                Some(o) => Json::Str(o.clone()),
                None => Json::Null,
            },
        ),
    );
    fields.push(("status".to_owned(), Json::Str(c.status.display())));
    proof {
        lemma_view_obj_len(fields@);
        assert(view_obj(fields@) =~= spec_call_record(c@)->Obj_0);
    }
    Json::Obj(fields)
}

impl Context {
    /// Registers a step's outcome under `name`: later renderings see
    /// `name.rc`, `name.output`, `name.status` and the full call
    /// records; every other variable is untouched.
    pub fn register(&mut self, name: &str, result: &StepResult)
        ensures
            spec_obj_lookup(final(self)@, name@) == Some(spec_result_record(result)),
            forall|k: Seq<char>|
                k != name@ ==> #[trigger] spec_obj_lookup(final(self)@, k) == spec_obj_lookup(
                    old(self)@,
                    k,
                ),
    {
        let ghost calls = call_result_views(result.apicallresults@);
        let mut records: Vec<Json> = Vec::new();
        let mut i: usize = 0;
        while i < result.apicallresults.len()
            invariant
                i <= result.apicallresults@.len(),
                records@.len() == i,
                calls == call_result_views(result.apicallresults@),
                calls.len() == result.apicallresults@.len(),
                forall|j: int|
                    0 <= j < result.apicallresults@.len() ==> #[trigger] calls[j]
                        == result.apicallresults@[j]@,
                forall|j: int|
                    0 <= j < i ==> #[trigger] records@[j]@ == spec_call_record(calls[j]),
            decreases result.apicallresults@.len() - i,
        {
            records.push(call_record(&result.apicallresults[i]));
            i = i + 1;
        }
        proof {
            crate::json::lemma_view_arr_len(records@);
            assert(crate::json::view_arr(records@) =~= calls.map_values(
                |c: ApiCallResultV| spec_call_record(c),
            ));
        }
        let mut fields: Vec<(String, Json)> = Vec::new();
        fields.push(
            (
                "rc".to_owned(),
                match result.rc {
                    Some(i2) => Json::Int(i2 as i64),
                    None => Json::Null,
                },
            ),
        );
        fields.push(
            (
                "output".to_owned(),
                match &result.output {
                    Some(o) => Json::Str(o.clone()),
                    None => Json::Null,
                },
            ),
        );
        let status_text: String = if result.apicallresults.len() == 0 {
            "none".to_owned()
        } else {
            result.apicallresults[result.apicallresults.len() - 1].status.display()
        };
        fields.push(("status".to_owned(), Json::Str(status_text)));
        fields.push(("apicallresults".to_owned(), Json::Arr(records)));
        proof {
            lemma_view_obj_len(fields@);
            if result.apicallresults@.len() > 0 {
                assert(calls.last() == result.apicallresults@[result.apicallresults@.len() - 1]@);
            }
            assert(view_obj(fields@) =~= spec_result_record(result)->Obj_0);
        }
        self.set(name, Json::Obj(fields));
    }
}

fn render_opt(o: &Option<String>, ctx: &Context) -> (r: Result<Option<String>, Error>)
    ensures
        match r {
            Ok(s) => s is Some <==> o is Some,
            Err(e) => e is FailedDryRunEvaluation,
        },
{
    match o {
        None => Ok(None),
        Some(t) => match ctx.render(t.as_str()) {
            Ok(s) => Ok(Some(s)),
            Err(e) => Err(e),
        },
    }
}

/// The rendered directive has the shape of the declared one: the same
/// module, every optional string field kept present or absent, every
/// flag kept as declared. The rendered text itself is whatever the
/// template engine produced (see [`render_template`]).
pub open spec fn rendered_shape(m: ModuleV, r: ModuleV) -> bool {
    match (m, r) {
        (ModuleV::Unset, ModuleV::Unset) => true,
        (ModuleV::Ping, ModuleV::Ping) => true,
        (ModuleV::Debug(_), ModuleV::Debug(_)) => true,
        (ModuleV::Command(a), ModuleV::Command(b)) => a.content is Some <==> b.content is Some,
        (ModuleV::Service(a), ModuleV::Service(b)) => (a.state is Some <==> b.state is Some)
            && b.enabled == a.enabled,
        (ModuleV::Apt(a), ModuleV::Apt(b)) => (a.state is Some <==> b.state is Some) && (a.package
            is Some <==> b.package is Some) && b.upgrade == a.upgrade,
        (ModuleV::Dnf(a), ModuleV::Dnf(b)) => (a.state is Some <==> b.state is Some) && (a.package
            is Some <==> b.package is Some) && b.upgrade == a.upgrade,
        (ModuleV::Yum(a), ModuleV::Yum(b)) => (a.state is Some <==> b.state is Some) && (a.package
            is Some <==> b.package is Some) && b.upgrade == a.upgrade,
        (ModuleV::LineInFile(a), ModuleV::LineInFile(b)) => (a.line is Some <==> b.line is Some)
            && (a.state is Some <==> b.state is Some) && (a.position is Some <==> b.position
            is Some),
        _ => false,
    }
}

/// Renders a module directive against the context, field by field; the
/// result keeps the directive's shape, and any failing template is a
/// demotable evaluation error.
pub fn render_moduleblock(mb: &ModuleBlockExpectedState, ctx: &Context) -> (r: Result<
    ModuleBlockExpectedState,
    Error,
>)
    ensures
        match r {
            Ok(m) => rendered_shape(mb@, m@),
            Err(e) => e is FailedDryRunEvaluation,
        },
{
    match mb {
        ModuleBlockExpectedState::Unset => Ok(ModuleBlockExpectedState::Unset),
        ModuleBlockExpectedState::Ping(_) => Ok(
            ModuleBlockExpectedState::Ping(PingBlockExpectedState {  }),
        ),
        ModuleBlockExpectedState::Debug(b) => {
            let msg = ctx.render(b.msg.as_str())?;
            Ok(ModuleBlockExpectedState::Debug(DebugBlockExpectedState { msg }))
        },
        ModuleBlockExpectedState::Command(b) => {
            let content = render_opt(&b.content, ctx)?;
            Ok(ModuleBlockExpectedState::Command(CommandBlockExpectedState { content }))
        },
        ModuleBlockExpectedState::Service(b) => {
            let name = ctx.render(b.name.as_str())?;
            let state = render_opt(&b.state, ctx)?;
            Ok(
                ModuleBlockExpectedState::Service(
                    ServiceBlockExpectedState { name, state, enabled: b.enabled },
                ),
            )
        },
        ModuleBlockExpectedState::Apt(b) => {
            let state = render_opt(&b.state, ctx)?;
            let package = render_opt(&b.package, ctx)?;
            Ok(
                ModuleBlockExpectedState::Apt(
                    AptBlockExpectedState { state, package, upgrade: b.upgrade },
                ),
            )
        },
        ModuleBlockExpectedState::Dnf(b) => {
            let state = render_opt(&b.state, ctx)?;
            let package = render_opt(&b.package, ctx)?;
            Ok(
                ModuleBlockExpectedState::Dnf(
                    YumDnfBlockExpectedState { state, package, upgrade: b.upgrade },
                ),
            )
        },
        ModuleBlockExpectedState::Yum(b) => {
            let state = render_opt(&b.state, ctx)?;
            let package = render_opt(&b.package, ctx)?;
            Ok(
                ModuleBlockExpectedState::Yum(
                    YumDnfBlockExpectedState { state, package, upgrade: b.upgrade },
                ),
            )
        },
        ModuleBlockExpectedState::LineInFile(b) => {
            let filepath = ctx.render(b.filepath.as_str())?;
            let line = render_opt(&b.line, ctx)?;
            let state = render_opt(&b.state, ctx)?;
            let position = render_opt(&b.position, ctx)?;
            Ok(
                ModuleBlockExpectedState::LineInFile(
                    LineInFileBlockExpectedState { filepath, line, state, position },
                ),
            )
        },
    }
}

} // verus!
