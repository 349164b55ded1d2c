//! Reading a task list out of a parsed document and writing it back.
//!
//! The text itself is handled by the serde frontier in [`crate::json`];
//! everything from the value tree to the typed model — the schema — is
//! verified here, field by field.

use vstd::prelude::*;
use crate::error::Error;
use crate::json::Json;
use crate::json::JsonV;
use crate::json::spec_obj_lookup;
use crate::json::view_arr;
use crate::json::view_obj;
use crate::json::lemma_view_arr_len;
use crate::json::lemma_view_obj_len;
use crate::json::lemma_lookup_at;
use crate::json::lemma_lookup_absent;
use crate::modules::ModuleV;
use crate::modules::apt::AptBlockExpectedState;
use crate::modules::apt::AptBlockV;
use crate::modules::command::CommandBlockExpectedState;
use crate::modules::command::CommandBlockV;
use crate::modules::debug::DebugBlockExpectedState;
use crate::modules::debug::DebugBlockV;
use crate::modules::lineinfile::LineInFileBlockExpectedState;
use crate::modules::lineinfile::LineInFileBlockV;
use crate::modules::ping::PingBlockExpectedState;
use crate::modules::service::ServiceBlockExpectedState;
use crate::modules::service::ServiceBlockV;
use crate::modules::yumdnf::YumDnfBlockExpectedState;
use crate::modules::yumdnf::YumDnfBlockV;
use crate::strutil::concat3;
use crate::strutil::opt_str_v;
use crate::task::ParsingStep;
use crate::task::ParsingStepV;
use crate::task::ParsingTaskBlock;
use crate::task::ParsingTaskBlockV;
use crate::task::TaskBlock;
use crate::task::TaskBlockV;
use crate::task::TaskList;
use crate::task::TaskListFileType;
use crate::task::TaskListV;
use crate::task::StepV;
use crate::task::spec_parse_task_block;
use crate::task::task_views;
use crate::task::step_views;
use crate::task::parsing_step_views;
use crate::task::parsing_task_views;

verus! {

/// The message refusing a field of the wrong type.
pub open spec fn wrong_type_msg(key: Seq<char>) -> Seq<char> {
    "wrong value type under '"@ + key + "'"@
}

/// An optional string field of an object: a missing key or a null value
/// is `None`; anything but a string is refused.
pub open spec fn spec_str_field(fields: Seq<(Seq<char>, JsonV)>, key: Seq<char>) -> Result<
    Option<Seq<char>>,
    Seq<char>,
> {
    match spec_obj_lookup(fields, key) {
        None => Ok(None),
        Some(JsonV::Null) => Ok(None),
        Some(JsonV::Str(s)) => Ok(Some(s)),
        Some(_) => Err(wrong_type_msg(key)),
    }
}

/// An optional boolean field of an object, under the same rules.
pub open spec fn spec_bool_field(fields: Seq<(Seq<char>, JsonV)>, key: Seq<char>) -> Result<
    Option<bool>,
    Seq<char>,
> {
    match spec_obj_lookup(fields, key) {
        None => Ok(None),
        Some(JsonV::Null) => Ok(None),
        Some(JsonV::Bool(b)) => Ok(Some(b)),
        Some(_) => Err(wrong_type_msg(key)),
    }
}

fn wrong_type_err(key: &str) -> (r: Error)
    ensures
        r matches Error::FailureToParseContent(m) && m@ == wrong_type_msg(key@),
{
    Error::FailureToParseContent(concat3("wrong value type under '", key, "'"))
}

fn str_field(obj: &Json, key: &str) -> (r: Result<Option<String>, Error>)
    requires
        obj@ is Obj,
    ensures
        obj@ matches JsonV::Obj(fields) ==> match (r, spec_str_field(fields, key@)) {
            (Ok(o), Ok(so)) => opt_str_v(o) == so,
            (Err(e), Err(m)) => e matches Error::FailureToParseContent(em) && em@ == m,
            _ => false,
        },
{
    match obj.obj_get(key) {
        None => Ok(None),
        Some(v) => match v {
            Json::Null => Ok(None),
            Json::Str(s) => Ok(Some(s.clone())),
            _ => Err(wrong_type_err(key)),
        },
    }
}

fn bool_field(obj: &Json, key: &str) -> (r: Result<Option<bool>, Error>)
    requires
        obj@ is Obj,
    ensures
        obj@ matches JsonV::Obj(fields) ==> match (r, spec_bool_field(fields, key@)) {
            (Ok(o), Ok(so)) => o == so,
            (Err(e), Err(m)) => e matches Error::FailureToParseContent(em) && em@ == m,
            _ => false,
        },
{
    match obj.obj_get(key) {
        None => Ok(None),
        Some(v) => match v {
            Json::Null => Ok(None),
            Json::Bool(b) => Ok(Some(*b)),
            _ => Err(wrong_type_err(key)),
        },
    }
}

/// The apt / dnf / yum argument object.
pub open spec fn spec_pkg_from(fields: Seq<(Seq<char>, JsonV)>) -> Result<
    YumDnfBlockV,
    Seq<char>,
> {
    match spec_str_field(fields, "state"@) {
        Err(m) => Err(m),
        Ok(state) => match spec_str_field(fields, "package"@) {
            Err(m) => Err(m),
            Ok(package) => match spec_bool_field(fields, "upgrade"@) {
                Err(m) => Err(m),
                Ok(upgrade) => Ok(YumDnfBlockV { state, package, upgrade }),
            },
        },
    }
}

fn pkg_from(obj: &Json) -> (r: Result<YumDnfBlockExpectedState, Error>)
    requires
        obj@ is Obj,
    ensures
        obj@ matches JsonV::Obj(fields) ==> match (r, spec_pkg_from(fields)) {
            (Ok(b), Ok(bv)) => b@ == bv,
            (Err(e), Err(m)) => e matches Error::FailureToParseContent(em) && em@ == m,
            _ => false,
        },
{
    let state = str_field(obj, "state")?;
    let package = str_field(obj, "package")?;
    let upgrade = bool_field(obj, "upgrade")?;
    Ok(YumDnfBlockExpectedState { state, package, upgrade })
}

/// The service argument object; its `name` is required.
pub open spec fn spec_service_from(fields: Seq<(Seq<char>, JsonV)>) -> Result<
    ServiceBlockV,
    Seq<char>,
> {
    match spec_str_field(fields, "name"@) {
        Err(m) => Err(m),
        Ok(name_opt) => match name_opt {
            None => Err("the service module requires a name"@),
            Some(name) => match spec_str_field(fields, "state"@) {
                Err(m) => Err(m),
                Ok(state) => match spec_bool_field(fields, "enabled"@) {
                    Err(m) => Err(m),
                    Ok(enabled) => Ok(ServiceBlockV { name, state, enabled }),
                },
            },
        },
    }
}

fn service_from(obj: &Json) -> (r: Result<ServiceBlockExpectedState, Error>)
    requires
        obj@ is Obj,
    ensures
        obj@ matches JsonV::Obj(fields) ==> match (r, spec_service_from(fields)) {
            (Ok(b), Ok(bv)) => b@ == bv,
            (Err(e), Err(m)) => e matches Error::FailureToParseContent(em) && em@ == m,
            _ => false,
        },
{
    let name_opt = str_field(obj, "name")?;
    let name = match name_opt {
        None => {
            return Err(
                Error::FailureToParseContent("the service module requires a name".to_owned()),
            );
        },
        Some(name) => name,
    };
    let state = str_field(obj, "state")?;
    let enabled = bool_field(obj, "enabled")?;
    Ok(ServiceBlockExpectedState { name, state, enabled })
}

/// The lineinfile argument object; its `filepath` is required.
pub open spec fn spec_lineinfile_from(fields: Seq<(Seq<char>, JsonV)>) -> Result<
    LineInFileBlockV,
    Seq<char>,
> {
    match spec_str_field(fields, "filepath"@) {
        Err(m) => Err(m),
        Ok(fp_opt) => match fp_opt {
            None => Err("the lineinfile module requires a filepath"@),
            Some(filepath) => match spec_str_field(fields, "line"@) {
                Err(m) => Err(m),
                Ok(line) => match spec_str_field(fields, "state"@) {
                    Err(m) => Err(m),
                    Ok(state) => match spec_str_field(fields, "position"@) {
                        Err(m) => Err(m),
                        Ok(position) => Ok(
                            LineInFileBlockV { filepath, line, state, position },
                        ),
                    },
                },
            },
        },
    }
}

fn lineinfile_from(obj: &Json) -> (r: Result<LineInFileBlockExpectedState, Error>)
    requires
        obj@ is Obj,
    ensures
        obj@ matches JsonV::Obj(fields) ==> match (r, spec_lineinfile_from(fields)) {
            (Ok(b), Ok(bv)) => b@ == bv,
            (Err(e), Err(m)) => e matches Error::FailureToParseContent(em) && em@ == m,
            _ => false,
        },
{
    let fp_opt = str_field(obj, "filepath")?;
    let filepath = match fp_opt {
        None => {
            return Err(
                Error::FailureToParseContent(
                    "the lineinfile module requires a filepath".to_owned(),
                ),
            );
        },
        Some(filepath) => filepath,
    };
    let line = str_field(obj, "line")?;
    let state = str_field(obj, "state")?;
    let position = str_field(obj, "position")?;
    Ok(LineInFileBlockExpectedState { filepath, line, state, position })
}

/// The command argument object.
pub open spec fn spec_command_from(fields: Seq<(Seq<char>, JsonV)>) -> Result<
    CommandBlockV,
    Seq<char>,
> {
    match spec_str_field(fields, "content"@) {
        Err(m) => Err(m),
        Ok(content) => Ok(CommandBlockV { content }),
    }
}

fn command_from(obj: &Json) -> (r: Result<CommandBlockExpectedState, Error>)
    requires
        obj@ is Obj,
    ensures
        obj@ matches JsonV::Obj(fields) ==> match (r, spec_command_from(fields)) {
            (Ok(b), Ok(bv)) => b@ == bv,
            (Err(e), Err(m)) => e matches Error::FailureToParseContent(em) && em@ == m,
            _ => false,
        },
{
    let content = str_field(obj, "content")?;
    Ok(CommandBlockExpectedState { content })
}

/// The debug argument object; its `msg` is required.
pub open spec fn spec_debug_from(fields: Seq<(Seq<char>, JsonV)>) -> Result<
    DebugBlockV,
    Seq<char>,
> {
    match spec_str_field(fields, "msg"@) {
        Err(m) => Err(m),
        Ok(msg_opt) => match msg_opt {
            None => Err("the debug module requires a msg"@),
            Some(msg) => Ok(DebugBlockV { msg }),
        },
    }
}

fn debug_from(obj: &Json) -> (r: Result<DebugBlockExpectedState, Error>)
    requires
        obj@ is Obj,
    ensures
        obj@ matches JsonV::Obj(fields) ==> match (r, spec_debug_from(fields)) {
            (Ok(b), Ok(bv)) => b@ == bv,
            (Err(e), Err(m)) => e matches Error::FailureToParseContent(em) && em@ == m,
            _ => false,
        },
{
    let msg_opt = str_field(obj, "msg")?;
    match msg_opt {
        None => Err(Error::FailureToParseContent("the debug module requires a msg".to_owned())),
        Some(msg) => Ok(DebugBlockExpectedState { msg }),
    }
}

/// A module key's argument object, when the key is given at all: a
/// missing key or a null value means the module is not declared (the
/// reachability module, which takes no arguments, is the exception:
/// any value under `ping`, even null, declares it).
pub open spec fn spec_module_arg(fields: Seq<(Seq<char>, JsonV)>, key: Seq<char>) -> Result<
    Option<Seq<(Seq<char>, JsonV)>>,
    Seq<char>,
> {
    match spec_obj_lookup(fields, key) {
        None => Ok(None),
        Some(JsonV::Null) => Ok(None),
        Some(JsonV::Obj(f)) => Ok(Some(f)),
        Some(_) => Err(wrong_type_msg(key)),
    }
}

enum ModuleArg<'a> {
    Missing,
    Given(&'a Json),
}

fn module_arg<'a>(obj: &'a Json, key: &str) -> (r: Result<ModuleArg<'a>, Error>)
    requires
        obj@ is Obj,
    ensures
        obj@ matches JsonV::Obj(fields) ==> match (r, spec_module_arg(fields, key@)) {
            (Ok(ModuleArg::Missing), Ok(None)) => true,
            (Ok(ModuleArg::Given(v)), Ok(Some(f))) => v@ == JsonV::Obj(f),
            (Err(e), Err(m)) => e matches Error::FailureToParseContent(em) && em@ == m,
            _ => false,
        },
{
    match obj.obj_get(key) {
        None => Ok(ModuleArg::Missing),
        Some(v) => match v {
            Json::Null => Ok(ModuleArg::Missing),
            Json::Obj(_) => Ok(ModuleArg::Given(v)),
            _ => Err(wrong_type_err(key)),
        },
    }
}

/// The intermediate form a step object denotes.
pub open spec fn spec_step_from(j: JsonV) -> Result<ParsingStepV, Seq<char>> {
    match j {
        JsonV::Obj(fields) => match spec_str_field(fields, "name"@) {
            Err(m) => Err(m),
            Ok(name) => match spec_str_field(fields, "run_as"@) {
                Err(m) => Err(m),
                Ok(run_as) => match spec_bool_field(fields, "with_sudo"@) {
                    Err(m) => Err(m),
                    Ok(with_sudo) => match spec_bool_field(fields, "allowed_to_fail"@) {
                        Err(m) => Err(m),
                        Ok(allowed_to_fail) => match spec_str_field(fields, "register"@) {
                            Err(m) => Err(m),
                            Ok(register) => match spec_module_arg(fields, "service"@) {
                                Err(m) => Err(m),
                                Ok(service_f) => match spec_module_arg(fields, "lineinfile"@) {
                                    Err(m) => Err(m),
                                    Ok(lif_f) => match spec_module_arg(fields, "command"@) {
                                        Err(m) => Err(m),
                                        Ok(command_f) => match spec_module_arg(fields, "apt"@) {
                                            Err(m) => Err(m),
                                            Ok(apt_f) => match spec_module_arg(fields, "dnf"@) {
                                                Err(m) => Err(m),
                                                Ok(dnf_f) => match spec_module_arg(
                                                    fields,
                                                    "yum"@,
                                                ) {
                                                    Err(m) => Err(m),
                                                    Ok(yum_f) => match spec_module_arg(
                                                        fields,
                                                        "debug"@,
                                                    ) {
                                                        Err(m) => Err(m),
                                                        Ok(debug_f) => spec_step_assemble(
                                                            fields,
                                                            name,
                                                            run_as,
                                                            with_sudo,
                                                            allowed_to_fail,
                                                            register,
                                                            service_f,
                                                            lif_f,
                                                            command_f,
                                                            apt_f,
                                                            dnf_f,
                                                            yum_f,
                                                            debug_f,
                                                        ),
                                                    },
                                                },
                                            },
                                        },
                                    },
                                },
                            },
                        },
                    },
                },
            },
        },
        _ => Err("a step must be a mapping"@),
    }
}

/// The last leg of [`spec_step_from`]: each given module argument
/// object read by its module's rules.
pub open spec fn spec_step_assemble(
    fields: Seq<(Seq<char>, JsonV)>,
    name: Option<Seq<char>>,
    run_as: Option<Seq<char>>,
    with_sudo: Option<bool>,
    allowed_to_fail: Option<bool>,
    register: Option<Seq<char>>,
    service_f: Option<Seq<(Seq<char>, JsonV)>>,
    lif_f: Option<Seq<(Seq<char>, JsonV)>>,
    command_f: Option<Seq<(Seq<char>, JsonV)>>,
    apt_f: Option<Seq<(Seq<char>, JsonV)>>,
    dnf_f: Option<Seq<(Seq<char>, JsonV)>>,
    yum_f: Option<Seq<(Seq<char>, JsonV)>>,
    debug_f: Option<Seq<(Seq<char>, JsonV)>>,
) -> Result<ParsingStepV, Seq<char>> {
    let service = match service_f {
        None => Ok(None),
        Some(f) => match spec_service_from(f) {
            Ok(b) => Ok(Some(b)),
            Err(m) => Err(m),
        },
    };
    let lineinfile = match lif_f {
        None => Ok(None),
        Some(f) => match spec_lineinfile_from(f) {
            Ok(b) => Ok(Some(b)),
            Err(m) => Err(m),
        },
    };
    let command = match command_f {
        None => Ok(None),
        Some(f) => match spec_command_from(f) {
            Ok(b) => Ok(Some(b)),
            Err(m) => Err(m),
        },
    };
    let apt = match apt_f {
        None => Ok(None),
        Some(f) => match spec_pkg_from(f) {
            Ok(b) => Ok(Some(AptBlockV { state: b.state, package: b.package, upgrade: b.upgrade })),
            Err(m) => Err(m),
        },
    };
    let dnf = match dnf_f {
        None => Ok(None),
        Some(f) => match spec_pkg_from(f) {
            Ok(b) => Ok(Some(b)),
            Err(m) => Err(m),
        },
    };
    let yum = match yum_f {
        None => Ok(None),
        Some(f) => match spec_pkg_from(f) {
            Ok(b) => Ok(Some(b)),
            Err(m) => Err(m),
        },
    };
    let debug = match debug_f {
        None => Ok(None),
        Some(f) => match spec_debug_from(f) {
            Ok(b) => Ok(Some(b)),
            Err(m) => Err(m),
        },
    };
    match service {
        Err(m) => Err(m),
        Ok(service) => match lineinfile {
            Err(m) => Err(m),
            Ok(lineinfile) => match command {
                Err(m) => Err(m),
                Ok(command) => match apt {
                    Err(m) => Err(m),
                    Ok(apt) => match dnf {
                        Err(m) => Err(m),
                        Ok(dnf) => match yum {
                            Err(m) => Err(m),
                            Ok(yum) => match debug {
                                Err(m) => Err(m),
                                Ok(debug) => Ok(
                                    ParsingStepV {
                                        name,
                                        run_as,
                                        with_sudo,
                                        allowed_to_fail,
                                        register,
                                        service,
                                        lineinfile,
                                        command,
                                        apt,
                                        dnf,
                                        ping: spec_obj_lookup(fields, "ping"@) is Some,
                                        yum,
                                        debug,
                                    },
                                ),
                            },
                        },
                    },
                },
            },
        },
    }
}

/// Reads one step object into its intermediate form.
pub fn step_from_json(j: &Json) -> (r: Result<ParsingStep, Error>)
    ensures
        match (r, spec_step_from(j@)) {
            (Ok(p), Ok(pv)) => p@ == pv,
            (Err(e), Err(m)) => e matches Error::FailureToParseContent(em) && em@ == m,
            _ => false,
        },
{
    match j {
        Json::Obj(_) => {},
        _ => {
            return Err(Error::FailureToParseContent("a step must be a mapping".to_owned()));
        },
    }
    let name = str_field(j, "name")?;
    let run_as = str_field(j, "run_as")?;
    let with_sudo = bool_field(j, "with_sudo")?;
    let allowed_to_fail = bool_field(j, "allowed_to_fail")?;
    let register = str_field(j, "register")?;
    let service_arg = module_arg(j, "service")?;
    let lif_arg = module_arg(j, "lineinfile")?;
    let command_arg = module_arg(j, "command")?;
    let apt_arg = module_arg(j, "apt")?;
    let dnf_arg = module_arg(j, "dnf")?;
    let yum_arg = module_arg(j, "yum")?;
    let debug_arg = module_arg(j, "debug")?;
    let service = match service_arg {
        ModuleArg::Missing => None,
        ModuleArg::Given(v) => Some(service_from(v)?),
    };
    let lineinfile = match lif_arg {
        ModuleArg::Missing => None,
        ModuleArg::Given(v) => Some(lineinfile_from(v)?),
    };
    let command = match command_arg {
        ModuleArg::Missing => None,
        ModuleArg::Given(v) => Some(command_from(v)?),
    };
    let apt = match apt_arg {
        ModuleArg::Missing => None,
        ModuleArg::Given(v) => {
            let b = pkg_from(v)?;
            Some(
                AptBlockExpectedState { state: b.state, package: b.package, upgrade: b.upgrade },
            )
        },
    };
    let dnf = match dnf_arg {
        ModuleArg::Missing => None,
        ModuleArg::Given(v) => Some(pkg_from(v)?),
    };
    let yum = match yum_arg {
        ModuleArg::Missing => None,
        ModuleArg::Given(v) => Some(pkg_from(v)?),
    };
    let debug = match debug_arg {
        ModuleArg::Missing => None,
        ModuleArg::Given(v) => Some(debug_from(v)?),
    };
    let ping: Option<Option<PingBlockExpectedState>> = match j.obj_get("ping") {
        None => None,
        Some(_) => Some(Some(PingBlockExpectedState {  })),
    };
    Ok(
        ParsingStep {
            name,
            run_as,
            with_sudo,
            allowed_to_fail,
            register,
            service,
            lineinfile,
            command,
            apt,
            dnf,
            ping,
            yum,
            debug,
        },
    )
}

/// The intermediate steps a sequence of step objects denotes, stopped
/// at the first unreadable one.
pub open spec fn spec_steps_from(items: Seq<JsonV>) -> Result<Seq<ParsingStepV>, Seq<char>>
    decreases items.len(),
{
    if items.len() == 0 {
        Ok(Seq::empty())
    } else {
        match spec_step_from(items.first()) {
            Err(m) => Err(m),
            Ok(p) => match spec_steps_from(items.drop_first()) {
                Err(m) => Err(m),
                Ok(rest) => Ok(seq![p] + rest),
            },
        }
    }
}

/// The intermediate task a task object denotes; its `steps` sequence is
/// required.
pub open spec fn spec_taskblock_from(j: JsonV) -> Result<ParsingTaskBlockV, Seq<char>> {
    match j {
        JsonV::Obj(fields) => match spec_str_field(fields, "name"@) {
            Err(m) => Err(m),
            Ok(name) => match spec_bool_field(fields, "with_sudo"@) {
                Err(m) => Err(m),
                Ok(with_sudo) => match spec_obj_lookup(fields, "steps"@) {
                    Some(JsonV::Arr(items)) => match spec_steps_from(items) {
                        Err(m) => Err(m),
                        Ok(steps) => Ok(ParsingTaskBlockV { name, steps, with_sudo }),
                    },
                    _ => Err("a task must carry a sequence of steps"@),
                },
            },
        },
        _ => Err("a task must be a mapping"@),
    }
}

/// Reads one task object into its intermediate form.
#[verifier::loop_isolation(false)]
pub fn taskblock_from_json(j: &Json) -> (r: Result<ParsingTaskBlock, Error>)
    ensures
        match (r, spec_taskblock_from(j@)) {
            (Ok(p), Ok(pv)) => p@ == pv,
            (Err(e), Err(m)) => e matches Error::FailureToParseContent(em) && em@ == m,
            _ => false,
        },
{
    match j {
        Json::Obj(_) => {},
        _ => {
            return Err(Error::FailureToParseContent("a task must be a mapping".to_owned()));
        },
    }
    let name = str_field(j, "name")?;
    let with_sudo = bool_field(j, "with_sudo")?;
    let items = match j.obj_get("steps") {
        Some(v) => match v {
            Json::Arr(items) => items,
            _ => {
                return Err(
                    Error::FailureToParseContent(
                        "a task must carry a sequence of steps".to_owned(),
                    ),
                );
            },
        },
        None => {
            return Err(
                Error::FailureToParseContent("a task must carry a sequence of steps".to_owned()),
            );
        },
    };
    let ghost items_v = match spec_obj_lookup(j@->Obj_0, "steps"@) {
        Some(JsonV::Arr(iv)) => iv,
        _ => Seq::empty(),
    };
    proof {
        lemma_view_arr_len(items@);
        assert(view_arr(items@) == items_v);
        assert(items_v.skip(0) =~= items_v);
    }
    let mut steps: Vec<ParsingStep> = Vec::new();
    let mut i: usize = 0;
    proof {
        if spec_steps_from(items_v) is Ok {
            let sv = spec_steps_from(items_v)->Ok_0;
            assert(parsing_step_views(steps@) =~= sv.take(0));
            assert(sv =~= sv.take(0) + sv);
        }
    }
    while i < items.len()
        invariant
            i <= items@.len(),
            steps@.len() == i,
            items_v == view_arr(items@),
            items_v.len() == items@.len(),
            forall|k: int| 0 <= k < items@.len() ==> #[trigger] items_v[k] == items@[k]@,
            spec_steps_from(items_v.skip(i as int)) is Ok <==> spec_steps_from(items_v) is Ok,
            spec_steps_from(items_v) matches Err(m) ==> spec_steps_from(items_v.skip(i as int))
                matches Err(m2) && m2 == m,
            spec_steps_from(items_v) matches Ok(sv) ==> parsing_step_views(steps@)
                == sv.take(i as int) && (spec_steps_from(items_v.skip(i as int)) matches Ok(rest)
                && sv =~= sv.take(i as int) + rest),
        decreases items@.len() - i,
    {
        proof {
            assert(items_v.skip(i as int).first() == items_v[i as int]);
            assert(items_v.skip(i as int).drop_first() =~= items_v.skip(i as int + 1));
        }
        match step_from_json(&items[i]) {
            Ok(p) => {
                let ghost prev = steps@;
                steps.push(p);
                i = i + 1;
                proof {
                    if spec_steps_from(items_v) is Ok {
                        let sv = spec_steps_from(items_v)->Ok_0;
                        let tail = spec_steps_from(items_v.skip(i - 1))->Ok_0;
                        let rest = spec_steps_from(items_v.skip(i as int))->Ok_0;
                        assert(tail == seq![spec_step_from(items_v[i - 1])->Ok_0] + rest);
                        assert forall|k: int|
                            0 <= k < i implies #[trigger] parsing_step_views(steps@)[k] == sv.take(
                            i as int,
                        )[k] by {
                            if k < i - 1 {
                                assert(parsing_step_views(prev)[k] == prev[k]@);
                            }
                        }
                        assert(parsing_step_views(steps@) =~= sv.take(i as int));
                    }
                }
            },
            Err(e) => {
                proof {
                    assert(spec_steps_from(items_v.skip(i as int)) is Err);
                }
                return Err(e);
            },
        }
    }
    proof {
        assert(items_v.skip(i as int) =~= Seq::<JsonV>::empty());
        if spec_steps_from(items_v) is Ok {
            let sv = spec_steps_from(items_v)->Ok_0;
            assert(parsing_step_views(steps@) =~= sv);
        }
    }
    Ok(ParsingTaskBlock { name, steps, with_sudo })
}

/// The intermediate tasks a sequence of task objects denotes.
pub open spec fn spec_tasks_from(items: Seq<JsonV>) -> Result<Seq<ParsingTaskBlockV>, Seq<char>>
    decreases items.len(),
{
    if items.len() == 0 {
        Ok(Seq::empty())
    } else {
        match spec_taskblock_from(items.first()) {
            Err(m) => Err(m),
            Ok(p) => match spec_tasks_from(items.drop_first()) {
                Err(m) => Err(m),
                Ok(rest) => Ok(seq![p] + rest),
            },
        }
    }
}

/// Module resolution across whole intermediate tasks, in order.
pub open spec fn spec_resolve_tasks(pts: Seq<ParsingTaskBlockV>) -> Result<
    Seq<TaskBlockV>,
    Seq<char>,
>
    decreases pts.len(),
{
    if pts.len() == 0 {
        Ok(Seq::empty())
    } else {
        match spec_parse_task_block(pts.first().steps) {
            Err(m) => Err(m),
            Ok(steps) => match spec_resolve_tasks(pts.drop_first()) {
                Err(m) => Err(m),
                Ok(rest) => Ok(
                    seq![
                        TaskBlockV {
                            name: pts.first().name,
                            steps,
                            with_sudo: pts.first().with_sudo,
                        },
                    ] + rest,
                ),
            },
        }
    }
}

/// Why a document is not a task list: its shape does not fit the
/// schema, or a step does not resolve to exactly one module.
pub enum TaskListErrV {
    Shape(Seq<char>),
    Resolve(Seq<char>),
}

/// The task list a document denotes.
pub open spec fn spec_tasklist_from_json(j: JsonV) -> Result<TaskListV, TaskListErrV> {
    match j {
        JsonV::Arr(items) => match spec_tasks_from(items) {
            Err(m) => Err(TaskListErrV::Shape(m)),
            Ok(pts) => match spec_resolve_tasks(pts) {
                Err(m) => Err(TaskListErrV::Resolve(m)),
                Ok(tasks) => Ok(TaskListV { tasks }),
            },
        },
        _ => Err(TaskListErrV::Shape("a task list must be a sequence of tasks"@)),
    }
}

/// A read task list agrees with what the document denotes: shape errors
/// are parse failures, module-resolution errors are initialization
/// failures.
pub open spec fn tasklist_agrees(r: Result<TaskList, Error>, s: Result<TaskListV, TaskListErrV>,) -> bool {
    match (r, s) {
        (Ok(t), Ok(tv)) => t@ == tv,
        (Err(e), Err(TaskListErrV::Shape(m))) => e matches Error::FailureToParseContent(em) && em@
            == m,
        (Err(e), Err(TaskListErrV::Resolve(m))) => e matches Error::FailedInitialization(em)
            && em@ == m,
        _ => false,
    }
}

/// Reads a whole parsed document into a task list: the document must be
/// a sequence of task objects, and every step of every task must
/// resolve to exactly one module.
#[verifier::loop_isolation(false)]
pub fn tasklist_from_json(j: &Json) -> (r: Result<TaskList, Error>)
    ensures
        tasklist_agrees(r, spec_tasklist_from_json(j@)),
{
    let items = match j {
        Json::Arr(items) => items,
        _ => {
            return Err(
                Error::FailureToParseContent("a task list must be a sequence of tasks".to_owned()),
            );
        },
    };
    let ghost items_v = j@->Arr_0;
    proof {
        lemma_view_arr_len(items@);
        assert(view_arr(items@) == items_v);
        assert(items_v.skip(0) =~= items_v);
    }
    let mut parsed: Vec<ParsingTaskBlock> = Vec::new();
    let mut i: usize = 0;
    proof {
        if spec_tasks_from(items_v) is Ok {
            let sv = spec_tasks_from(items_v)->Ok_0;
            assert(parsing_task_views(parsed@) =~= sv.take(0));
            assert(sv =~= sv.take(0) + sv);
        }
    }
    while i < items.len()
        invariant
            i <= items@.len(),
            parsed@.len() == i,
            items_v == view_arr(items@),
            items_v.len() == items@.len(),
            forall|k: int| 0 <= k < items@.len() ==> #[trigger] items_v[k] == items@[k]@,
            spec_tasks_from(items_v.skip(i as int)) is Ok <==> spec_tasks_from(items_v) is Ok,
            spec_tasks_from(items_v) matches Err(m) ==> spec_tasks_from(items_v.skip(i as int))
                matches Err(m2) && m2 == m,
            spec_tasks_from(items_v) matches Ok(sv) ==> parsing_task_views(parsed@) == sv.take(i as int) && (spec_tasks_from(items_v.skip(i as int)) matches Ok(rest)
                && sv =~= sv.take(i as int) + rest),
        decreases items@.len() - i,
    {
        proof {
            assert(items_v.skip(i as int).first() == items_v[i as int]);
            assert(items_v.skip(i as int).drop_first() =~= items_v.skip(i as int + 1));
        }
        match taskblock_from_json(&items[i]) {
            Ok(p) => {
                let ghost prev = parsed@;
                parsed.push(p);
                i = i + 1;
                proof {
                    if spec_tasks_from(items_v) is Ok {
                        let sv = spec_tasks_from(items_v)->Ok_0;
                        let tail = spec_tasks_from(items_v.skip(i - 1))->Ok_0;
                        let rest = spec_tasks_from(items_v.skip(i as int))->Ok_0;
                        assert(tail == seq![spec_taskblock_from(items_v[i - 1])->Ok_0] + rest);
                        assert forall|k: int|
                            0 <= k < i implies #[trigger] parsing_task_views(parsed@)[k] == sv.take(i as int)[k] by {
                            if k < i - 1 {
                                assert(parsing_task_views(prev)[k] == prev[k]@);
                            }
                        }
                        assert(parsing_task_views(parsed@) =~= sv.take(
                            i as int,
                        ));
                    }
                }
            },
            Err(e) => {
                proof {
                    assert(spec_tasks_from(items_v.skip(i as int)) is Err);
                }
                return Err(e);
            },
        }
    }
    proof {
        assert(items_v.skip(i as int) =~= Seq::<JsonV>::empty());
        if spec_tasks_from(items_v) is Ok {
            let sv = spec_tasks_from(items_v)->Ok_0;
            assert(parsing_task_views(parsed@) =~= sv);
        }
    }
    let ghost pts = parsing_task_views(parsed@);
    let mut tasks: Vec<TaskBlock> = Vec::new();
    let mut i2: usize = 0;
    proof {
        assert(pts.skip(0) =~= pts);
        if spec_resolve_tasks(pts) is Ok {
            let sv = spec_resolve_tasks(pts)->Ok_0;
            assert(task_views(tasks@) =~= sv.take(0));
            assert(sv =~= sv.take(0) + sv);
        }
    }
    while i2 < parsed.len()
        invariant
            i2 <= parsed@.len(),
            tasks@.len() == i2,
            pts == parsing_task_views(parsed@),
            pts.len() == parsed@.len(),
            forall|k: int| 0 <= k < parsed@.len() ==> #[trigger] pts[k] == parsed@[k]@,
            spec_resolve_tasks(pts.skip(i2 as int)) is Ok <==> spec_resolve_tasks(pts) is Ok,
            spec_resolve_tasks(pts) matches Err(m) ==> spec_resolve_tasks(pts.skip(i2 as int))
                matches Err(m2) && m2 == m,
            spec_resolve_tasks(pts) matches Ok(sv) ==> task_views(tasks@) == sv.take(i2 as int)
                && (spec_resolve_tasks(pts.skip(i2 as int)) matches Ok(rest) && sv =~= sv.take(
                i2 as int,
            ) + rest),
        decreases parsed@.len() - i2,
    {
        proof {
            assert(pts.skip(i2 as int).first() == pts[i2 as int]);
            assert(pts.skip(i2 as int).drop_first() =~= pts.skip(i2 as int + 1));
        }
        match parsed[i2].parse_task_block() {
            Ok(tb) => {
                let ghost prev = tasks@;
                tasks.push(tb);
                i2 = i2 + 1;
                proof {
                    if spec_resolve_tasks(pts) is Ok {
                        let sv = spec_resolve_tasks(pts)->Ok_0;
                        let tail = spec_resolve_tasks(pts.skip(i2 - 1))->Ok_0;
                        let rest = spec_resolve_tasks(pts.skip(i2 as int))->Ok_0;
                        assert(tail.first() == tail[0]);
                        assert forall|k: int|
                            0 <= k < i2 implies #[trigger] task_views(tasks@)[k] == sv.take(
                            i2 as int,
                        )[k] by {
                            if k < i2 - 1 {
                                assert(task_views(prev)[k] == prev[k]@);
                            }
                        }
                        assert(task_views(tasks@) =~= sv.take(i2 as int));
                    }
                }
            },
            Err(e) => {
                proof {
                    assert(spec_resolve_tasks(pts.skip(i2 as int)) is Err);
                }
                return Err(e);
            },
        }
    }
    proof {
        assert(pts.skip(i2 as int) =~= Seq::<ParsingTaskBlockV>::empty());
        if spec_resolve_tasks(pts) is Ok {
            let sv = spec_resolve_tasks(pts)->Ok_0;
            assert(task_views(tasks@) =~= sv);
        }
    }
    Ok(TaskList { tasks })
}

/// What a task-list text denotes, given the document its format reader
/// found in it (or none).
pub open spec fn spec_tasklist_from_doc(doc: Option<JsonV>) -> Result<TaskListV, Option<
    TaskListErrV,
>> {
    match doc {
        None => Err(None),
        Some(j) => match spec_tasklist_from_json(j) {
            Ok(t) => Ok(t),
            Err(e) => Err(Some(e)),
        },
    }
}

/// A task list read from text agrees with what the text denotes; when
/// the text is not even a document, the error carries the reader's own
/// message.
pub open spec fn tasklist_doc_agrees(r: Result<TaskList, Error>, s: Result<TaskListV, Option<
    TaskListErrV,
>>,) -> bool {
    match (r, s) {
        (Ok(t), Ok(tv)) => t@ == tv,
        (Err(e), Err(None)) => e is FailureToParseContent,
        (Err(e), Err(Some(TaskListErrV::Shape(m)))) => e matches Error::FailureToParseContent(em)
            && em@ == m,
        (Err(e), Err(Some(TaskListErrV::Resolve(m)))) => e matches Error::FailedInitialization(em)
            && em@ == m,
        _ => false,
    }
}

fn tasklist_from_yaml(raw_content: &str) -> (r: Result<TaskList, Error>)
    ensures
        tasklist_doc_agrees(r, spec_tasklist_from_doc(crate::json::yaml_doc_of(raw_content@))),
{
    match crate::json::parse_yaml(raw_content) {
        Ok(doc) => tasklist_from_json(&doc),
        Err(m) => Err(Error::FailureToParseContent(m)),
    }
}

fn tasklist_from_json_text(raw_content: &str) -> (r: Result<TaskList, Error>)
    ensures
        tasklist_doc_agrees(r, spec_tasklist_from_doc(crate::json::json_doc_of(raw_content@))),
{
    match crate::json::parse_json(raw_content) {
        Ok(doc) => tasklist_from_json(&doc),
        Err(m) => Err(Error::FailureToParseContent(m)),
    }
}

/// A string option as a document value: the string, or null.
pub open spec fn null_or_str(o: Option<Seq<char>>) -> JsonV {
    match o {
        Some(s) => JsonV::Str(s),
        None => JsonV::Null,
    }
}

/// A boolean option as a document value: the flag, or null.
pub open spec fn null_or_bool(o: Option<bool>) -> JsonV {
    match o {
        Some(b) => JsonV::Bool(b),
        None => JsonV::Null,
    }
}

fn str_opt_json(o: &Option<String>) -> (r: Json)
    ensures
        r@ == null_or_str(opt_str_v(*o)),
{
    match o {
        Some(s) => Json::Str(s.clone()),
        None => Json::Null,
    }
}

fn bool_opt_json(o: &Option<bool>) -> (r: Json)
    ensures
        r@ == null_or_bool(*o),
{
    match o {
        Some(b) => Json::Bool(*b),
        None => Json::Null,
    }
}

/// The document field a module directive serializes to: its key and its
/// argument object. An unset module serializes to nothing.
pub open spec fn spec_module_to_field(m: ModuleV) -> Option<(Seq<char>, JsonV)> {
    match m {
        ModuleV::Unset => None,
        ModuleV::Service(b) => Some(
            (
                "service"@,
                JsonV::Obj(
                    seq![
                        ("name"@, JsonV::Str(b.name)),
                        ("state"@, null_or_str(b.state)),
                        ("enabled"@, null_or_bool(b.enabled)),
                    ],
                ),
            ),
        ),
        ModuleV::LineInFile(b) => Some(
            (
                "lineinfile"@,
                JsonV::Obj(
                    seq![
                        ("filepath"@, JsonV::Str(b.filepath)),
                        ("line"@, null_or_str(b.line)),
                        ("state"@, null_or_str(b.state)),
                        ("position"@, null_or_str(b.position)),
                    ],
                ),
            ),
        ),
        ModuleV::Command(b) => Some(
            ("command"@, JsonV::Obj(seq![("content"@, null_or_str(b.content))])),
        ),
        ModuleV::Apt(b) => Some(
            (
                "apt"@,
                JsonV::Obj(
                    seq![
                        ("state"@, null_or_str(b.state)),
                        ("package"@, null_or_str(b.package)),
                        ("upgrade"@, null_or_bool(b.upgrade)),
                    ],
                ),
            ),
        ),
        ModuleV::Dnf(b) => Some(
            (
                "dnf"@,
                JsonV::Obj(
                    seq![
                        ("state"@, null_or_str(b.state)),
                        ("package"@, null_or_str(b.package)),
                        ("upgrade"@, null_or_bool(b.upgrade)),
                    ],
                ),
            ),
        ),
        ModuleV::Yum(b) => Some(
            (
                "yum"@,
                JsonV::Obj(
                    seq![
                        ("state"@, null_or_str(b.state)),
                        ("package"@, null_or_str(b.package)),
                        ("upgrade"@, null_or_bool(b.upgrade)),
                    ],
                ),
            ),
        ),
        ModuleV::Ping => Some(("ping"@, JsonV::Null)),
        ModuleV::Debug(b) => Some(("debug"@, JsonV::Obj(seq![("msg"@, JsonV::Str(b.msg))]))),
    }
}

/// The document a step serializes to: the policy fields, then the one
/// module field.
pub open spec fn spec_step_to_json(s: StepV) -> JsonV {
    let base = seq![
        ("name"@, null_or_str(s.name)),
        ("run_as"@, null_or_str(s.run_as)),
        ("with_sudo"@, null_or_bool(s.with_sudo)),
        ("allowed_to_fail"@, null_or_bool(s.allowed_to_fail)),
        ("register"@, null_or_str(s.register)),
    ];
    match spec_module_to_field(s.moduleblock) {
        Some(f) => JsonV::Obj(base.push(f)),
        None => JsonV::Obj(base),
    }
}

/// The document a task serializes to.
pub open spec fn spec_task_to_json(t: TaskBlockV) -> JsonV {
    JsonV::Obj(
        seq![
            ("name"@, null_or_str(t.name)),
            ("with_sudo"@, null_or_bool(t.with_sudo)),
            ("steps"@, JsonV::Arr(t.steps.map_values(|s: StepV| spec_step_to_json(s)))),
        ],
    )
}

/// The document a task list serializes to.
pub open spec fn spec_tasklist_to_json(t: TaskListV) -> JsonV {
    JsonV::Arr(t.tasks.map_values(|tb: TaskBlockV| spec_task_to_json(tb)))
}

/// Serializes a module directive to its document field.
pub fn module_to_json(m: &crate::modules::ModuleBlockExpectedState) -> (r: Option<(String, Json)>)
    ensures
        match (r, spec_module_to_field(m@)) {
            (Some((k, v)), Some(f)) => k@ == f.0 && v@ == f.1,
            (None, None) => true,
            _ => false,
        },
{
    match m {
        crate::modules::ModuleBlockExpectedState::Unset => None,
        crate::modules::ModuleBlockExpectedState::Service(b) => {
            let mut fields: Vec<(String, Json)> = Vec::new();
            fields.push(("name".to_owned(), Json::Str(b.name.clone())));
            fields.push(("state".to_owned(), str_opt_json(&b.state)));
            fields.push(("enabled".to_owned(), bool_opt_json(&b.enabled)));
            proof {
                lemma_view_obj_len(fields@);
                assert(view_obj(fields@) =~= spec_module_to_field(m@).unwrap().1->Obj_0);
            }
            Some(("service".to_owned(), Json::Obj(fields)))
        },
        crate::modules::ModuleBlockExpectedState::LineInFile(b) => {
            let mut fields: Vec<(String, Json)> = Vec::new();
            fields.push(("filepath".to_owned(), Json::Str(b.filepath.clone())));
            fields.push(("line".to_owned(), str_opt_json(&b.line)));
            fields.push(("state".to_owned(), str_opt_json(&b.state)));
            fields.push(("position".to_owned(), str_opt_json(&b.position)));
            proof {
                lemma_view_obj_len(fields@);
                assert(view_obj(fields@) =~= spec_module_to_field(m@).unwrap().1->Obj_0);
            }
            Some(("lineinfile".to_owned(), Json::Obj(fields)))
        },
        crate::modules::ModuleBlockExpectedState::Command(b) => {
            let mut fields: Vec<(String, Json)> = Vec::new();
            fields.push(("content".to_owned(), str_opt_json(&b.content)));
            proof {
                lemma_view_obj_len(fields@);
                assert(view_obj(fields@) =~= spec_module_to_field(m@).unwrap().1->Obj_0);
            }
            Some(("command".to_owned(), Json::Obj(fields)))
        },
        crate::modules::ModuleBlockExpectedState::Apt(b) => {
            let mut fields: Vec<(String, Json)> = Vec::new();
            fields.push(("state".to_owned(), str_opt_json(&b.state)));
            fields.push(("package".to_owned(), str_opt_json(&b.package)));
            fields.push(("upgrade".to_owned(), bool_opt_json(&b.upgrade)));
            proof {
                lemma_view_obj_len(fields@);
                assert(view_obj(fields@) =~= spec_module_to_field(m@).unwrap().1->Obj_0);
            }
            Some(("apt".to_owned(), Json::Obj(fields)))
        },
        crate::modules::ModuleBlockExpectedState::Dnf(b) => {
            let mut fields: Vec<(String, Json)> = Vec::new();
            fields.push(("state".to_owned(), str_opt_json(&b.state)));
            fields.push(("package".to_owned(), str_opt_json(&b.package)));
            fields.push(("upgrade".to_owned(), bool_opt_json(&b.upgrade)));
            proof {
                lemma_view_obj_len(fields@);
                assert(view_obj(fields@) =~= spec_module_to_field(m@).unwrap().1->Obj_0);
            }
            Some(("dnf".to_owned(), Json::Obj(fields)))
        },
        crate::modules::ModuleBlockExpectedState::Yum(b) => {
            let mut fields: Vec<(String, Json)> = Vec::new();
            fields.push(("state".to_owned(), str_opt_json(&b.state)));
            fields.push(("package".to_owned(), str_opt_json(&b.package)));
            fields.push(("upgrade".to_owned(), bool_opt_json(&b.upgrade)));
            proof {
                lemma_view_obj_len(fields@);
                assert(view_obj(fields@) =~= spec_module_to_field(m@).unwrap().1->Obj_0);
            }
            Some(("yum".to_owned(), Json::Obj(fields)))
        },
        crate::modules::ModuleBlockExpectedState::Ping(_) => Some(
            ("ping".to_owned(), Json::Null),
        ),
        crate::modules::ModuleBlockExpectedState::Debug(b) => {
            let mut fields: Vec<(String, Json)> = Vec::new();
            fields.push(("msg".to_owned(), Json::Str(b.msg.clone())));
            proof {
                lemma_view_obj_len(fields@);
                assert(view_obj(fields@) =~= spec_module_to_field(m@).unwrap().1->Obj_0);
            }
            Some(("debug".to_owned(), Json::Obj(fields)))
        },
    }
}

/// Serializes a step to its document form.
pub fn step_to_json(s: &crate::task::Step) -> (r: Json)
    ensures
        r@ == spec_step_to_json(s@),
{
    let mut fields: Vec<(String, Json)> = Vec::new();
    fields.push(("name".to_owned(), str_opt_json(&s.name)));
    fields.push(("run_as".to_owned(), str_opt_json(&s.run_as)));
    fields.push(("with_sudo".to_owned(), bool_opt_json(&s.with_sudo)));
    fields.push(("allowed_to_fail".to_owned(), bool_opt_json(&s.allowed_to_fail)));
    fields.push(("register".to_owned(), str_opt_json(&s.register)));
    match module_to_json(&s.moduleblock) {
        Some((k, v)) => {
            fields.push((k, v));
        },
        None => {},
    }
    proof {
        lemma_view_obj_len(fields@);
        assert(view_obj(fields@) =~= spec_step_to_json(s@)->Obj_0);
    }
    Json::Obj(fields)
}

/// Serializes a task to its document form.
#[verifier::loop_isolation(false)]
pub fn task_to_json(t: &TaskBlock) -> (r: Json)
    ensures
        r@ == spec_task_to_json(t@),
{
    let mut items: Vec<Json> = Vec::new();
    let mut i: usize = 0;
    let ghost steps_doc = t@.steps.map_values(|s: StepV| spec_step_to_json(s));
    while i < t.steps.len()
        invariant
            i <= t.steps@.len(),
            items@.len() == i,
            forall|k: int| 0 <= k < i ==> #[trigger] items@[k]@ == steps_doc[k],
        decreases t.steps@.len() - i,
    {
        items.push(step_to_json(&t.steps[i]));
        i = i + 1;
        proof {
            assert(step_views(t.steps@)[i - 1] == t.steps@[i - 1]@);
        }
    }
    proof {
        lemma_view_arr_len(items@);
        assert(view_arr(items@) =~= steps_doc);
    }
    let mut fields: Vec<(String, Json)> = Vec::new();
    fields.push(("name".to_owned(), str_opt_json(&t.name)));
    fields.push(("with_sudo".to_owned(), bool_opt_json(&t.with_sudo)));
    fields.push(("steps".to_owned(), Json::Arr(items)));
    proof {
        lemma_view_obj_len(fields@);
        assert(view_obj(fields@) =~= spec_task_to_json(t@)->Obj_0);
    }
    Json::Obj(fields)
}

impl TaskList {
    /// Serializes the whole task list to its document form.
    #[verifier::loop_isolation(false)]
    pub fn to_json(&self) -> (r: Json)
        ensures
            r@ == spec_tasklist_to_json(self@),
    {
        let mut items: Vec<Json> = Vec::new();
        let mut i: usize = 0;
        let ghost tasks_doc = self@.tasks.map_values(|tb: TaskBlockV| spec_task_to_json(tb));
        while i < self.tasks.len()
            invariant
                i <= self.tasks@.len(),
                items@.len() == i,
                forall|k: int| 0 <= k < i ==> #[trigger] items@[k]@ == tasks_doc[k],
            decreases self.tasks@.len() - i,
        {
            items.push(task_to_json(&self.tasks[i]));
            i = i + 1;
            proof {
                assert(task_views(self.tasks@)[i - 1] == self.tasks@[i - 1]@);
            }
        }
        proof {
            lemma_view_arr_len(items@);
            assert(view_arr(items@) =~= tasks_doc);
        }
        Json::Arr(items)
    }
}

/// The schema's keys, pinned down so that distinct keys are provably
/// distinct sequences.
proof fn lemma_schema_keys()
    ensures
        ("name"@).len() == 4,
        ("run_as"@).len() == 6,
        ("with_sudo"@).len() == 9,
        ("allowed_to_fail"@).len() == 15,
        ("register"@).len() == 8,
        ("service"@).len() == 7,
        ("lineinfile"@).len() == 10,
        ("command"@).len() == 7,
        ("apt"@).len() == 3,
        ("dnf"@).len() == 3,
        ("ping"@).len() == 4,
        ("yum"@).len() == 3,
        ("debug"@).len() == 5,
        ("state"@).len() == 5,
        ("package"@).len() == 7,
        ("upgrade"@).len() == 7,
        ("enabled"@).len() == 7,
        ("filepath"@).len() == 8,
        ("line"@).len() == 4,
        ("position"@).len() == 8,
        ("content"@).len() == 7,
        ("msg"@).len() == 3,
        ("steps"@).len() == 5,
        "service"@ != "command"@,
        "apt"@ != "dnf"@,
        "apt"@ != "yum"@,
        "dnf"@ != "yum"@,
        "name"@ != "ping"@,
        "name"@ != "line"@,
        "ping"@ != "line"@,
        "filepath"@ != "position"@,
        "package"@ != "upgrade"@,
        "package"@ != "enabled"@,
        "package"@ != "content"@,
        "upgrade"@ != "enabled"@,
        "upgrade"@ != "content"@,
        "enabled"@ != "content"@,
        "state"@ != "debug"@,
        "state"@ != "steps"@,
        "debug"@ != "steps"@,
        "service"@ != "package"@,
        "service"@ != "upgrade"@,
        "service"@ != "enabled"@,
        "service"@ != "content"@,
        "command"@ != "package"@,
        "command"@ != "upgrade"@,
        "command"@ != "enabled"@,
        "command"@ != "content"@,
        "register"@ != "filepath"@,
        "register"@ != "position"@,
{
    reveal_strlit("name");
    reveal_strlit("run_as");
    reveal_strlit("with_sudo");
    reveal_strlit("allowed_to_fail");
    reveal_strlit("register");
    reveal_strlit("service");
    reveal_strlit("lineinfile");
    reveal_strlit("command");
    reveal_strlit("apt");
    reveal_strlit("dnf");
    reveal_strlit("ping");
    reveal_strlit("yum");
    reveal_strlit("debug");
    reveal_strlit("state");
    reveal_strlit("package");
    reveal_strlit("upgrade");
    reveal_strlit("enabled");
    reveal_strlit("filepath");
    reveal_strlit("line");
    reveal_strlit("position");
    reveal_strlit("content");
    reveal_strlit("msg");
    reveal_strlit("steps");
    assert(("service"@)[0] == 's');
    assert(("command"@)[0] == 'c');
    assert(("apt"@)[0] == 'a');
    assert(("dnf"@)[0] == 'd');
    assert(("yum"@)[0] == 'y');
    assert(("name"@)[0] == 'n');
    assert(("ping"@)[0] == 'p');
    assert(("line"@)[0] == 'l');
    assert(("filepath"@)[0] == 'f');
    assert(("position"@)[0] == 'p');
    assert(("package"@)[0] == 'p');
    assert(("upgrade"@)[0] == 'u');
    assert(("enabled"@)[0] == 'e');
    assert(("content"@)[0] == 'c');
    assert(("state"@)[0] == 's');
    assert(("debug"@)[0] == 'd');
    assert(("steps"@)[0] == 's');
    assert(("state"@)[1] == 't');
    assert(("steps"@)[1] == 't');
    assert(("state"@)[2] == 'a');
    assert(("steps"@)[2] == 'e');
    assert(("register"@)[0] == 'r');
    assert(("command"@)[2] == 'm');
    assert(("content"@)[2] == 'n');
}

/// Every step of the task list carries a module directive.
pub open spec fn one_module_per_step(t: TaskListV) -> bool {
    forall|i: int, j: int|
        0 <= i < t.tasks.len() && 0 <= j < t.tasks[i].steps.len() ==> !((
        #[trigger] t.tasks[i].steps[j]).moduleblock is Unset)
}

/// One step survives the round trip: serialized and read back, it is
/// an intermediate step carrying exactly its module, and module
/// resolution returns it unchanged.
pub proof fn lemma_step_round_trip(s: StepV)
    requires
        !(s.moduleblock is Unset),
    ensures
        spec_step_from(spec_step_to_json(s)) matches Ok(p) && crate::task::spec_parsemodule(p)
            == Ok::<StepV, Seq<char>>(s),
{
    lemma_schema_keys();
    let doc = spec_step_to_json(s);
    let f = spec_module_to_field(s.moduleblock).unwrap();
    let fields = doc->Obj_0;
    assert(fields.len() == 6);
    assert(fields[0].0 == "name"@ && fields[0].1 == null_or_str(s.name));
    assert(fields[1].0 == "run_as"@);
    assert(fields[2].0 == "with_sudo"@);
    assert(fields[3].0 == "allowed_to_fail"@);
    assert(fields[4].0 == "register"@);
    assert(fields[5] == f);
    lemma_lookup_at(fields, 0, "name"@);
    lemma_lookup_at(fields, 1, "run_as"@);
    lemma_lookup_at(fields, 2, "with_sudo"@);
    lemma_lookup_at(fields, 3, "allowed_to_fail"@);
    lemma_lookup_at(fields, 4, "register"@);
    lemma_lookup_at(fields, 5, f.0);
    assert forall|k: Seq<char>|
        k != "name"@ && k != "run_as"@ && k != "with_sudo"@ && k != "allowed_to_fail"@ && k
            != "register"@ && k != f.0 implies #[trigger] spec_obj_lookup(fields, k)
        is None by {
        lemma_lookup_absent(fields, k);
    }
    match s.moduleblock {
        ModuleV::Service(b) => {
            let mf = f.1->Obj_0;
            lemma_lookup_at(mf, 0, "name"@);
            lemma_lookup_at(mf, 1, "state"@);
            lemma_lookup_at(mf, 2, "enabled"@);
        },
        ModuleV::LineInFile(b) => {
            let mf = f.1->Obj_0;
            lemma_lookup_at(mf, 0, "filepath"@);
            lemma_lookup_at(mf, 1, "line"@);
            lemma_lookup_at(mf, 2, "state"@);
            lemma_lookup_at(mf, 3, "position"@);
        },
        ModuleV::Command(b) => {
            let mf = f.1->Obj_0;
            lemma_lookup_at(mf, 0, "content"@);
        },
        ModuleV::Apt(b) => {
            let mf = f.1->Obj_0;
            lemma_lookup_at(mf, 0, "state"@);
            lemma_lookup_at(mf, 1, "package"@);
            lemma_lookup_at(mf, 2, "upgrade"@);
        },
        ModuleV::Dnf(b) => {
            let mf = f.1->Obj_0;
            lemma_lookup_at(mf, 0, "state"@);
            lemma_lookup_at(mf, 1, "package"@);
            lemma_lookup_at(mf, 2, "upgrade"@);
        },
        ModuleV::Yum(b) => {
            let mf = f.1->Obj_0;
            lemma_lookup_at(mf, 0, "state"@);
            lemma_lookup_at(mf, 1, "package"@);
            lemma_lookup_at(mf, 2, "upgrade"@);
        },
        ModuleV::Debug(b) => {
            let mf = f.1->Obj_0;
            lemma_lookup_at(mf, 0, "msg"@);
        },
        _ => {},
    }
    let p = spec_step_from(doc)->Ok_0;
    assert(crate::task::module_count(p) == 1);
    assert(crate::task::chosen_module(p) == s.moduleblock);
}

/// One task survives the round trip.
pub proof fn lemma_task_round_trip(t: TaskBlockV)
    requires
        forall|j: int| 0 <= j < t.steps.len() ==> !((#[trigger] t.steps[j]).moduleblock is Unset),
    ensures
        spec_taskblock_from(spec_task_to_json(t)) matches Ok(pt) && pt.name == t.name
            && pt.with_sudo == t.with_sudo && spec_parse_task_block(pt.steps) == Ok::<Seq<StepV>, Seq<char>>(t.steps),
{
    lemma_schema_keys();
    let doc = spec_task_to_json(t);
    let fields = doc->Obj_0;
    lemma_lookup_at(fields, 0, "name"@);
    lemma_lookup_at(fields, 1, "with_sudo"@);
    lemma_lookup_at(fields, 2, "steps"@);
    let items = t.steps.map_values(|s: StepV| spec_step_to_json(s));
    lemma_steps_round_trip(t.steps);
    let pt = spec_taskblock_from(doc)->Ok_0;
    assert(pt.steps == spec_steps_from(items)->Ok_0);
}

/// A sequence of steps survives the round trip.
proof fn lemma_steps_round_trip(steps: Seq<StepV>)
    requires
        forall|j: int| 0 <= j < steps.len() ==> !((#[trigger] steps[j]).moduleblock is Unset),
    ensures
        spec_steps_from(steps.map_values(|s: StepV| spec_step_to_json(s))) matches Ok(ps)
            && spec_parse_task_block(ps) == Ok::<Seq<StepV>, Seq<char>>(steps),
    decreases steps.len(),
{
    let items = steps.map_values(|s: StepV| spec_step_to_json(s));
    if steps.len() == 0 {
        assert(items.len() == 0);
        assert(spec_steps_from(items) == Ok::<Seq<ParsingStepV>, Seq<char>>(Seq::empty()));
        assert(spec_parse_task_block(Seq::<ParsingStepV>::empty()) == Ok::<Seq<StepV>, Seq<char>>(
            Seq::empty(),
        ));
        assert(steps =~= Seq::<StepV>::empty());
    } else {
        lemma_step_round_trip(steps.first());
        lemma_steps_round_trip(steps.drop_first());
        assert(items.first() == spec_step_to_json(steps.first()));
        assert(items.drop_first() =~= steps.drop_first().map_values(
            |s: StepV| spec_step_to_json(s),
        ));
        let p0 = spec_step_from(items.first())->Ok_0;
        let rest = spec_steps_from(items.drop_first())->Ok_0;
        let ps = spec_steps_from(items)->Ok_0;
        assert(ps == seq![p0] + rest);
        assert(ps.first() == p0);
        assert(ps.drop_first() =~= rest);
        assert(spec_parse_task_block(ps) == Ok::<Seq<StepV>, Seq<char>>(seq![steps.first()] + steps.drop_first()));
        assert(seq![steps.first()] + steps.drop_first() =~= steps);
    }
}

/// Parsing round trip: a task list in which every step carries exactly
/// one module directive, serialized to a document and read back, is
/// itself.
pub proof fn lemma_tasklist_round_trip(t: TaskListV)
    requires
        one_module_per_step(t),
    ensures
        spec_tasklist_from_json(spec_tasklist_to_json(t)) == Ok::<TaskListV, TaskListErrV>(t),
{
    lemma_tasks_round_trip(t.tasks);
    let items = t.tasks.map_values(|tb: TaskBlockV| spec_task_to_json(tb));
    let pts = spec_tasks_from(items)->Ok_0;
    assert(spec_resolve_tasks(pts) == Ok::<Seq<TaskBlockV>, Seq<char>>(t.tasks));
    assert(spec_tasklist_from_json(spec_tasklist_to_json(t))->Ok_0 == TaskListV {
        tasks: t.tasks,
    });
    assert(spec_tasklist_from_json(spec_tasklist_to_json(t))->Ok_0 == t);
}

/// A sequence of tasks survives the round trip.
proof fn lemma_tasks_round_trip(tasks: Seq<TaskBlockV>)
    requires
        forall|i: int, j: int|
            0 <= i < tasks.len() && 0 <= j < tasks[i].steps.len() ==> !((
            #[trigger] tasks[i].steps[j]).moduleblock is Unset),
    ensures
        spec_tasks_from(tasks.map_values(|tb: TaskBlockV| spec_task_to_json(tb))) matches Ok(pts)
            && spec_resolve_tasks(pts) == Ok::<Seq<TaskBlockV>, Seq<char>>(tasks),
    decreases tasks.len(),
{
    let items = tasks.map_values(|tb: TaskBlockV| spec_task_to_json(tb));
    if tasks.len() == 0 {
        assert(spec_tasks_from(items) == Ok::<Seq<ParsingTaskBlockV>, Seq<char>>(Seq::empty()));
        assert(spec_resolve_tasks(Seq::<ParsingTaskBlockV>::empty()) == Ok::<Seq<TaskBlockV>, Seq<char>>(
            Seq::empty(),
        ));
        assert(tasks =~= Seq::<TaskBlockV>::empty());
    } else {
        assert(forall|j: int|
            0 <= j < tasks.first().steps.len() ==> !((#[trigger] tasks.first().steps[j]).moduleblock
                is Unset)) by {
            assert(tasks.first() == tasks[0]);
        }
        lemma_task_round_trip(tasks.first());
        assert forall|i: int, j: int|
            0 <= i < tasks.drop_first().len() && 0 <= j
                < tasks.drop_first()[i].steps.len() implies !((
        #[trigger] tasks.drop_first()[i].steps[j]).moduleblock is Unset) by {
            assert(tasks.drop_first()[i] == tasks[i + 1]);
        }
        lemma_tasks_round_trip(tasks.drop_first());
        assert(items.first() == spec_task_to_json(tasks.first()));
        assert(items.drop_first() =~= tasks.drop_first().map_values(
            |tb: TaskBlockV| spec_task_to_json(tb),
        ));
        let p0 = spec_taskblock_from(items.first())->Ok_0;
        let rest = spec_tasks_from(items.drop_first())->Ok_0;
        let pts = spec_tasks_from(items)->Ok_0;
        assert(pts == seq![p0] + rest);
        assert(pts.first() == p0);
        assert(pts.drop_first() =~= rest);
        let tb0 = TaskBlockV {
            name: p0.name,
            steps: spec_parse_task_block(p0.steps)->Ok_0,
            with_sudo: p0.with_sudo,
        };
        assert(tb0 == tasks.first());
        assert(spec_resolve_tasks(pts) == Ok::<Seq<TaskBlockV>, Seq<char>>(seq![tasks.first()] + tasks.drop_first()));
        assert(seq![tasks.first()] + tasks.drop_first() =~= tasks);
    }
}

impl TaskList {
    /// Reads a task list from text: YAML or JSON as asked, and for an
    /// unknown format YAML first with JSON as the fallback (any YAML
    /// failure, of the text or of the schema, falls through).
    pub fn from_str(raw_content: &str, content_type: TaskListFileType) -> (r: Result<
        TaskList,
        Error,
    >)
        ensures
            content_type is Yaml ==> tasklist_doc_agrees(
                r,
                spec_tasklist_from_doc(crate::json::yaml_doc_of(raw_content@)),
            ),
            content_type is Json ==> tasklist_doc_agrees(
                r,
                spec_tasklist_from_doc(crate::json::json_doc_of(raw_content@)),
            ),
            content_type is Unknown ==> match spec_tasklist_from_doc(
                crate::json::yaml_doc_of(raw_content@),
            ) {
                Ok(tv) => r matches Ok(t) && t@ == tv,
                Err(_) => match spec_tasklist_from_doc(crate::json::json_doc_of(raw_content@)) {
                    Ok(tv) => r matches Ok(t) && t@ == tv,
                    Err(_) => r is Err && (r matches Err(e) && e is FailedInitialization),
                },
            },
    {
        match content_type {
            TaskListFileType::Yaml => tasklist_from_yaml(raw_content),
            TaskListFileType::Json => tasklist_from_json_text(raw_content),
            TaskListFileType::Unknown => match tasklist_from_yaml(raw_content) {
                Ok(task_list) => Ok(task_list),
                Err(yaml_try_error) => match tasklist_from_json_text(raw_content) {
                    Ok(task_list) => Ok(task_list),
                    Err(json_try_error) => {
                        let head = concat3(
                            "unable to parse the task list. YAML: ",
                            yaml_try_error.message().as_str(),
                            ", JSON: ",
                        );
                        Err(
                            Error::FailedInitialization(
                                crate::strutil::concat2(
                                    head.as_str(),
                                    json_try_error.message().as_str(),
                                ),
                            ),
                        )
                    },
                },
            },
        }
    }
}

} // verus!
