//! What a step plans and what a step did: the planned change set
//! produced by a dry run, and the results collected by an apply.

use vstd::prelude::*;
use crate::modules::ModuleApiCall;
use crate::strutil::scrubbed;
use crate::strutil::scrub_controls;

verus! {

/// Outcome of one api call.
#[derive(Debug)]
pub enum ApiCallStatus {
    /// Not run yet.
    Unset,
    /// Nothing to do: the target already matched.
    NoChange,
    /// The mutation ran and succeeded.
    ChangeSuccessful(String),
    /// The mutation ran and failed.
    Failure(String),
    /// The mutation failed but the step tolerates failure.
    AllowedFailure(String),
}

/// Spec mirror of [`ApiCallStatus`].
pub enum ApiCallStatusV {
    Unset,
    NoChange,
    ChangeSuccessful(Seq<char>),
    Failure(Seq<char>),
    AllowedFailure(Seq<char>),
}

impl View for ApiCallStatus {
    type V = ApiCallStatusV;

    open spec fn view(&self) -> ApiCallStatusV {
        match self {
            ApiCallStatus::Unset => ApiCallStatusV::Unset,
            ApiCallStatus::NoChange => ApiCallStatusV::NoChange,
            ApiCallStatus::ChangeSuccessful(m) => ApiCallStatusV::ChangeSuccessful(m@),
            ApiCallStatus::Failure(m) => ApiCallStatusV::Failure(m@),
            ApiCallStatus::AllowedFailure(m) => ApiCallStatusV::AllowedFailure(m@),
        }
    }
}

impl Clone for ApiCallStatus {
    /// The copy carries the same case and the same message.
    fn clone(&self) -> (r: ApiCallStatus)
        ensures
            r@ == self@,
    {
        match self {
            ApiCallStatus::Unset => ApiCallStatus::Unset,
            ApiCallStatus::NoChange => ApiCallStatus::NoChange,
            ApiCallStatus::ChangeSuccessful(m) => ApiCallStatus::ChangeSuccessful(m.clone()),
            ApiCallStatus::Failure(m) => ApiCallStatus::Failure(m.clone()),
            ApiCallStatus::AllowedFailure(m) => ApiCallStatus::AllowedFailure(m.clone()),
        }
    }
}

/// The printable form of a status view.
pub open spec fn status_label_v(s: ApiCallStatusV) -> Seq<char> {
    match s {
        ApiCallStatusV::Unset => "unset"@,
        ApiCallStatusV::NoChange => "none"@,
        ApiCallStatusV::ChangeSuccessful(m) => "change-successful: "@ + m,
        ApiCallStatusV::Failure(m) => "failure: "@ + m,
        ApiCallStatusV::AllowedFailure(m) => "allowed-failure: "@ + m,
    }
}

impl ApiCallStatus {
    /// The printable form of this status.
    pub open spec fn label(&self) -> Seq<char> {
        status_label_v(self@)
    }

    /// The printable form of this status.
    pub fn display(&self) -> (r: String)
        ensures
            r@ == self.label(),
    {
        match self {
            ApiCallStatus::Unset => "unset".to_owned(),
            ApiCallStatus::NoChange => "none".to_owned(),
            ApiCallStatus::ChangeSuccessful(m) => crate::strutil::concat2(
                "change-successful: ",
                m.as_str(),
            ),
            ApiCallStatus::Failure(m) => crate::strutil::concat2("failure: ", m.as_str()),
            ApiCallStatus::AllowedFailure(m) => crate::strutil::concat2(
                "allowed-failure: ",
                m.as_str(),
            ),
        }
    }
}

/// The recorded outcome of one api call: exit code, output with control
/// characters scrubbed, and a status.
#[derive(Debug)]
pub struct ApiCallResult {
    pub rc: Option<i32>,
    pub output: Option<String>,
    pub status: ApiCallStatus,
}

/// Spec mirror of [`ApiCallResult`].
pub struct ApiCallResultV {
    pub rc: Option<int>,
    pub output: Option<Seq<char>>,
    pub status: ApiCallStatusV,
}

impl View for ApiCallResult {
    type V = ApiCallResultV;

    open spec fn view(&self) -> ApiCallResultV {
        ApiCallResultV {
            rc: match self.rc {
                Some(c) => Some(c as int),
                None => None,
            },
            output: crate::strutil::opt_str_v(self.output),
            status: self.status@,
        }
    }
}

impl Clone for ApiCallResult {
    /// The copy carries the same exit code, output and status.
    fn clone(&self) -> (r: ApiCallResult)
        ensures
            r@ == self@,
    {
        ApiCallResult {
            rc: self.rc,
            output: match &self.output {
                Some(o) => Some(o.clone()),
                None => None,
            },
            status: self.status.clone(),
        }
    }
}

impl ApiCallResult {
    /// A result not yet filled in.
    pub fn new() -> (r: ApiCallResult)
        ensures
            r.rc is None,
            r.output is None,
            r.status is Unset,
    {
        ApiCallResult { rc: None, output: None, status: ApiCallStatus::Unset }
    }

    /// The result of an api call that had nothing to do.
    pub fn none() -> (r: ApiCallResult)
        ensures
            r.rc is None,
            r.output is None,
            r.status is NoChange,
    {
        ApiCallResult { rc: None, output: None, status: ApiCallStatus::NoChange }
    }

    /// A result from raw command output: control characters are
    /// scrubbed so the output can travel through JSON untouched.
    pub fn from(rc: Option<i32>, raw_output: Option<String>, status: ApiCallStatus) -> (r:
        ApiCallResult)
        ensures
            r.rc == rc,
            match raw_output {
                Some(o) => r.output matches Some(s) && s@ == scrubbed(o@),
                None => r.output is None,
            },
            r.status == status,
    {
        let output = match &raw_output {
            Some(raw) => Some(scrub_controls(raw.as_str())),
            None => None,
        };
        ApiCallResult { rc, output, status }
    }

    /// This call failed.
    pub open spec fn failed(&self) -> bool {
        self.status is Failure
    }

    /// This call had nothing to do.
    pub open spec fn is_no_change(&self) -> bool {
        self.status is NoChange
    }
}

/// What a dry run planned for one step: either the target already
/// matched (with a message saying how), or the module could not even
/// be evaluated, or an ordered list of api calls to perform.
#[derive(Debug)]
pub enum StepChange {
    /// Dry-run evaluation failed but the step tolerates failure.
    AllowedFailure(String),
    /// Expected and actual state already agree.
    AlreadyMatched(String),
    /// The module cannot be evaluated on this host.
    FailedToEvaluate(String),
    /// The mutations that would reconcile the host.
    ModuleApiCalls(Vec<ModuleApiCall>),
}

/// Spec mirror of [`StepChange`].
pub enum StepChangeV {
    AllowedFailure(Seq<char>),
    AlreadyMatched(Seq<char>),
    FailedToEvaluate(Seq<char>),
    ModuleApiCalls(Seq<crate::modules::ModuleApiCallV>),
}

impl View for StepChange {
    type V = StepChangeV;

    open spec fn view(&self) -> StepChangeV {
        match self {
            StepChange::AllowedFailure(m) => StepChangeV::AllowedFailure(m@),
            StepChange::AlreadyMatched(m) => StepChangeV::AlreadyMatched(m@),
            StepChange::FailedToEvaluate(m) => StepChangeV::FailedToEvaluate(m@),
            StepChange::ModuleApiCalls(calls) => StepChangeV::ModuleApiCalls(
                crate::modules::call_views(calls@),
            ),
        }
    }
}

impl Clone for StepChange {
    /// The copy plans the same change.
    fn clone(&self) -> (r: StepChange)
        ensures
            r@ == self@,
    {
        match self {
            StepChange::AllowedFailure(m) => StepChange::AllowedFailure(m.clone()),
            StepChange::AlreadyMatched(m) => StepChange::AlreadyMatched(m.clone()),
            StepChange::FailedToEvaluate(m) => StepChange::FailedToEvaluate(m.clone()),
            StepChange::ModuleApiCalls(calls) => {
                let mut out: Vec<ModuleApiCall> = Vec::new();
                let mut i: usize = 0;
                while i < calls.len()
                    invariant
                        i <= calls@.len(),
                        out@.len() == i,
                        forall|j: int| 0 <= j < i ==> #[trigger] out@[j]@ == calls@[j]@,
                    decreases calls@.len() - i,
                {
                    out.push(calls[i].clone());
                    i = i + 1;
                }
                proof {
                    assert forall|j: int|
                        0 <= j < calls@.len() implies #[trigger] crate::modules::call_views(
                        out@,
                    )[j] == crate::modules::call_views(calls@)[j] by {
                        assert(out@[j]@ == calls@[j]@);
                    }
                    assert(crate::modules::call_views(out@) =~= crate::modules::call_views(
                        calls@,
                    ));
                }
                StepChange::ModuleApiCalls(out)
            },
        }
    }
}

impl StepChange {
    pub fn matched(message: &str) -> (r: StepChange)
        ensures
            r matches StepChange::AlreadyMatched(m) && m@ == message@,
    {
        StepChange::AlreadyMatched(message.to_owned())
    }

    pub fn failed_to_evaluate(message: &str) -> (r: StepChange)
        ensures
            r matches StepChange::FailedToEvaluate(m) && m@ == message@,
    {
        StepChange::FailedToEvaluate(message.to_owned())
    }

    pub fn changes(changes: Vec<ModuleApiCall>) -> (r: StepChange)
        ensures
            r matches StepChange::ModuleApiCalls(c) && c@ == changes@,
    {
        StepChange::ModuleApiCalls(changes)
    }

    /// The planned calls, collapsed: when every planned entry is a
    /// no-op the step already matches (the aggregation rule shared by
    /// every module), so the change is `AlreadyMatched` with the given
    /// message.
    pub fn from_calls(calls: Vec<ModuleApiCall>, matched_message: &str) -> (r: StepChange)
        ensures
            r@ == crate::modules::collapsed(crate::modules::call_views(calls@),
            matched_message@),
    {
        let mut i: usize = 0;
        while i < calls.len()
            invariant
                i <= calls@.len(),
                forall|j: int|
                    0 <= j < i ==> (#[trigger] crate::modules::call_views(calls@)[j]) is NoOp,
            decreases calls@.len() - i,
        {
            if !calls[i].is_none_call() {
                proof {
                    assert(crate::modules::call_views(calls@)[i as int] == calls@[i as int]@);
                    assert(!(crate::modules::call_views(calls@)[i as int] is NoOp));
                    assert(!crate::modules::all_none_v(crate::modules::call_views(calls@)));
                }
                return StepChange::ModuleApiCalls(calls);
            }
            proof {
                assert(crate::modules::call_views(calls@)[i as int] == calls@[i as int]@);
            }
            i = i + 1;
        }
        proof {
            assert(crate::modules::all_none_v(crate::modules::call_views(calls@)));
        }
        StepChange::AlreadyMatched(matched_message.to_owned())
    }

    /// One printable line per planned call.
    pub fn display(&self) -> (r: Vec<String>)
        ensures
            match self {
                StepChange::AllowedFailure(m) => r@.len() == 1 && r@[0]@ == m@,
                StepChange::AlreadyMatched(m) => r@.len() == 1 && r@[0]@ == m@,
                StepChange::FailedToEvaluate(m) => r@.len() == 1 && r@[0]@ == m@,
                StepChange::ModuleApiCalls(calls) => r@.len() == calls@.len() && forall|i: int|
                    0 <= i < calls@.len() ==> #[trigger] r@[i]@ == calls@[i].display_line(),
            },
    {
        match self {
            StepChange::AllowedFailure(m) => vec![m.clone()],
            StepChange::AlreadyMatched(m) => vec![m.clone()],
            StepChange::FailedToEvaluate(m) => vec![m.clone()],
            StepChange::ModuleApiCalls(calls) => {
                let mut out: Vec<String> = Vec::new();
                let mut i: usize = 0;
                while i < calls.len()
                    invariant
                        i <= calls@.len(),
                        out@.len() == i,
                        forall|j: int|
                            0 <= j < i ==> #[trigger] out@[j]@ == calls@[j].display_line(),
                    decreases calls@.len() - i,
                {
                    out.push(calls[i].display());
                    i = i + 1;
                }
                out
            },
        }
    }
}

/// Exit code derived from an ordered list of call results: the exit
/// code of the first failing call, else zero.
pub open spec fn derived_rc(rs: Seq<ApiCallResult>) -> int
    decreases rs.len(),
{
    if rs.len() == 0 {
        0
    } else {
        match rs.first().rc {
            Some(code) => if code != 0 {
                code as int
            } else {
                derived_rc(rs.drop_first())
            },
            None => derived_rc(rs.drop_first()),
        }
    }
}

/// Output derived from an ordered list of call results: the scrubbed
/// outputs joined with one newline each, cut after the first failing
/// exit code. The cut is deliberate: the summary field exists to
/// diagnose the first failure, and every call's complete output stays
/// available in the result list itself.
pub open spec fn derived_output(rs: Seq<ApiCallResult>) -> Seq<char>
    decreases rs.len(),
{
    if rs.len() == 0 {
        Seq::empty()
    } else {
        let head = match rs.first().output {
            Some(o) => scrubbed(o@) + "\n"@,
            None => Seq::<char>::empty(),
        };
        match rs.first().rc {
            Some(code) => if code != 0 {
                head
            } else {
                head + derived_output(rs.drop_first())
            },
            None => head + derived_output(rs.drop_first()),
        }
    }
}

/// What one step did: its ordered call results, with the derived
/// summary fields (first failing exit code, concatenated output).
#[derive(Debug)]
pub struct StepResult {
    pub rc: Option<i32>,
    pub output: Option<String>,
    pub apicallresults: Vec<ApiCallResult>,
}

impl StepResult {
    /// An empty result.
    pub fn new() -> (r: StepResult)
        ensures
            r.rc is None,
            r.output is None,
            r.apicallresults@.len() == 0,
    {
        StepResult { rc: None, output: None, apicallresults: Vec::new() }
    }

    /// The result of a step that had nothing to do.
    pub fn none() -> (r: StepResult)
        ensures
            r.rc is None,
            r.output is None,
            r.apicallresults@.len() == 1 && r.apicallresults@[0].status is NoChange
                && r.apicallresults@[0].rc is None && r.apicallresults@[0].output is None,
    {
        StepResult { rc: None, output: None, apicallresults: vec![ApiCallResult::none()] }
    }

    /// A result summarising the given call results: `rc` is the exit
    /// code of the first failing call (else zero) and `output` joins
    /// the outputs up to and including the first failure.
    pub fn from(apicallresults: Vec<ApiCallResult>) -> (r: StepResult)
        ensures
            r.rc matches Some(rc) && rc == derived_rc(apicallresults@),
            r.output matches Some(o) && o@ == derived_output(apicallresults@),
            r.apicallresults@ == apicallresults@,
    {
        let mut final_rc: i32 = 0;
        let mut output_list = String::new();
        let mut i: usize = 0;
        let n = apicallresults.len();
        proof {
            assert(apicallresults@.skip(0) =~= apicallresults@);
            assert(output_list@ + derived_output(apicallresults@) =~= derived_output(
                apicallresults@,
            ));
        }
        while i < n
            invariant
                i <= apicallresults@.len(),
                n == apicallresults@.len(),
                derived_rc(apicallresults@) == derived_rc(apicallresults@.skip(i as int)),
                final_rc == 0,
                derived_output(apicallresults@) == output_list@ + derived_output(
                    apicallresults@.skip(i as int),
                ),
            decreases apicallresults@.len() - i,
        {
            proof {
                assert(apicallresults@.skip(i as int).first() == apicallresults@[i as int]);
                assert(apicallresults@.skip(i as int).drop_first() =~= apicallresults@.skip(
                    i as int + 1,
                ));
            }
            let ghost prev_out = output_list@;
            let ghost head = match apicallresults@[i as int].output {
                Some(o) => scrubbed(o@) + "\n"@,
                None => Seq::<char>::empty(),
            };
            let result = &apicallresults[i];
            match &result.output {
                Some(o) => {
                    let line = scrub_controls(o.as_str());
                    output_list.append(line.as_str());
                    output_list.append("\n");
                },
                None => {},
            }
            proof {
                assert(output_list@ =~= prev_out + head);
            }
            match result.rc {
                Some(code) => {
                    if code != 0 {
                        final_rc = code;
                        proof {
                            assert(derived_output(apicallresults@.skip(i as int)) == head);
                            assert(derived_output(apicallresults@) =~= output_list@);
                        }
                        return StepResult {
                            rc: Some(final_rc),
                            output: Some(output_list),
                            apicallresults,
                        };
                    }
                },
                None => {},
            }
            proof {
                assert(derived_output(apicallresults@.skip(i as int)) == head + derived_output(
                    apicallresults@.skip(i as int + 1),
                ));
                assert(prev_out + (head + derived_output(apicallresults@.skip(i as int + 1)))
                    =~= output_list@ + derived_output(apicallresults@.skip(i as int + 1)));
            }
            i = i + 1;
        }
        proof {
            assert(apicallresults@.skip(i as int) =~= Seq::empty());
            assert(derived_output(apicallresults@.skip(i as int)) =~= Seq::<char>::empty());
            assert(output_list@ + Seq::<char>::empty() =~= output_list@);
        }
        StepResult { rc: Some(final_rc), output: Some(output_list), apicallresults }
    }
}

} // verus!
