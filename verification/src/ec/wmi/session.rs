//! One call of `MiInterface`, step by step.
//!
//! A [`Session`] holds what the worker has learned about the interface: the instance to
//! call, the names of the parameters, and an error that is final. It makes no calls to WMI
//! itself. Each of its methods takes what came of one call and says in a [`CallStep`]
//! which one comes next, until the command is done.

use crate::app::ec::{EcError, EcErrorView};
use crate::app::startup::text_view;
use crate::ec::wmi::protocol::{
    is_final_hresult, latch_into, latch_view, latched_after, MIN_OUTPUT_LEN,
};
use crate::ec::wmi::worker::{
    answer_of, call_view, find_target, names_view, param_name_from_schema, parameter_of,
    parse_answer, target_of, RawInstance,
};
use crate::text;
use vstd::prelude::*;

verus! {

/// What the worker does next.
pub enum CallStep {
    /// List the instances of `MICommonInterface`.
    ListInstances,
    /// Get the class object of `MICommonInterface`.
    GetClass,
    /// Get the signature of `MiInterface` from the class object.
    GetMethod,
    /// Make a parameter object and put the command buffer into this parameter.
    PutInput(String),
    /// Call `MiInterface` on this object.
    Execute(String),
    /// Wait for the result.
    AwaitResult,
    /// Read this parameter of the result.
    GetOutput(String),
    /// The command is done, with this answer.
    Done(Result<[u8; 32], EcError>),
}

/// A step by its texts, bytes and views.
pub enum CallStepView {
    ListInstances,
    GetClass,
    GetMethod,
    PutInput(Seq<char>),
    Execute(Seq<char>),
    AwaitResult,
    GetOutput(Seq<char>),
    Done(Result<Seq<u8>, EcErrorView>),
}

impl View for CallStep {
    type V = CallStepView;

    open spec fn view(&self) -> CallStepView {
        match self {
            CallStep::ListInstances => CallStepView::ListInstances,
            CallStep::GetClass => CallStepView::GetClass,
            CallStep::GetMethod => CallStepView::GetMethod,
            CallStep::PutInput(name) => CallStepView::PutInput(name@),
            CallStep::Execute(path) => CallStepView::Execute(path@),
            CallStep::AwaitResult => CallStepView::AwaitResult,
            CallStep::GetOutput(name) => CallStepView::GetOutput(name@),
            CallStep::Done(r) => CallStepView::Done(call_view(*r)),
        }
    }
}

/// What came of looking something up.
pub enum Lookup {
    /// It is there.
    Found,
    /// The call went well, but it is not there.
    Missing,
    /// The call failed.
    Failed {
        /// The `HRESULT`.
        hr: u32,
        /// Its description.
        description: String,
    },
}

/// What came of preparing the input.
pub enum InputResult {
    /// The command buffer is in its parameter.
    Put,
    /// The parameter object could not be made.
    NoInstance(String),
    /// The array for the buffer could not be made.
    NoArray,
    /// The array could not be accessed.
    NoAccess,
    /// The access to the array could not be ended.
    NoRelease,
    /// The array could not be put into the parameter.
    NotPut(String),
}

/// What came of starting the method.
pub enum ExecResult {
    /// It runs.
    Started,
    /// It was accepted, but there is nothing to wait for.
    NoCallResult,
    /// The call failed with this `HRESULT`.
    Failed(u32),
}

/// What came of reading the output.
pub enum OutputResult {
    /// The bytes.
    Bytes(Vec<u8>),
    /// The parameter could not be read.
    NotRead(String),
    /// It is not an array of bytes.
    NoArray,
    /// The length of the array could not be read.
    NoLength(String),
    /// The array, of this length, could not be accessed.
    NoAccess(usize),
}

/// What the worker has learned about the interface.
pub struct Session {
    /// The object path of the instance to call.
    pub target: Option<String>,
    /// The name of the input parameter.
    pub in_param_name: Option<String>,
    /// The name of the output parameter.
    pub out_param_name: Option<String>,
    /// An error that is final: no further call is made.
    pub fatal: Option<EcError>,
}

/// What the worker has learned, by texts and views.
pub struct SessionView {
    pub target: Option<Seq<char>>,
    pub in_param_name: Option<Seq<char>>,
    pub out_param_name: Option<Seq<char>>,
    pub fatal: Option<EcErrorView>,
}

impl View for Session {
    type V = SessionView;

    open spec fn view(&self) -> SessionView {
        SessionView {
            target: text_view(self.target),
            in_param_name: text_view(self.in_param_name),
            out_param_name: text_view(self.out_param_name),
            fatal: latch_view(self.fatal),
        }
    }
}

/// The command has failed.
pub open spec fn failed(e: EcErrorView) -> CallStepView {
    CallStepView::Done(Err(e))
}

impl SessionView {
    /// The session with an error latched, if it is final.
    pub open spec fn latch(self, hr: Option<u32>, e: EcErrorView) -> SessionView {
        SessionView { fatal: latched_after(self.fatal, hr, e), ..self }
    }

    /// What comes next once there is no final error: whatever is not known yet, and then
    /// the input.
    pub open spec fn next_step(self) -> CallStepView {
        if self.target is None {
            CallStepView::ListInstances
        } else {
            match self.in_param_name {
                None => CallStepView::GetClass,
                Some(name) => CallStepView::PutInput(name),
            }
        }
    }

    /// The first step of a command: none if there is a final error.
    pub open spec fn first_step(self) -> CallStepView {
        match self.fatal {
            Some(e) => failed(e),
            None => self.next_step(),
        }
    }

    /// After the instances were listed, or the list failed with a description.
    pub open spec fn after_instances(self, result: Result<Seq<RawInstance>, Seq<char>>) -> (
        SessionView,
        CallStepView,
    ) {
        match result {
            Err(description) => (
                self,
                failed(EcErrorView::WmiConnect("ExecQuery instances: "@ + description)),
            ),
            Ok(raw) => match target_of(raw) {
                None => (self, failed(EcErrorView::WmiInterfaceNotFound)),
                Some(path) => {
                    let known = SessionView { target: Some(path), ..self };
                    (known, known.next_step())
                },
            },
        }
    }

    /// After a lookup that has failed or found nothing; `what` begins the message.
    pub open spec fn after_failed_lookup(self, what: Seq<char>, lookup: Lookup) -> (
        SessionView,
        CallStepView,
    ) {
        match lookup {
            Lookup::Failed { hr, description } => {
                let e = EcErrorView::WmiConnect(what + description@);
                (self.latch(Some(hr), e), failed(e))
            },
            _ => (
                self.latch(None, EcErrorView::WmiInterfaceNotFound),
                failed(EcErrorView::WmiInterfaceNotFound),
            ),
        }
    }

    /// After the class object was asked for.
    pub open spec fn after_class(self, lookup: Lookup) -> (SessionView, CallStepView) {
        if lookup is Found {
            (self, CallStepView::GetMethod)
        } else {
            self.after_failed_lookup("获取类对象失败: "@, lookup)
        }
    }

    /// After the signature was asked for, with the properties of its input.
    pub open spec fn after_method(self, lookup: Lookup, names: Option<Seq<String>>) -> (
        SessionView,
        CallStepView,
    ) {
        if lookup is Found {
            let name = parameter_of(names, "InData"@);
            (
                SessionView { in_param_name: Some(name), ..self },
                CallStepView::PutInput(name),
            )
        } else {
            self.after_failed_lookup("获取方法签名失败: "@, lookup)
        }
    }

    /// After the input was prepared.
    pub open spec fn after_input(self, result: InputResult) -> CallStepView {
        match result {
            InputResult::Put => CallStepView::Execute(self.target->0),
            InputResult::NoInstance(d) => failed(
                EcErrorView::WmiConnect("创建方法参数实例失败: "@ + d@),
            ),
            InputResult::NoArray => failed(EcErrorView::WmiConnect("WMI 命令数组创建失败"@)),
            InputResult::NoAccess => failed(EcErrorView::WmiConnect("WMI 命令数组访问失败"@)),
            InputResult::NoRelease => failed(
                EcErrorView::WmiConnect("SafeArrayUnaccessData failed"@),
            ),
            InputResult::NotPut(d) => failed(
                EcErrorView::WmiConnect("Put '"@ + self.in_param_name->0 + "': "@ + d@),
            ),
        }
    }

    /// After the method was started.
    pub open spec fn after_exec(self, result: ExecResult) -> (SessionView, CallStepView) {
        match result {
            ExecResult::Started => (self, CallStepView::AwaitResult),
            ExecResult::NoCallResult => (self, failed(EcErrorView::WmiCallFailed(0))),
            ExecResult::Failed(hr) => (
                self.latch(Some(hr), EcErrorView::WmiCallHResult(hr)),
                failed(EcErrorView::WmiCallHResult(hr)),
            ),
        }
    }

    /// After the result has come, with the properties of the output, or an `HRESULT`.
    pub open spec fn after_result(self, result: Result<Option<Seq<String>>, u32>) -> (
        SessionView,
        CallStepView,
    ) {
        match result {
            Ok(names) => {
                let name = match self.out_param_name {
                    Some(name) => name,
                    None => parameter_of(names, "OutData"@),
                };
                (
                    SessionView { out_param_name: Some(name), ..self },
                    CallStepView::GetOutput(name),
                )
            },
            Err(hr) => (
                self.latch(Some(hr), EcErrorView::WmiCallHResult(hr)),
                failed(EcErrorView::WmiCallHResult(hr)),
            ),
        }
    }

    /// After the output was read.
    pub open spec fn after_output(self, result: OutputResult) -> CallStepView {
        match result {
            OutputResult::Bytes(b) => CallStepView::Done(answer_of(b@)),
            OutputResult::NotRead(d) => failed(
                EcErrorView::WmiConnect("Get '"@ + self.out_param_name->0 + "': "@ + d@),
            ),
            OutputResult::NoArray => failed(EcErrorView::WmiCallFailed(0)),
            OutputResult::NoLength(d) => failed(EcErrorView::WmiConnect("WMI: "@ + d@)),
            OutputResult::NoAccess(len) => if len < MIN_OUTPUT_LEN {
                failed(EcErrorView::WmiCallFailed(0))
            } else {
                failed(EcErrorView::WmiConnect("读取 WMI 响应数组失败"@))
            },
        }
    }
}

/// A message made of two parts.
fn join2(a: &str, b: &str) -> (r: String)
    ensures
        r@ == a@ + b@,
{
    let mut out = text::copy_str(a);
    out.append(b);
    out
}

/// A message made of four parts.
fn join4(a: &str, b: &str, c: &str, d: &str) -> (r: String)
    ensures
        r@ == a@ + b@ + c@ + d@,
{
    let mut out = text::copy_str(a);
    out.append(b);
    out.append(c);
    out.append(d);
    out
}

impl Session {
    /// A session that has learned nothing yet.
    pub fn new() -> (r: Self)
        ensures
            r@ == (SessionView {
                target: None,
                in_param_name: None,
                out_param_name: None,
                fatal: None,
            }),
    {
        Session { target: None, in_param_name: None, out_param_name: None, fatal: None }
    }

    /// The step for what is not known yet, or for the input.
    fn step_for_unknown(&self) -> (r: CallStep)
        ensures
            r@ == self@.next_step(),
    {
        if self.target.is_none() {
            return CallStep::ListInstances;
        }
        match &self.in_param_name {
            None => CallStep::GetClass,
            Some(name) => CallStep::PutInput(name.clone()),
        }
    }

    /// Begins a command.
    ///
    /// After a final error no call is made at all: it would fail in the same way, after
    /// the full time.
    pub fn begin(&self) -> (r: CallStep)
        ensures
            r@ == self@.first_step(),
    {
        match &self.fatal {
            Some(e) => CallStep::Done(Err(e.clone())),
            None => self.step_for_unknown(),
        }
    }

    /// Takes the list of instances. The method is called on an instance and not on the
    /// class, so one is chosen here, once.
    pub fn instances_listed(&mut self, result: Result<Vec<RawInstance>, String>) -> (r: CallStep)
        ensures
            (final(self)@, r@) == old(self)@.after_instances(
                match result {
                    Ok(raw) => Ok(raw@),
                    Err(d) => Err(d@),
                },
            ),
    {
        match result {
            Err(d) => CallStep::Done(
                Err(EcError::WmiConnect(join2("ExecQuery instances: ", d.as_str()))),
            ),
            Ok(raw) => match find_target(&raw) {
                None => CallStep::Done(Err(EcError::WmiInterfaceNotFound)),
                Some(path) => {
                    self.target = Some(path);
                    self.step_for_unknown()
                },
            },
        }
    }

    /// Fails with an error, which is latched if it is final.
    fn fail(&mut self, hr: Option<u32>, e: EcError) -> (r: CallStep)
        ensures
            final(self)@ == old(self)@.latch(hr, e@),
            r@ == failed(e@),
    {
        CallStep::Done(Err(latch_into(&mut self.fatal, hr, e)))
    }

    /// Takes the class object. The signature of the method is there and not on the
    /// instance.
    pub fn class_found(&mut self, lookup: Lookup) -> (r: CallStep)
        ensures
            (final(self)@, r@) == old(self)@.after_class(lookup),
    {
        match lookup {
            Lookup::Found => CallStep::GetMethod,
            Lookup::Missing => self.fail(None, EcError::WmiInterfaceNotFound),
            Lookup::Failed { hr, description } => {
                let e = EcError::WmiConnect(join2("获取类对象失败: ", description.as_str()));
                self.fail(Some(hr), e)
            },
        }
    }

    /// Takes the signature of the method with the properties of its input, and keeps the
    /// name of the input parameter.
    pub fn method_found(&mut self, lookup: Lookup, names: Option<Vec<String>>) -> (r: CallStep)
        ensures
            (final(self)@, r@) == old(self)@.after_method(lookup, names_view(names)),
    {
        match lookup {
            Lookup::Found => {
                let name = param_name_from_schema(&names, "InData");
                self.in_param_name = Some(name.clone());
                CallStep::PutInput(name)
            },
            Lookup::Missing => self.fail(None, EcError::WmiInterfaceNotFound),
            Lookup::Failed { hr, description } => {
                let e = EcError::WmiConnect(join2("获取方法签名失败: ", description.as_str()));
                self.fail(Some(hr), e)
            },
        }
    }

    /// Takes the prepared input.
    pub fn input_put(&self, result: InputResult) -> (r: CallStep)
        requires
            self.target is Some,
            self.in_param_name is Some,
        ensures
            r@ == self@.after_input(result),
    {
        let e = match result {
            InputResult::Put => {
                return CallStep::Execute(self.target.as_ref().unwrap().clone());
            },
            InputResult::NoInstance(d) => join2("创建方法参数实例失败: ", d.as_str()),
            InputResult::NoArray => text::copy_str("WMI 命令数组创建失败"),
            InputResult::NoAccess => text::copy_str("WMI 命令数组访问失败"),
            InputResult::NoRelease => text::copy_str("SafeArrayUnaccessData failed"),
            InputResult::NotPut(d) => join4(
                "Put '",
                self.in_param_name.as_ref().unwrap().as_str(),
                "': ",
                d.as_str(),
            ),
        };
        CallStep::Done(Err(EcError::WmiConnect(e)))
    }

    /// Takes the started method.
    pub fn executed(&mut self, result: ExecResult) -> (r: CallStep)
        ensures
            (final(self)@, r@) == old(self)@.after_exec(result),
    {
        match result {
            ExecResult::Started => CallStep::AwaitResult,
            ExecResult::NoCallResult => CallStep::Done(Err(EcError::WmiCallFailed(0))),
            ExecResult::Failed(hr) => self.fail(Some(hr), EcError::WmiCallHResult(hr)),
        }
    }

    /// Takes the result, with the properties of the output, and keeps the name of the
    /// output parameter. Once that is known the properties are not looked at.
    pub fn result_came(&mut self, result: Result<Option<Vec<String>>, u32>) -> (r: CallStep)
        ensures
            (final(self)@, r@) == old(self)@.after_result(
                match result {
                    Ok(names) => Ok(names_view(names)),
                    Err(hr) => Err(hr),
                },
            ),
    {
        match result {
            Ok(names) => {
                let name = match &self.out_param_name {
                    Some(name) => name.clone(),
                    None => param_name_from_schema(&names, "OutData"),
                };
                self.out_param_name = Some(name.clone());
                CallStep::GetOutput(name)
            },
            Err(hr) => self.fail(Some(hr), EcError::WmiCallHResult(hr)),
        }
    }

    /// Takes the output: the command is done.
    pub fn output_read(&self, result: OutputResult) -> (r: CallStep)
        requires
            self.out_param_name is Some,
        ensures
            r@ == self@.after_output(result),
    {
        CallStep::Done(
            match result {
                OutputResult::Bytes(b) => parse_answer(&b),
                OutputResult::NotRead(d) => Err(
                    EcError::WmiConnect(
                        join4(
                            "Get '",
                            self.out_param_name.as_ref().unwrap().as_str(),
                            "': ",
                            d.as_str(),
                        ),
                    ),
                ),
                OutputResult::NoArray => Err(EcError::WmiCallFailed(0)),
                OutputResult::NoLength(d) => Err(EcError::WmiConnect(join2("WMI: ", d.as_str()))),
                OutputResult::NoAccess(len) => {
                    if len < MIN_OUTPUT_LEN {
                        Err(EcError::WmiCallFailed(0))
                    } else {
                        Err(EcError::WmiConnect(text::copy_str("读取 WMI 响应数组失败")))
                    }
                },
            },
        )
    }
}

// ── Laws ──

/// With a final error every command is answered with it at once, and no call is made.
pub proof fn law_final_error_fails_fast(s: SessionView)
    requires
        s.fatal is Some,
    ensures
        s.first_step() == failed(s.fatal->0),
{
}

/// What is learned is kept: no answer to a call makes a session forget the target, a
/// parameter name or a final error.
pub proof fn law_nothing_is_forgotten(
    s: SessionView,
    instances: Result<Seq<RawInstance>, Seq<char>>,
    lookup: Lookup,
    names: Option<Seq<String>>,
    exec: ExecResult,
    result: Result<Option<Seq<String>>, u32>,
)
    ensures
        s.target is None ==> knows_at_least(s, s.after_instances(instances).0),
        knows_at_least(s, s.after_class(lookup).0),
        s.in_param_name is None ==> knows_at_least(s, s.after_method(lookup, names).0),
        knows_at_least(s, s.after_exec(exec).0),
        knows_at_least(s, s.after_result(result).0),
{
}

/// Everything that is known in `before` is known in `after`, and is the same there.
pub open spec fn knows_at_least(before: SessionView, after: SessionView) -> bool {
    &&& before.target is Some ==> after.target == before.target
    &&& before.in_param_name is Some ==> after.in_param_name == before.in_param_name
    &&& before.out_param_name is Some ==> after.out_param_name == before.out_param_name
    &&& before.fatal is Some ==> after.fatal == before.fatal
}

/// Once target and input parameter are known and there is no final error, a command goes
/// straight to its input: nothing is looked up again.
pub proof fn law_known_interface_is_not_looked_up_again(s: SessionView)
    requires
        s.fatal is None,
        s.target is Some,
        s.in_param_name is Some,
    ensures
        s.first_step() == CallStepView::PutInput(s.in_param_name->0),
{
}

/// An error that may pass is never latched: after it the next command is tried.
pub proof fn law_passing_errors_are_not_latched(s: SessionView, hr: u32)
    requires
        !crate::ec::wmi::protocol::is_final_hresult(hr),
        s.fatal is None,
    ensures
        s.after_exec(ExecResult::Failed(hr)).0 == s,
        s.after_result(Err(hr)).0 == s,
{
}

/// An answer counts as success only if it is long enough and its status is that of
/// success.
pub proof fn law_success_has_the_success_status(s: SessionView, result: OutputResult)
    ensures
        s.after_output(result) matches CallStepView::Done(Ok(b)) ==> {
            &&& b.len() == crate::ec::wmi::protocol::CMD_BUF_LEN
            &&& crate::ec::wmi::worker::status_of(b)
                == crate::ec::wmi::protocol::WMI_STATUS_SUCCESS
        },
{
}

/// A command begins with what is not known yet: the instances without a target, else the class
/// without a parameter, else the input under the name of the parameter. After a final error
/// it ends at once with that error.
pub proof fn law_how_a_command_begins(s: Session, r: CallStep)
    requires
        call_ensures(Session::begin, (&s,), r),
    ensures
        s.fatal matches Some(e) ==> r@ == CallStepView::Done(Err(e@)),
        s.fatal is None && s.target is None ==> r@ == CallStepView::ListInstances,
        s.fatal is None && s.target is Some && s.in_param_name is None ==> r@
            == CallStepView::GetClass,
        s.fatal is None && s.target is Some && s.in_param_name is Some ==> r@
            == CallStepView::PutInput(s.in_param_name->0@),
{
}

/// A list of instances gives the target, which is kept, and the command goes on with what is
/// not known yet. A list without a target and one that failed end the command and are not
/// final.
pub proof fn law_listed_instances(
    s: &mut Session,
    result: Result<Vec<RawInstance>, String>,
    r: CallStep,
)
    requires
        call_ensures(Session::instances_listed, (s, result), r),
    ensures
        result matches Err(d) ==> {
            &&& final(s)@ == old(s)@
            &&& r@ == CallStepView::Done(
                Err(EcErrorView::WmiConnect("ExecQuery instances: "@ + d@)),
            )
        },
        result matches Ok(raw) ==> {
            &&& target_of(raw@) is None ==> final(s)@ == old(s)@ && r@ == CallStepView::Done(
                Err(EcErrorView::WmiInterfaceNotFound),
            )
            &&& target_of(raw@) matches Some(path) ==> {
                &&& final(s)@ == (SessionView { target: Some(path), ..old(s)@ })
                &&& old(s)@.in_param_name is None ==> r@ == CallStepView::GetClass
                &&& old(s)@.in_param_name matches Some(name) ==> r@ == CallStepView::PutInput(name)
            }
        },
{
}

/// After the class object comes the method, and after the method the input under the name that
/// its schema gives, which is kept. What is missing is a final error, and a failed lookup is
/// one if its code is; the error says what was looked for.
pub proof fn law_lookups(
    a: &mut Session,
    class: Lookup,
    x: CallStep,
    b: &mut Session,
    method: Lookup,
    names: Option<Vec<String>>,
    y: CallStep,
)
    requires
        call_ensures(Session::class_found, (a, class), x),
        call_ensures(Session::method_found, (b, method, names), y),
    ensures
        class is Found ==> final(a)@ == old(a)@ && x@ == CallStepView::GetMethod,
        class is Missing ==> {
            &&& x@ == CallStepView::Done(Err(EcErrorView::WmiInterfaceNotFound))
            &&& final(a)@ == (SessionView {
                fatal: if old(a)@.fatal is Some {
                    old(a)@.fatal
                } else {
                    Some(EcErrorView::WmiInterfaceNotFound)
                },
                ..old(a)@
            })
        },
        class matches Lookup::Failed { hr, description } ==> {
            let e = EcErrorView::WmiConnect("获取类对象失败: "@ + description@);
            &&& x@ == CallStepView::Done(Err(e))
            &&& final(a)@ == (SessionView {
                fatal: if old(a)@.fatal is None && is_final_hresult(hr) {
                    Some(e)
                } else {
                    old(a)@.fatal
                },
                ..old(a)@
            })
        },
        method is Found ==> {
            let name = parameter_of(names_view(names), "InData"@);
            &&& y@ == CallStepView::PutInput(name)
            &&& final(b)@ == (SessionView { in_param_name: Some(name), ..old(b)@ })
        },
        method is Missing ==> {
            &&& y@ == CallStepView::Done(Err(EcErrorView::WmiInterfaceNotFound))
            &&& final(b)@ == (SessionView {
                fatal: if old(b)@.fatal is Some {
                    old(b)@.fatal
                } else {
                    Some(EcErrorView::WmiInterfaceNotFound)
                },
                ..old(b)@
            })
        },
        method matches Lookup::Failed { hr, description } ==> {
            let e = EcErrorView::WmiConnect("获取方法签名失败: "@ + description@);
            &&& y@ == CallStepView::Done(Err(e))
            &&& final(b)@ == (SessionView {
                fatal: if old(b)@.fatal is None && is_final_hresult(hr) {
                    Some(e)
                } else {
                    old(b)@.fatal
                },
                ..old(b)@
            })
        },
{
}

/// With the input in its place the method is called on the target. Anything else ends the
/// command, and the error says what went wrong.
pub proof fn law_prepared_input(s: Session, result: InputResult, r: CallStep)
    requires
        call_ensures(Session::input_put, (&s, result), r),
        s.target is Some,
        s.in_param_name is Some,
    ensures
        result is Put ==> r@ == CallStepView::Execute(s.target->0@),
        result matches InputResult::NoInstance(d) ==> r@ == CallStepView::Done(
            Err(EcErrorView::WmiConnect("创建方法参数实例失败: "@ + d@)),
        ),
        result is NoArray ==> r@ == CallStepView::Done(
            Err(EcErrorView::WmiConnect("WMI 命令数组创建失败"@)),
        ),
        result is NoAccess ==> r@ == CallStepView::Done(
            Err(EcErrorView::WmiConnect("WMI 命令数组访问失败"@)),
        ),
        result is NoRelease ==> r@ == CallStepView::Done(
            Err(EcErrorView::WmiConnect("SafeArrayUnaccessData failed"@)),
        ),
        result matches InputResult::NotPut(d) ==> r@ == CallStepView::Done(
            Err(EcErrorView::WmiConnect("Put '"@ + s.in_param_name->0@ + "': "@ + d@)),
        ),
{
}

/// A method that was started is waited for. Its result is read from the parameter that the
/// schema names, and that name is kept and not looked up again. A failed call ends the command
/// with its code, and is final exactly if the code is.
pub proof fn law_calls_and_results(
    a: &mut Session,
    exec: ExecResult,
    x: CallStep,
    b: &mut Session,
    result: Result<Option<Vec<String>>, u32>,
    y: CallStep,
)
    requires
        call_ensures(Session::executed, (a, exec), x),
        call_ensures(Session::result_came, (b, result), y),
    ensures
        exec is Started ==> final(a)@ == old(a)@ && x@ == CallStepView::AwaitResult,
        exec is NoCallResult ==> final(a)@ == old(a)@ && x@ == CallStepView::Done(
            Err(EcErrorView::WmiCallFailed(0)),
        ),
        exec matches ExecResult::Failed(hr) ==> {
            &&& x@ == CallStepView::Done(Err(EcErrorView::WmiCallHResult(hr)))
            &&& final(a)@ == (SessionView {
                fatal: if old(a)@.fatal is None && is_final_hresult(hr) {
                    Some(EcErrorView::WmiCallHResult(hr))
                } else {
                    old(a)@.fatal
                },
                ..old(a)@
            })
        },
        result matches Ok(names) ==> {
            let name = if old(b)@.out_param_name is Some {
                old(b)@.out_param_name->0
            } else {
                parameter_of(names_view(names), "OutData"@)
            };
            &&& y@ == CallStepView::GetOutput(name)
            &&& final(b)@ == (SessionView { out_param_name: Some(name), ..old(b)@ })
        },
        result matches Err(hr) ==> {
            &&& y@ == CallStepView::Done(Err(EcErrorView::WmiCallHResult(hr)))
            &&& final(b)@ == (SessionView {
                fatal: if old(b)@.fatal is None && is_final_hresult(hr) {
                    Some(EcErrorView::WmiCallHResult(hr))
                } else {
                    old(b)@.fatal
                },
                ..old(b)@
            })
        },
{
}

/// The output ends the command. It counts exactly if it has eighteen bytes or more and begins
/// with the bytes of success; anything else is an error that says what went wrong.
pub proof fn law_outputs(s: Session, result: OutputResult, r: CallStep)
    requires
        call_ensures(Session::output_read, (&s, result), r),
        s.out_param_name is Some,
    ensures
        r is Done,
        r@ matches CallStepView::Done(Ok(_)) <==> (result matches OutputResult::Bytes(b) && b@.len()
            >= 18 && b@[0] == 0x00 && b@[1] == 0x80),
        r@ matches CallStepView::Done(Ok(got)) ==> {
            &&& got.len() == 32
            &&& forall|i: int|
                0 <= i < 32 ==> #[trigger] got[i] == if i < result->Bytes_0@.len() {
                    result->Bytes_0@[i]
                } else {
                    0u8
                }
        },
        result matches OutputResult::Bytes(b) && b@.len() < 18 ==> r@ == CallStepView::Done(
            Err(EcErrorView::WmiCallFailed(0)),
        ),
        result matches OutputResult::NotRead(d) ==> r@ == CallStepView::Done(
            Err(EcErrorView::WmiConnect("Get '"@ + s.out_param_name->0@ + "': "@ + d@)),
        ),
        result is NoArray ==> r@ == CallStepView::Done(Err(EcErrorView::WmiCallFailed(0))),
        result matches OutputResult::NoLength(d) ==> r@ == CallStepView::Done(
            Err(EcErrorView::WmiConnect("WMI: "@ + d@)),
        ),
        result matches OutputResult::NoAccess(len) && len < 18 ==> r@ == CallStepView::Done(
            Err(EcErrorView::WmiCallFailed(0)),
        ),
        result matches OutputResult::NoAccess(len) && len >= 18 ==> r@ == CallStepView::Done(
            Err(EcErrorView::WmiConnect("读取 WMI 响应数组失败"@)),
        ),
{
}

/// A new session knows nothing. The views of a session and of a step keep all that they hold.
pub proof fn law_views_of_sessions(fresh: Session, s: Session, step: CallStep)
    requires
        call_ensures(Session::new, (), fresh),
    ensures
        fresh.target is None,
        fresh.in_param_name is None,
        fresh.out_param_name is None,
        fresh.fatal is None,
        s.target is Some <==> s@.target is Some,
        s.target is Some ==> s@.target->0 == s.target->0@,
        s.in_param_name is Some <==> s@.in_param_name is Some,
        s.in_param_name is Some ==> s@.in_param_name->0 == s.in_param_name->0@,
        s.out_param_name is Some <==> s@.out_param_name is Some,
        s.out_param_name is Some ==> s@.out_param_name->0 == s.out_param_name->0@,
        s.fatal is Some <==> s@.fatal is Some,
        s.fatal is Some ==> s@.fatal->0 == s.fatal->0@,
        step is ListInstances <==> step@ is ListInstances,
        step is GetClass <==> step@ is GetClass,
        step is GetMethod <==> step@ is GetMethod,
        step is AwaitResult <==> step@ is AwaitResult,
        step matches CallStep::PutInput(name) ==> step@ == CallStepView::PutInput(name@),
        step matches CallStep::Execute(path) ==> step@ == CallStepView::Execute(path@),
        step matches CallStep::GetOutput(name) ==> step@ == CallStepView::GetOutput(name@),
        step matches CallStep::Done(Ok(b)) ==> step@ == CallStepView::Done(
            Ok::<Seq<u8>, EcErrorView>(b@),
        ),
        step matches CallStep::Done(Err(e)) ==> step@ == CallStepView::Done(
            Err::<Seq<u8>, EcErrorView>(e@),
        ),
{
    let v = fresh@;
    assert(v.target is None && v.in_param_name is None && v.out_param_name is None && v.fatal
        is None);
}

} // verus!
