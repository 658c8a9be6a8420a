//! The engine's operations: authorising and planning a launch, forwarding a
//! child's events, writing to its input and ending it.

use crate::encoding::{
    label_model, resolve_encoding, resolved_encoding, unknown_label, EncodingWrapper,
};
use crate::error::{Error, ErrorModel};
use crate::event::{
    buffer_bytes, event_fits, translated, Buffer, BufferModel, CommandEvent, CommandEventModel,
    JSCommandEvent, JSCommandEventModel, TerminatedPayload,
};
use crate::registry::Registry;
use crate::scope::{
    bins_model, lemma_unlisted_sidecar_refused, names_sidecar, plan_scope_request, request_for,
    without_extension, ScopeRequest, ScopeRequestModel,
};
use std::collections::HashMap;
use std::path::PathBuf;
use vstd::prelude::*;

verus! {

/// `std::path::PathBuf`: a working directory, carried from the options to
/// the plan and never looked into.
#[verifier::external_type_specification]
#[verifier::external_body]
pub struct ExPathBuf(PathBuf);

/// Options of one request.
#[derive(Debug, Clone)]
pub struct CommandOptions {
    /// Whether the program names a bundled sidecar.
    pub sidecar: bool,
    /// Working directory of the process; the caller's where absent.
    pub cwd: Option<PathBuf>,
    /// Variables to set for the process; where absent, the process gets an
    /// empty environment.
    pub env: Option<HashMap<String, String>>,
    /// Label of the encoding of the process's output.
    pub encoding: Option<String>,
}

impl Default for CommandOptions {
    fn default() -> (options: Self)
        ensures
            !options.sidecar,
            options.cwd is None,
            options.env is None,
            options.encoding is None,
    {
        CommandOptions { sidecar: false, cwd: None, env: None, encoding: None }
    }
}

/// The environment of a request that says nothing of it: no variable is
/// added, which is not the same as an absent mapping.
pub fn default_env() -> (env: Option<HashMap<String, String>>)
    ensures
        env matches Some(vars) && vars@ == Map::<String, String>::empty(),
{
    Some(HashMap::new())
}

/// A launch that was authorised: what the allowlist made of the request,
/// with the request's options resolved.
#[derive(Debug)]
pub struct LaunchPlan<T> {
    /// The command as the allowlist validated it.
    pub command: T,
    /// Working directory to apply, if any.
    pub cwd: Option<PathBuf>,
    /// Variables to set; `None` clears the whole environment.
    pub env: Option<HashMap<String, String>>,
    /// How every chunk of the process's output is decoded.
    pub encoding: EncodingWrapper,
}

/// Whether `r` is the outcome of planning a launch after the allowlist
/// answered `validated`: a refusal is reported without the allowlist's
/// diagnostic for a program and with it for a sidecar; an unknown encoding is
/// refused; otherwise the plan carries the validated command and the options.
pub open spec fn launch_outcome<T>(
    program: Seq<char>,
    options: CommandOptions,
    validated: Result<T, String>,
    r: Result<LaunchPlan<T>, Error>,
) -> bool {
    match validated {
        Err(diagnostic) => r matches Err(e) && e@ == (if options.sidecar {
            ErrorModel::Scope(diagnostic@)
        } else {
            ErrorModel::ProgramNotAllowed(program)
        }),
        Ok(command) => match resolved_encoding(label_model(options.encoding)) {
            Err(refusal) => r matches Err(e) && e@ == refusal,
            Ok(encoding) => r matches Ok(plan) && plan.command == command && plan.cwd
                == options.cwd && plan.env == options.env && plan.encoding == encoding,
        },
    }
}

/// Plans the launch of a request that the allowlist has answered.
pub fn launch_plan<T>(program: String, options: CommandOptions, validated: Result<T, String>) -> (r:
    Result<LaunchPlan<T>, Error>)
    ensures
        launch_outcome(program@, options, validated, r),
{
    let CommandOptions { sidecar, cwd, env, encoding } = options;
    match validated {
        Err(diagnostic) => {
            if sidecar {
                Err(Error::Scope(diagnostic))
            } else {
                Err(Error::ProgramNotAllowed(program))
            }
        },
        Ok(command) => match resolve_encoding(encoding) {
            Err(refusal) => Err(refusal),
            Ok(encoding) => Ok(LaunchPlan { command, cwd, env, encoding }),
        },
    }
}

/// Whether `r` is an outcome of `execute` where the program's path without
/// its extension is `stripped`: a sidecar that is not configured is refused
/// before the allowlist is asked; otherwise the allowlist is asked to
/// validate the request, and the launch is planned from its answer.
pub open spec fn executed<T, F: FnOnce(&ScopeRequest) -> Result<T, String>>(
    program: Seq<char>,
    options: CommandOptions,
    bins: Option<Seq<String>>,
    stripped: Seq<char>,
    validate: F,
    r: Result<LaunchPlan<T>, Error>,
) -> bool {
    match request_for(program, options.sidecar, bins, stripped) {
        Err(refusal) => r matches Err(e) && e@ == refusal,
        Ok(wanted) => exists|request: ScopeRequest, validated: Result<T, String>|
            request@ == wanted && #[trigger] validate.ensures((&request,), validated)
                && launch_outcome(program, options, validated, r),
    }
}

/// Authorises a request and plans its launch. `validate` is the allowlist: it
/// gives the validated command for a request, or a diagnostic. Nothing is
/// spawned here; every refusal comes before a process exists.
pub fn execute<T, F: FnOnce(&ScopeRequest) -> Result<T, String>>(
    program: String,
    options: CommandOptions,
    external_bin: &Option<Vec<String>>,
    validate: F,
) -> (r: Result<LaunchPlan<T>, Error>)
    requires
        forall|request: &ScopeRequest| #[trigger] validate.requires((request,)),
    ensures
        exists|stripped: Seq<char>| #[trigger]
            executed(program@, options, bins_model(*external_bin), stripped, validate, r),
{
    let stripped = without_extension(program.as_str());
    let planned = plan_scope_request(program.clone(), options.sidecar, external_bin, &stripped);
    match planned {
        Err(refusal) => {
            let r = Err(refusal);
            assert(executed(
                program@,
                options,
                bins_model(*external_bin),
                stripped@,
                validate,
                r,
            ));
            r
        },
        Ok(request) => {
            let validated = validate(&request);
            let r = launch_plan(program, options, validated);
            assert(executed(
                program@,
                options,
                bins_model(*external_bin),
                stripped@,
                validate,
                r,
            ));
            r
        },
    }
}

/// A program that the allowlist does not validate is refused as not allowed,
/// whatever its options are, and no launch is planned.
pub proof fn lemma_denied_program_not_allowed<T, F: FnOnce(&ScopeRequest) -> Result<T, String>>(
    program: Seq<char>,
    options: CommandOptions,
    bins: Option<Seq<String>>,
    stripped: Seq<char>,
    validate: F,
    r: Result<LaunchPlan<T>, Error>,
)
    requires
        !options.sidecar,
        forall|request: &ScopeRequest, validated: Result<T, String>|
            request@ == (ScopeRequestModel::Program { program }) && #[trigger] validate.ensures(
                (request,),
                validated,
            ) ==> validated is Err,
        executed(program, options, bins, stripped, validate, r),
    ensures
        r matches Err(e) && e@ == ErrorModel::ProgramNotAllowed(program),
{
}

/// A sidecar that matches no configured binary, neither as written nor
/// without its extension, is refused before the allowlist is asked.
pub proof fn lemma_unlisted_sidecar_not_allowed<T, F: FnOnce(&ScopeRequest) -> Result<T, String>>(
    program: Seq<char>,
    options: CommandOptions,
    bins: Option<Seq<String>>,
    stripped: Seq<char>,
    validate: F,
    r: Result<LaunchPlan<T>, Error>,
)
    requires
        options.sidecar,
        bins matches Some(b) ==> forall|i: int|
            0 <= i < b.len() ==> !names_sidecar(#[trigger] b[i]@, program, stripped),
        executed(program, options, bins, stripped, validate, r),
    ensures
        r matches Err(e) && e@ == ErrorModel::SidecarNotAllowed(program),
{
    lemma_unlisted_sidecar_refused(program, bins, stripped);
}

/// A request with an unknown encoding label is refused, and no launch is
/// planned, also where the allowlist permits the program.
pub proof fn lemma_unknown_encoding_refused<T>(
    program: Seq<char>,
    options: CommandOptions,
    validated: Result<T, String>,
    r: Result<LaunchPlan<T>, Error>,
)
    requires
        validated is Ok,
        launch_outcome(program, options, validated, r),
    ensures
        options.encoding matches Some(label) ==> unknown_label(label@) ==> (r matches Err(e) && e@
            == ErrorModel::UnknownEncoding(label@)),
{
}

/// The bytes to write to the input of the child that `pid` names, or nothing
/// where no such child is live.
pub open spec fn stdin_bytes<C>(children: Map<u32, C>, pid: u32, buffer: BufferModel) -> Option<
    Seq<u8>,
> {
    if children.contains_key(pid) {
        Some(buffer_bytes(buffer))
    } else {
        None
    }
}

/// Decides a write to a child's input: the bytes to write where `pid` names a
/// live child, nothing where it does not, which is no failure.
pub fn stdin_write<C>(children: &Registry<C>, pid: u32, buffer: Buffer) -> (bytes: Option<Vec<u8>>)
    ensures
        match bytes {
            Some(b) => stdin_bytes(children@, pid, buffer@) == Some(b@),
            None => stdin_bytes(children@, pid, buffer@) is None,
        },
{
    if children.contains(pid) {
        Some(buffer.into_bytes())
    } else {
        None
    }
}

/// Takes the child that `pid` names out of the registry, for the caller to
/// terminate; where none is live, nothing changes.
pub fn kill<C>(children: &mut Registry<C>, pid: u32) -> (child: Option<C>)
    ensures
        final(children)@ == old(children)@.remove(pid),
        child == (if old(children)@.contains_key(pid) {
            Some(old(children)@[pid])
        } else {
            None
        }),
{
    children.remove(pid)
}

/// What is delivered for an event: nothing once the termination was
/// delivered, else the event as translated under the policy.
pub open spec fn step_delivery(
    finished: bool,
    event: CommandEventModel,
    encoding: EncodingWrapper,
) -> Option<JSCommandEventModel> {
    if finished {
        None
    } else {
        Some(translated(event, encoding))
    }
}

/// The registry after an event of the child `pid`: its termination, where it
/// was not delivered before, takes `pid` out.
pub open spec fn step_registry<C>(
    children: Map<u32, C>,
    pid: u32,
    finished: bool,
    event: CommandEventModel,
) -> Map<u32, C> {
    if !finished && event is Terminated {
        children.remove(pid)
    } else {
        children
    }
}

/// Everything that is delivered for a run of events, in order.
pub open spec fn deliveries(
    finished: bool,
    events: Seq<CommandEventModel>,
    encoding: EncodingWrapper,
) -> Seq<JSCommandEventModel>
    decreases events.len(),
{
    if events.len() == 0 {
        Seq::empty()
    } else {
        let rest = deliveries(finished || events[0] is Terminated, events.drop_first(), encoding);
        match step_delivery(finished, events[0], encoding) {
            Some(delivered) => seq![delivered] + rest,
            None => rest,
        }
    }
}

/// The view of an optional delivery.
pub open spec fn delivery_model(delivered: Option<JSCommandEvent>) -> Option<JSCommandEventModel> {
    match delivered {
        Some(e) => Some(e@),
        None => None,
    }
}

/// The forwarding of one child's events to the caller.
#[derive(Debug)]
pub struct Forwarder {
    pid: u32,
    encoding: EncodingWrapper,
    finished: bool,
}

impl Forwarder {
    /// The child whose events are forwarded.
    pub closed spec fn child(&self) -> u32 {
        self.pid
    }

    /// The policy under which its output is decoded.
    pub closed spec fn policy(&self) -> EncodingWrapper {
        self.encoding
    }

    /// Whether the child's termination was delivered.
    pub closed spec fn finished(&self) -> bool {
        self.finished
    }

    /// Registers a child that was just spawned and starts forwarding for
    /// it: the child is live in the registry before any of its events is
    /// handled. Gives the forwarder, and the child that `pid` named before,
    /// if any.
    pub fn register<C>(
        children: &mut Registry<C>,
        pid: u32,
        child: C,
        encoding: EncodingWrapper,
    ) -> (r: (Self, Option<C>))
        ensures
            r.0.child() == pid,
            r.0.policy() == encoding,
            !r.0.finished(),
            final(children)@ == old(children)@.insert(pid, child),
            r.1 == (if old(children)@.contains_key(pid) {
                Some(old(children)@[pid])
            } else {
                None
            }),
    {
        let previous = children.insert(pid, child);
        (Forwarder { pid, encoding, finished: false }, previous)
    }

    /// The policy under which the child's output is decoded.
    pub fn encoding(&self) -> (encoding: EncodingWrapper)
        ensures
            encoding == self.policy(),
    {
        self.encoding
    }

    /// The child whose events are forwarded.
    pub fn pid(&self) -> (pid: u32)
        ensures
            pid == self.child(),
    {
        self.pid
    }

    /// Whether the child's termination was delivered.
    pub fn is_finished(&self) -> (finished: bool)
        ensures
            finished == self.finished(),
    {
        self.finished
    }

    /// Handles one event of the child: gives what to deliver to the caller.
    /// On termination the child leaves the registry before the event is
    /// handed out; after that nothing more is delivered.
    pub fn forward<C>(&mut self, children: &mut Registry<C>, event: CommandEvent) -> (delivered:
        Option<JSCommandEvent>)
        requires
            event_fits(event@, old(self).policy()),
        ensures
            final(self).child() == old(self).child(),
            final(self).policy() == old(self).policy(),
            final(self).finished() == (old(self).finished() || event@ is Terminated),
            final(children)@ == step_registry(
                old(children)@,
                old(self).child(),
                old(self).finished(),
                event@,
            ),
            delivery_model(delivered) == step_delivery(
                old(self).finished(),
                event@,
                old(self).policy(),
            ),
    {
        if self.finished {
            return None;
        }
        if let CommandEvent::Terminated(_) = &event {
            let _ = children.remove(self.pid);
            self.finished = true;
        }
        Some(JSCommandEvent::new(event, self.encoding))
    }
}

/// An event is delivered as a termination exactly when it is one.
pub proof fn lemma_translated_terminated(event: CommandEventModel, encoding: EncodingWrapper)
    ensures
        translated(event, encoding) is Terminated <==> event is Terminated,
{
}

/// Once the termination was delivered, nothing more is.
pub proof fn lemma_nothing_after_finished(events: Seq<CommandEventModel>, encoding: EncodingWrapper)
    ensures
        deliveries(true, events, encoding).len() == 0,
    decreases events.len(),
{
    if events.len() > 0 {
        lemma_nothing_after_finished(events.drop_first(), encoding);
    }
}

/// Of what is delivered for a child, at most one event is a termination, and
/// it is the last; where the child's channel produces a termination, one is
/// delivered.
pub proof fn lemma_terminated_once_and_last(
    events: Seq<CommandEventModel>,
    encoding: EncodingWrapper,
)
    ensures
        forall|i: int|
            0 <= i < deliveries(false, events, encoding).len() && (#[trigger] deliveries(
                false,
                events,
                encoding,
            )[i]) is Terminated ==> i == deliveries(false, events, encoding).len() - 1,
        (exists|j: int| 0 <= j < events.len() && (#[trigger] events[j]) is Terminated) ==> {
            &&& deliveries(false, events, encoding).len() > 0
            &&& deliveries(false, events, encoding).last() is Terminated
        },
    decreases events.len(),
{
    if events.len() > 0 {
        let rest = events.drop_first();
        let first = translated(events[0], encoding);
        if events[0] is Terminated {
            lemma_nothing_after_finished(rest, encoding);
            assert(deliveries(false, events, encoding) =~= seq![first]);
        } else {
            lemma_terminated_once_and_last(rest, encoding);
            let tail = deliveries(false, rest, encoding);
            assert(deliveries(false, events, encoding) =~= seq![first] + tail);
            assert forall|i: int|
                0 <= i < deliveries(false, events, encoding).len() && (#[trigger] deliveries(
                    false,
                    events,
                    encoding,
                )[i]) is Terminated implies i == deliveries(false, events, encoding).len() - 1 by {
                if i > 0 {
                    assert(tail[i - 1] is Terminated);
                }
            }
            if exists|j: int| 0 <= j < events.len() && (#[trigger] events[j]) is Terminated {
                let j = choose|j: int| 0 <= j < events.len() && (#[trigger] events[j]) is Terminated;
                assert(rest[j - 1] is Terminated);
            }
        }
    }
}

/// After a child's termination was handled, its identifier names no live
/// child: a write to its input gives nothing to write, and ending it changes
/// nothing.
pub proof fn lemma_terminated_child_is_absent<C>(
    children: Map<u32, C>,
    pid: u32,
    payload: TerminatedPayload,
    buffer: BufferModel,
)
    ensures
        ({
            let after = step_registry(children, pid, false, CommandEventModel::Terminated(payload));
            &&& !after.contains_key(pid)
            &&& stdin_bytes(after, pid, buffer) is None
            &&& after.remove(pid) == after
        }),
{
    let after = step_registry(children, pid, false, CommandEventModel::Terminated(payload));
    assert(after.remove(pid) =~= after);
}

} // verus!
