//! Dispatch of remote procedure calls.
//!
//! A call goes through three steps. [`handle_server_fns_inner`] looks the
//! path up: where no procedure is registered it answers with a diagnostic,
//! otherwise it runs the context provider hook, builds the request context
//! and notes what the request says about redirects. The caller then runs the
//! procedure under that context, and the procedure may write to the
//! context's overrides. [`Completion::apply`] finally turns the procedure's
//! response into the response that leaves: it redirects plain form posts to
//! the page they came from, then folds the overrides' headers in. Where the
//! procedure's worker fails before there is a response,
//! [`worker_failure_response`] answers in its place.

use crate::bytes::{
    check_visible_ascii, contains_bytes, find_bytes, html_media_type, html_media_type_bytes,
    is_visible_ascii,
};
use crate::context::{RequestContext, RequestHead, ResponseOverrides};
use crate::headers::{
    accept_name, header_entries, header_first, header_try_insert, header_value_bytes,
    lemma_fixed_names, location_name, make_header_name, merge_entries, merge_headers,
    referer_name, value_bytes, values_of, within_limit, HeaderEntries, Headers,
};
use crate::registry::{registered_service, serialize_server_error, ServerFnService};
use crate::response::{
    LocalResponse, ResponseHead, Status, STATUS_BAD_REQUEST, STATUS_FOUND,
    STATUS_INTERNAL_SERVER_ERROR,
};
use vstd::prelude::*;

verus! {

/// Where the server runs, which decides how a procedure is executed and what
/// remedy the diagnostic for an unknown path suggests.
#[derive(Clone, Copy, Debug, PartialEq, Eq, Structural)]
pub enum DeploymentTarget {
    /// Work may run on any worker thread.
    MultiThreaded,
    /// Work is bound to the one worker that owns it.
    SingleThreaded,
}

/// How the procedure's unit of work is run.
#[derive(Clone, Copy, Debug, PartialEq, Eq, Structural)]
pub enum ExecutionStrategy {
    /// Await the work where the request is handled.
    DirectAwait,
    /// Hand the work to the designated worker and join it.
    DesignatedWorker,
}

impl DeploymentTarget {
    /// The strategy that this target calls for.
    pub open spec fn strategy(self) -> ExecutionStrategy {
        match self {
            DeploymentTarget::MultiThreaded => ExecutionStrategy::DirectAwait,
            DeploymentTarget::SingleThreaded => ExecutionStrategy::DesignatedWorker,
        }
    }

    /// Picks the execution strategy for this target.
    pub fn execution_strategy(self) -> (strategy: ExecutionStrategy)
        ensures
            strategy == self.strategy(),
    {
        match self {
            DeploymentTarget::MultiThreaded => ExecutionStrategy::DirectAwait,
            DeploymentTarget::SingleThreaded => ExecutionStrategy::DesignatedWorker,
        }
    }
}

/// `part` stands somewhere in `text`.
pub open spec fn text_contains(text: Seq<char>, part: Seq<char>) -> bool {
    exists|at: int|
        0 <= at && at + part.len() <= text.len() && #[trigger] text.subrange(
            at,
            at + part.len(),
        ) == part
}

/// How the diagnostic for an unknown path begins.
pub open spec fn diagnostic_lead() -> Seq<char> {
    "No server function found for path: "@
}

/// The remedy that the diagnostic suggests on the given target.
pub open spec fn diagnostic_remedy(target: DeploymentTarget) -> Seq<char> {
    match target {
        DeploymentTarget::MultiThreaded => "\nYou may need to rebuild your wasm binary to update a server function link or make sure the prefix your server and client use for server functions match."@,
        DeploymentTarget::SingleThreaded => "\nYou may need to explicitly register the server function with `register_explicit`, rebuild your wasm binary to update a server function link or make sure the prefix your server and client use for server functions match."@,
    }
}

/// The diagnostic for a path under which no procedure is registered.
pub open spec fn missing_procedure_text(path: Seq<char>, target: DeploymentTarget) -> Seq<char> {
    diagnostic_lead() + path + diagnostic_remedy(target)
}

/// Writes the diagnostic for a path under which no procedure is registered.
pub fn missing_procedure_message(path: &str, target: DeploymentTarget) -> (message: String)
    ensures
        message@ == missing_procedure_text(path@, target),
        text_contains(message@, path@),
{
    let mut message = String::from_str("No server function found for path: ");
    message.append(path);
    match target {
        DeploymentTarget::MultiThreaded => {
            message.append(
                "\nYou may need to rebuild your wasm binary to update a server function link or make sure the prefix your server and client use for server functions match.",
            );
        },
        DeploymentTarget::SingleThreaded => {
            message.append(
                "\nYou may need to explicitly register the server function with `register_explicit`, rebuild your wasm binary to update a server function link or make sure the prefix your server and client use for server functions match.",
            );
        },
    }
    proof {
        lemma_diagnostic_names_path(path@, target);
    }
    message
}

/// The diagnostic holds the path, letter for letter.
pub proof fn lemma_diagnostic_names_path(path: Seq<char>, target: DeploymentTarget)
    ensures
        text_contains(missing_procedure_text(path, target), path),
{
    let text = missing_procedure_text(path, target);
    let at = diagnostic_lead().len() as int;
    assert(text.subrange(at, at + path.len()) =~= path);
}

/// What a request says about how its response is to be completed.
pub struct CompletionView {
    /// The client accepts HTML, as a browser does that posts a form.
    pub accepts_html: bool,
    /// The page that the request came from, where it named one.
    pub referrer: Option<Seq<u8>>,
}

/// Whether the request's `Accept` header names `text/html`: the header is
/// there, its first value is printable ASCII, and `text/html` stands in it as
/// written, in lower case.
pub open spec fn request_accepts_html(request: HeaderEntries) -> bool {
    &&& request.contains_key(accept_name())
    &&& is_visible_ascii(request[accept_name()][0])
    &&& contains_bytes(request[accept_name()][0], html_media_type())
}

/// The first `Referer` value of the request, if it has one.
pub open spec fn request_referrer(request: HeaderEntries) -> Option<Seq<u8>> {
    if request.contains_key(referer_name()) {
        Some(request[referer_name()][0])
    } else {
        None
    }
}

/// What is noted from a request's headers before its procedure runs.
pub open spec fn planned_completion(request: HeaderEntries) -> CompletionView {
    CompletionView {
        accepts_html: request_accepts_html(request),
        referrer: request_referrer(request),
    }
}

/// Whether the response is turned into a redirect: the client accepts HTML,
/// the request named the page it came from, and the procedure set no
/// `Location` of its own.
pub open spec fn redirects(plan: CompletionView, response: HeaderEntries) -> bool {
    plan.accepts_html && plan.referrer is Some && !response.contains_key(location_name())
}

/// The status of the completed response.
pub open spec fn completed_status(plan: CompletionView, status: u16, response: HeaderEntries)
    -> u16 {
    if redirects(plan, response) {
        STATUS_FOUND
    } else {
        status
    }
}

/// The response's headers after the redirect step.
pub open spec fn redirected_entries(plan: CompletionView, response: HeaderEntries)
    -> HeaderEntries {
    if redirects(plan, response) {
        response.insert(location_name(), seq![plan.referrer->0])
    } else {
        response
    }
}

/// The headers of the completed response: those of the redirect step, with
/// the overrides' values added behind them name by name.
pub open spec fn completed_entries(
    plan: CompletionView,
    response: HeaderEntries,
    overrides: HeaderEntries,
) -> HeaderEntries {
    merge_entries(redirected_entries(plan, response), overrides)
}

/// What remains to be done once the procedure has answered. It is made
/// before the procedure runs, from the request as it came in, and used up
/// when the response is completed.
pub struct Completion {
    accepts_html: bool,
    referrer: Option<http::HeaderValue>,
}

impl View for Completion {
    type V = CompletionView;

    closed spec fn view(&self) -> CompletionView {
        CompletionView {
            accepts_html: self.accepts_html,
            referrer: match self.referrer {
                Some(referrer) => Some(value_bytes(referrer)),
                None => None,
            },
        }
    }
}

/// The header map of a response refused a header because it was full.
#[derive(Clone, Copy, Debug, PartialEq, Eq, Structural)]
pub struct HeaderLimitReached;

impl Completion {
    /// Notes from the request's headers whether the client accepts HTML and
    /// which page it came from.
    pub fn plan(request: &Headers) -> (completion: Completion)
        ensures
            completion@ == planned_completion(header_entries(*request)),
    {
        proof {
            lemma_fixed_names();
        }
        let accepts_html = match header_first(request, "accept") {
            Some(accept) => {
                let text = header_value_bytes(&accept);
                let media_type = html_media_type_bytes();
                check_visible_ascii(text.as_slice()) && find_bytes(
                    text.as_slice(),
                    media_type.as_slice(),
                )
            },
            None => false,
        };
        let referrer = header_first(request, "referer");
        Completion { accepts_html, referrer }
    }

    /// Whether the client accepts HTML.
    pub fn accepts_html(&self) -> (accepts: bool)
        ensures
            accepts == self@.accepts_html,
    {
        self.accepts_html
    }

    /// The page that the request came from, where it named one.
    pub fn referrer(&self) -> (referrer: Option<&http::HeaderValue>)
        ensures
            match referrer {
                Some(page) => self@.referrer == Some(value_bytes(*page)),
                None => self@.referrer is None,
            },
    {
        self.referrer.as_ref()
    }

    /// Completes the procedure's response.
    ///
    /// Where the client accepts HTML, the request named its referring page and
    /// the response has no `Location`, the response becomes a 302 to that
    /// page. Then every header of the overrides is moved into the response,
    /// behind the values that the response already has under the same name;
    /// no header of the response is replaced. The overrides' status is left
    /// where it is and does not reach the response.
    ///
    /// The only failure is that the response's header map refuses a header
    /// because it is full. That does not happen while the completed response
    /// is within the limit up to which a header map always takes a header.
    pub fn apply(self, response: ResponseHead, overrides: &mut ResponseOverrides) -> (done: Result<
        ResponseHead,
        HeaderLimitReached,
    >)
        ensures
            final(overrides).status == old(overrides).status,
            within_limit(completed_entries(self@, response.entries(), old(overrides).entries()))
                ==> done is Ok,
            done matches Ok(head) ==> {
                &&& head.status.number() == completed_status(
                    self@,
                    response.status.number(),
                    response.entries(),
                )
                &&& !redirects(self@, response.entries()) ==> head.status == response.status
                &&& head.entries() == completed_entries(
                    self@,
                    response.entries(),
                    old(overrides).entries(),
                )
                &&& final(overrides).entries() == HeaderEntries::empty()
            },
    {
        proof {
            lemma_fixed_names();
            let whole = completed_entries(self@, response.entries(), overrides.entries());
            if within_limit(whole) {
                assert(response.entries().dom().subset_of(whole.dom()));
                vstd::set_lib::lemma_len_subset(response.entries().dom(), whole.dom());
            }
        }
        let Completion { accepts_html, referrer } = self;
        let mut response = response;
        if accepts_html {
            if let Some(page) = referrer {
                if header_first(&response.headers, "location").is_none() {
                    let location = make_header_name("location");
                    if !header_try_insert(&mut response.headers, location, page) {
                        return Err(HeaderLimitReached);
                    }
                    response.status = Status::found();
                }
            }
        }
        if !merge_headers(&mut response.headers, &mut overrides.headers) {
            return Err(HeaderLimitReached);
        }
        Ok(response)
    }
}

/// The body that answers for a procedure whose worker failed with `message`.
pub open spec fn worker_failure_text(message: Seq<char>) -> Seq<char> {
    "ServerError|"@ + message
}

/// Answers for a procedure whose unit of work could not be joined on its
/// designated worker: a 500 whose body is the failure, written as the
/// procedure's clients read errors.
pub fn worker_failure_response(message: &str) -> (response: LocalResponse)
    ensures
        response.status.number() == STATUS_INTERNAL_SERVER_ERROR,
        response.body@ == worker_failure_text(message@),
{
    LocalResponse {
        status: Status::internal_server_error(),
        body: serialize_server_error(message),
    }
}

/// What becomes of a call once its path has been looked up.
pub enum ProcedureStep<S, X> {
    /// No procedure is registered under the path: this response ends the
    /// request.
    Reject(LocalResponse),
    /// The procedure is to be run.
    Run(PendingCall<S, X>),
}

/// A call whose procedure was found and has yet to run.
pub struct PendingCall<S, X> {
    /// The procedure, as the registry handed it out.
    pub service: S,
    /// The context under which the procedure runs.
    pub context: RequestContext<X>,
    /// What to do with the procedure's response.
    pub completion: Completion,
}

/// The step that answers a path under which nothing is registered: a 400
/// whose body is the diagnostic for the path.
pub open spec fn step_rejects<S, X>(
    step: ProcedureStep<S, X>,
    path: Seq<char>,
    target: DeploymentTarget,
) -> bool {
    &&& step matches ProcedureStep::Reject(response)
    &&& response.status.number() == STATUS_BAD_REQUEST
    &&& response.body@ == missing_procedure_text(path, target)
    &&& text_contains(response.body@, path)
}

/// Overrides that ask for nothing, as the hook finds them.
pub open spec fn is_fresh(overrides: ResponseOverrides) -> bool {
    overrides.status is None && overrides.entries() == HeaderEntries::empty()
}

/// The hook was run on the request and on the fresh overrides `fresh`, and
/// `context` carries what it gave back: the overrides as the hook left them,
/// and what it attached.
pub open spec fn hook_ran<X, H: FnOnce(&RequestHead, ResponseOverrides) -> (ResponseOverrides, X)>(
    additional_context: H,
    head: RequestHead,
    fresh: ResponseOverrides,
    context: RequestContext<X>,
) -> bool {
    is_fresh(fresh) && call_ensures(
        additional_context,
        (&head, fresh),
        (context.overrides, context.extensions),
    )
}

/// The step that lets a procedure run: the context is built from the request
/// and from what the hook made of the request and of fresh overrides, and the
/// completion is planned from the request's headers.
pub open spec fn step_runs<
    S,
    X,
    H: FnOnce(&RequestHead, ResponseOverrides) -> (ResponseOverrides, X),
>(step: ProcedureStep<S, X>, additional_context: H, head: RequestHead) -> bool {
    &&& step matches ProcedureStep::Run(call)
    &&& call.context.head == head
    &&& exists|fresh: ResponseOverrides| #[trigger]
        hook_ran(additional_context, head, fresh, call.context)
    &&& call.completion@ == planned_completion(head.entries())
}

/// Starts a procedure call, given what the registry holds under `path`.
///
/// Without a service the answer is a 400 whose body names the path, and the
/// hook is not run. With one, `additional_context` is run once, on the
/// request and on overrides that ask for nothing yet. It may write to the
/// overrides, and what it returns beside them is attached to the request
/// context. What the request says about redirects is noted from the request
/// as it came in.
pub fn begin_call<S, X, H: FnOnce(&RequestHead, ResponseOverrides) -> (ResponseOverrides, X)>(
    path: &str,
    additional_context: H,
    service: Option<S>,
    head: RequestHead,
    target: DeploymentTarget,
) -> (step: ProcedureStep<S, X>)
    requires
        service is Some ==> forall|fresh: ResponseOverrides| #[trigger]
            is_fresh(fresh) ==> call_requires(additional_context, (&head, fresh)),
    ensures
        service is None ==> step_rejects(step, path@, target),
        service matches Some(found) ==> {
            &&& step_runs(step, additional_context, head)
            &&& step matches ProcedureStep::Run(call)
            &&& call.service == found
        },
{
    match service {
        None => ProcedureStep::Reject(
            LocalResponse { status: Status::bad_request(), body: missing_procedure_message(path, target) },
        ),
        Some(found) => {
            let fresh = ResponseOverrides::new();
            let ghost before = fresh;
            assert(is_fresh(fresh));
            let (overrides, extensions) = additional_context(&head, fresh);
            let completion = Completion::plan(&head.headers);
            let context = RequestContext::new(head, overrides, extensions);
            proof {
                assert(hook_ran(additional_context, head, before, context));
            }
            ProcedureStep::Run(PendingCall { service: found, context, completion })
        },
    }
}

/// Starts a procedure call: looks `path` up in the registry, for the method
/// of the request, and goes on as [`begin_call`] does with what it finds.
///
/// Which of the two steps comes out is for the registry to say. Either the
/// call is rejected with the diagnostic for `path`, or the procedure that was
/// found is to be run under a context built from `head`.
pub fn handle_server_fns_inner<X, H: FnOnce(&RequestHead, ResponseOverrides) -> (ResponseOverrides, X)>(
    path: &str,
    additional_context: H,
    head: RequestHead,
    target: DeploymentTarget,
) -> (step: ProcedureStep<ServerFnService, X>)
    requires
        forall|fresh: ResponseOverrides| #[trigger]
            is_fresh(fresh) ==> call_requires(additional_context, (&head, fresh)),
    ensures
        step_rejects(step, path@, target) || step_runs(step, additional_context, head),
{
    let service = registered_service(path, &head.method);
    begin_call(path, additional_context, service, head, target)
}

/// A plain form post is sent back to the page it came from: where the client
/// accepts HTML, the request named its referring page and the procedure set no
/// `Location`, the completed response is a 302 whose `Location` is that page,
/// whatever the overrides hold.
pub proof fn lemma_form_post_redirects(
    plan: CompletionView,
    status: u16,
    response: HeaderEntries,
    overrides: HeaderEntries,
)
    requires
        plan.accepts_html,
        plan.referrer is Some,
        !response.contains_key(location_name()),
    ensures
        completed_status(plan, status, response) == STATUS_FOUND,
        completed_entries(plan, response, overrides).contains_key(location_name()),
        completed_entries(plan, response, overrides)[location_name()][0] == plan.referrer->0,
{
}

/// A redirect that the procedure issued itself is not overridden: where its
/// response has a `Location`, the status stays as the procedure set it and the
/// `Location` values stay in front, in their order.
pub proof fn lemma_own_location_stays(
    plan: CompletionView,
    status: u16,
    response: HeaderEntries,
    overrides: HeaderEntries,
)
    requires
        response.contains_key(location_name()),
    ensures
        completed_status(plan, status, response) == status,
        completed_entries(plan, response, overrides).contains_key(location_name()),
        response[location_name()].is_prefix_of(
            completed_entries(plan, response, overrides)[location_name()],
        ),
{
    let whole = completed_entries(plan, response, overrides);
    assert(whole[location_name()] == response[location_name()] + values_of(
        overrides,
        location_name(),
    ));
}

/// Every header written to the overrides reaches the response, whether or
/// not the procedure ever looked at them: its values stand at the end of the
/// values under its name, in their order.
pub proof fn lemma_overrides_reach_response(
    plan: CompletionView,
    response: HeaderEntries,
    overrides: HeaderEntries,
    name: Seq<char>,
)
    requires
        overrides.contains_key(name),
    ensures
        completed_entries(plan, response, overrides).contains_key(name),
        overrides[name].is_suffix_of(completed_entries(plan, response, overrides)[name]),
{
    let whole = completed_entries(plan, response, overrides);
    let ahead = values_of(redirected_entries(plan, response), name);
    assert(whole[name] == ahead + overrides[name]);
    assert((ahead + overrides[name]).subrange(
        ahead.len() as int,
        (ahead + overrides[name]).len() as int,
    ) =~= overrides[name]);
}

/// No header of the procedure's response is replaced or lost: each name of
/// the response is in the completed response, with the response's values in
/// front.
pub proof fn lemma_response_headers_stay(
    plan: CompletionView,
    response: HeaderEntries,
    overrides: HeaderEntries,
    name: Seq<char>,
)
    requires
        response.contains_key(name),
    ensures
        completed_entries(plan, response, overrides).contains_key(name),
        response[name].is_prefix_of(completed_entries(plan, response, overrides)[name]),
{
    let whole = completed_entries(plan, response, overrides);
    assert(whole[name] == response[name] + values_of(overrides, name));
}

/// A name that the overrides do not mention keeps exactly the values that the
/// redirect step left under it.
pub proof fn lemma_untouched_names(
    plan: CompletionView,
    response: HeaderEntries,
    overrides: HeaderEntries,
    name: Seq<char>,
)
    requires
        !overrides.contains_key(name),
    ensures
        completed_entries(plan, response, overrides).contains_key(name)
            == redirected_entries(plan, response).contains_key(name),
        values_of(completed_entries(plan, response, overrides), name) == values_of(
            redirected_entries(plan, response),
            name,
        ),
{
    let whole = completed_entries(plan, response, overrides);
    let redirected = redirected_entries(plan, response);
    if redirected.contains_key(name) {
        assert(whole[name] =~= redirected[name]);
    }
}

/// Where the overrides name no header of the procedure's response, every
/// header of that response is in the completed response with exactly the
/// values it had, as many and in the same order.
pub proof fn lemma_disjoint_overrides_keep_values(
    plan: CompletionView,
    response: HeaderEntries,
    overrides: HeaderEntries,
    name: Seq<char>,
)
    requires
        response.contains_key(name),
        !overrides.contains_key(name),
    ensures
        completed_entries(plan, response, overrides).contains_key(name),
        completed_entries(plan, response, overrides)[name] == response[name],
{
    let whole = completed_entries(plan, response, overrides);
    assert(whole[name] =~= response[name]);
}

/// A header of the overrides whose name the response does not have after
/// the redirect step stands in the completed response with the overrides'
/// values and no others.
pub proof fn lemma_override_alone(
    plan: CompletionView,
    response: HeaderEntries,
    overrides: HeaderEntries,
    name: Seq<char>,
)
    requires
        overrides.contains_key(name),
        !redirected_entries(plan, response).contains_key(name),
    ensures
        completed_entries(plan, response, overrides).contains_key(name),
        completed_entries(plan, response, overrides)[name] == overrides[name],
{
    let whole = completed_entries(plan, response, overrides);
    assert(whole[name] =~= overrides[name]);
}

} // verus!
