//! Dispatch of page renders.
//!
//! [`render_handler`] classifies the request. A client that says it does not
//! take HTML is answered at once with 406, and the rendering engine is not to
//! run. Otherwise the caller gets a permit, runs the engine once, and hands
//! the engine's answer to [`RenderPermit::finish`], which passes a rendered
//! response through as it is and turns a failure into a response with an
//! empty body.

use crate::bytes::{
    ascii_lowercase, check_visible_ascii, contains_bytes, find_bytes, html_media_type,
    html_media_type_bytes, is_visible_ascii, to_ascii_lowercase,
};
use crate::headers::{
    accept_name, header_entries, header_first, header_value_bytes, lemma_fixed_names,
    HeaderEntries, Headers,
};
use crate::response::{
    LocalResponse, Status, STATUS_INTERNAL_SERVER_ERROR, STATUS_NOT_ACCEPTABLE,
};
use vstd::prelude::*;

verus! {

/// How the rendering engine can fail.
#[derive(Clone, Copy, Debug, PartialEq, Eq, Structural)]
pub enum RenderError {
    /// The engine names the HTTP status to answer with.
    Http(Status),
    /// Any other failure.
    Other,
}

/// Whether a request may be answered with HTML: it has no `Accept` header,
/// or the first value of that header is printable ASCII and names
/// `text/html`, in capitals or small letters.
pub open spec fn request_takes_html(request: HeaderEntries) -> bool {
    request.contains_key(accept_name()) ==> {
        &&& is_visible_ascii(request[accept_name()][0])
        &&& contains_bytes(ascii_lowercase(request[accept_name()][0]), html_media_type())
    }
}

/// The status that answers a failed render: the engine's own where it names
/// one, 500 otherwise.
pub open spec fn failure_status(error: RenderError) -> u16 {
    match error {
        RenderError::Http(status) => status.number(),
        RenderError::Other => STATUS_INTERNAL_SERVER_ERROR,
    }
}

/// Leave to run the rendering engine once for one request. Only
/// [`render_handler`] hands one out, and finishing the render uses it up.
pub struct RenderPermit {
    sealed: (),
}

/// What becomes of a request for a page.
pub enum RenderStep {
    /// The client does not take HTML: this response ends the request, and
    /// the engine is not run.
    Reject(LocalResponse),
    /// The engine is to be run, once.
    Render(RenderPermit),
}

/// Classifies a request for a page by its headers.
pub fn render_handler(request: &Headers) -> (step: RenderStep)
    ensures
        request_takes_html(header_entries(*request)) ==> step is Render,
        !request_takes_html(header_entries(*request)) ==> {
            &&& step matches RenderStep::Reject(response)
            &&& response.status.number() == STATUS_NOT_ACCEPTABLE
            &&& response.body@ == Seq::<char>::empty()
        },
{
    proof {
        lemma_fixed_names();
    }
    match header_first(request, "accept") {
        Some(accept) => {
            let text = header_value_bytes(&accept);
            let names_html = if check_visible_ascii(text.as_slice()) {
                let lowered = to_ascii_lowercase(text.as_slice());
                let media_type = html_media_type_bytes();
                find_bytes(lowered.as_slice(), media_type.as_slice())
            } else {
                false
            };
            if names_html {
                RenderStep::Render(RenderPermit { sealed: () })
            } else {
                RenderStep::Reject(LocalResponse::empty(Status::not_acceptable()))
            }
        },
        None => RenderStep::Render(RenderPermit { sealed: () }),
    }
}

/// Maps a render failure to the status that answers it.
pub fn render_failure_status(error: RenderError) -> (status: Status)
    ensures
        status.number() == failure_status(error),
        error matches RenderError::Http(named) ==> status == named,
{
    match error {
        RenderError::Http(status) => status,
        RenderError::Other => Status::internal_server_error(),
    }
}

impl RenderPermit {
    /// Takes the engine's answer. A rendered response is returned as it came;
    /// a failure becomes a response with the failure's status and an empty
    /// body.
    pub fn finish<R>(self, outcome: Result<R, RenderError>) -> (answer: Result<R, LocalResponse>)
        ensures
            outcome matches Ok(rendered) ==> answer == Ok::<R, LocalResponse>(rendered),
            outcome matches Err(error) ==> {
                &&& answer matches Err(response)
                &&& response.status.number() == failure_status(error)
                &&& error matches RenderError::Http(named) ==> response.status == named
                &&& response.body@ == Seq::<char>::empty()
            },
    {
        match outcome {
            Ok(rendered) => Ok(rendered),
            Err(error) => Err(LocalResponse::empty(render_failure_status(error))),
        }
    }
}

/// A client that names what it accepts, and names no HTML, is refused: any
/// `Accept` value in which `text/html` does not stand, in whatever case,
/// makes the request one that does not take HTML.
pub proof fn lemma_other_media_types_refused(request: HeaderEntries)
    requires
        request.contains_key(accept_name()),
        !contains_bytes(ascii_lowercase(request[accept_name()][0]), html_media_type()),
    ensures
        !request_takes_html(request),
{
}

/// A request without an `Accept` header takes HTML.
pub proof fn lemma_no_accept_takes_html(request: HeaderEntries)
    requires
        !request.contains_key(accept_name()),
    ensures
        request_takes_html(request),
{
}

} // verus!
