//! The per-request context: what came in with the request, and what the code
//! that serves it wants changed in the response.

use crate::headers::{
    check_header_name, check_header_value, header_entries, header_keys_len, header_try_insert,
    is_header_name, is_header_value, make_header_name, make_header_value, new_header_map,
    HeaderEntries, Headers, MAX_SAFE_KEYS,
};
use crate::response::Status;
use vstd::prelude::*;

verus! {

/// The `http` crate's request method.
#[verifier::external_type_specification]
#[verifier::external_body]
pub struct ExMethod(http::Method);

/// The `http` crate's request target.
#[verifier::external_type_specification]
#[verifier::external_body]
pub struct ExUri(http::Uri);

/// The metadata of an inbound request. It is not changed once the request
/// context is built.
pub struct RequestHead {
    pub method: http::Method,
    pub uri: http::Uri,
    pub headers: Headers,
}

impl RequestHead {
    /// The headers of the request, by name.
    pub open spec fn entries(&self) -> HeaderEntries {
        header_entries(self.headers)
    }
}

/// What the code serving a request asks to have changed in its response: a
/// status, and headers to add. The procedure dispatcher folds the headers
/// into the response and leaves the status to the embedding server.
pub struct ResponseOverrides {
    pub status: Option<Status>,
    pub headers: Headers,
}

/// Why a header was not recorded.
#[derive(Clone, Copy, Debug, PartialEq, Eq, Structural)]
pub enum OverrideError {
    /// The name is not a header name in lower case.
    InvalidName,
    /// The value holds a control character other than a tab.
    InvalidValue,
    /// The overrides already hold more names than can be added to safely.
    TooManyHeaders,
}

impl ResponseOverrides {
    /// The headers recorded so far, by name.
    pub open spec fn entries(&self) -> HeaderEntries {
        header_entries(self.headers)
    }

    /// Overrides that ask for nothing.
    pub fn new() -> (overrides: ResponseOverrides)
        ensures
            overrides.status is None,
            overrides.entries() == HeaderEntries::empty(),
    {
        ResponseOverrides { status: None, headers: new_header_map() }
    }

    /// Asks for `status`; a later call replaces an earlier one.
    pub fn set_status(&mut self, status: Status)
        ensures
            final(self).status == Some(status),
            final(self).headers == old(self).headers,
    {
        self.status = Some(status);
    }

    /// What [`ResponseOverrides::insert_header`] answers for the given
    /// overrides, name and value.
    pub open spec fn insert_outcome(
        entries: HeaderEntries,
        name: Seq<char>,
        value: Seq<u8>,
    ) -> Result<(), OverrideError> {
        if !is_header_name(name) {
            Err(OverrideError::InvalidName)
        } else if !is_header_value(value) {
            Err(OverrideError::InvalidValue)
        } else if entries.dom().len() > MAX_SAFE_KEYS {
            Err(OverrideError::TooManyHeaders)
        } else {
            Ok(())
        }
    }

    /// Records the header `name: value`, given as text and bytes. The last
    /// value written under a name is the one that stays. On an error nothing
    /// is changed. Code that has the `http` crate's own names and values
    /// writes them to `headers` directly.
    pub fn insert_header(&mut self, name: &str, value: &[u8]) -> (outcome: Result<
        (),
        OverrideError,
    >)
        ensures
            outcome == Self::insert_outcome(old(self).entries(), name@, value@),
            final(self).status == old(self).status,
            outcome is Ok ==> final(self).entries() == old(self).entries().insert(
                name@,
                seq![value@],
            ),
            outcome is Err ==> final(self).headers == old(self).headers,
    {
        if !check_header_name(name) {
            return Err(OverrideError::InvalidName);
        }
        if !check_header_value(value) {
            return Err(OverrideError::InvalidValue);
        }
        let count = header_keys_len(&self.headers);
        if count > MAX_SAFE_KEYS {
            return Err(OverrideError::TooManyHeaders);
        }
        let taken = header_try_insert(
            &mut self.headers,
            make_header_name(name),
            make_header_value(value),
        );
        if taken {
            Ok(())
        } else {
            Err(OverrideError::TooManyHeaders)
        }
    }
}

/// The context of one request: its metadata, what the context provider hook
/// attached to it, and the overrides that hook and procedure may write.
pub struct RequestContext<X> {
    pub head: RequestHead,
    pub overrides: ResponseOverrides,
    pub extensions: X,
}

impl<X> RequestContext<X> {
    /// Puts a context together from its parts.
    pub fn new(head: RequestHead, overrides: ResponseOverrides, extensions: X) -> (context:
        RequestContext<X>)
        ensures
            context.head == head,
            context.overrides == overrides,
            context.extensions == extensions,
    {
        RequestContext { head, overrides, extensions }
    }
}

} // verus!
