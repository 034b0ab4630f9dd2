//! Deferred references to externally stored sub-documents.
//!
//! An `Include<T>` holds only a resource name until it is rendered. Loading
//! the resource text is the caller's affair (it is file I/O); this module
//! holds every decision that follows the load: a missing resource fails the
//! whole render with `ResourceUnavailable`, text that does not decode fails
//! it with `DecodeError`, and a decoded value renders exactly as itself, the
//! reference adding no markup of its own.

use vstd::prelude::*;
use vstd::string::StringExecFns;
use core::marker::PhantomData;
use crate::render::ToBBCode;

verus! {

/// Why a render was aborted; each variant names the failing resource.
/// No partial markup accompanies an error: rendering is all-or-nothing.
#[derive(Debug)]
pub enum RenderError {
    /// The named resource could not be located or read.
    ResourceUnavailable(String),
    /// The named resource was read, but its text does not match the shape
    /// the reference decodes into.
    DecodeError(String),
}

impl RenderError {
    /// The name of the resource whose loading or decoding failed.
    pub open spec fn spec_resource(&self) -> Seq<char> {
        match self {
            RenderError::ResourceUnavailable(n) => n@,
            RenderError::DecodeError(n) => n@,
        }
    }

    /// The name of the resource whose loading or decoding failed.
    pub fn resource(&self) -> (r: &String)
        ensures
            r@ == self.spec_resource(),
    {
        match self {
            RenderError::ResourceUnavailable(n) => n,
            RenderError::DecodeError(n) => n,
        }
    }
}

#[verifier::external_type_specification]
#[verifier::external_body]
pub struct ExSpannedError(ron::error::SpannedError);

/// The string value that the structured-data notation gives to a piece of
/// text, when the text is a well-formed document of one string.
pub uninterp spec fn ron_string_value(s: Seq<char>) -> Option<Seq<char>>;

/// Relies on ron::from_str::<String>: decodes RON text into a string value,
/// or reports where the text fails to parse; the outcome depends on the
/// input text alone.
#[verifier::external_body]
fn parse_ron_string(s: &str) -> (r: Result<String, ron::error::SpannedError>)
    ensures
        r is Ok <==> ron_string_value(s@) is Some,
        r is Ok ==> r->Ok_0@ == ron_string_value(s@)->Some_0,
{
    ron::from_str::<String>(s)
}

/// A reference to an externally stored sub-document, phantom-typed by the
/// value it decodes into. It owns nothing but the resource name until it is
/// resolved, and it is resolved at most once, since resolving consumes it.
pub struct Include<T>(pub String, pub PhantomData<T>);

impl<T> Include<T> {
    /// A reference to the named resource.
    pub fn new(uri: &str) -> (r: Self)
        ensures
            r.0@ == uri@,
    {
        Include(String::from_str(uri), PhantomData)
    }

    /// Decide on a load outcome: text that arrived passes through, and a
    /// missing resource is a `ResourceUnavailable` error naming it.
    pub fn check_loaded(&self, loaded: Option<String>) -> (r: Result<String, RenderError>)
        ensures
            loaded matches Some(text) ==> r == Ok::<String, RenderError>(text),
            loaded is None ==> r == Err::<String, RenderError>(
                RenderError::ResourceUnavailable(self.0),
            ),
    {
        match loaded {
            Some(text) => Ok(text),
            None => Err(RenderError::ResourceUnavailable(self.0.clone())),
        }
    }
}

impl<T: ToBBCode> Include<T> {
    /// A resolved reference renders exactly as its decoded value: the
    /// reference contributes no tags or markers of its own.
    pub fn render_decoded(self, value: T) -> (r: String)
        requires
            value.renderable(),
        ensures
            r@ == value.spec_render(),
    {
        value.to_bbcode()
    }
}

impl Include<String> {
    /// Resolve a string-typed reference once its load outcome is in.
    /// A missing resource fails with `ResourceUnavailable`; text that does
    /// not decode as one string value fails with `DecodeError`; otherwise
    /// the result is the decoded string's own rendering, with no residual
    /// reference marker.
    pub fn resolve(self, loaded: Option<String>) -> (r: Result<String, RenderError>)
        ensures
            loaded is None ==> r == Err::<String, RenderError>(
                RenderError::ResourceUnavailable(self.0),
            ),
            loaded matches Some(text) ==> {
                &&& (r is Ok <==> ron_string_value(text@) is Some)
                &&& (r is Ok ==> r->Ok_0@ == ron_string_value(text@)->Some_0)
                &&& (r is Err ==> r->Err_0 == RenderError::DecodeError(self.0))
            },
    {
        match loaded {
            None => Err(RenderError::ResourceUnavailable(self.0)),
            Some(text) => match parse_ron_string(text.as_str()) {
                Ok(value) => Ok(value),
                Err(_) => Err(RenderError::DecodeError(self.0)),
            },
        }
    }
}

} // verus!
