//! Handing the environment to the renderer.
//!
//! The library does not run the renderer. It makes what the renderer is
//! handed, a [`RenderRequest`], and says what the renderer's answer comes to,
//! with [`rendering`]:
//!
//! ```text
//! let request = environment.run_preprocessor(template_path, read)?;
//! let answer = /* render `request.source` against `request.globals` */;
//! let output = rendering(answer)?;
//! ```

use vstd::prelude::*;

use crate::environment::Environment;
use crate::failure::{Failure, FailureView};
use crate::object::{environment_object, object_nodes};
use crate::read::{read_text, ReadOutcome};

verus! {

/// What the renderer is handed: the text of the template, and the object
/// graph of the environment as the template's globals.
#[derive(Debug)]
pub struct RenderRequest {
    pub source: String,
    pub globals: liquid::Object,
}

/// What a rendering comes to, given what the renderer gave: its output as it
/// is, or its complaint as a [`Failure::Render`].
pub fn rendering(outcome: Result<String, String>) -> (result: Result<String, Failure>)
    ensures
        match outcome {
            Ok(output) => result matches Ok(text) && text@ == output@,
            Err(message) => result matches Err(failure) && failure@ == (FailureView::Render {
                message: message@,
            }),
        },
{
    match outcome {
        Ok(output) => Ok(output),
        Err(message) => Err(Failure::Render { message }),
    }
}

/// Makes what the renderer is handed to render a template against the
/// environment.
///
/// `template` is what reading the file at `template_path` gave. Where that
/// gave no text, the failure says why. Where it did, the request holds that
/// text and the environment's object graph.
pub fn preprocess(template_path: &str, template: ReadOutcome, environment: &Environment) -> (result:
    Result<RenderRequest, Failure>)
    ensures
        match read_text(template_path@, template@) {
            Err(failure) => result matches Err(f) && f@ == failure,
            Ok(text) => result matches Ok(request) && request.source@ == text && object_nodes(
                request.globals,
            ) == environment_object(environment@),
        },
{
    match template.into_text(template_path) {
        Err(failure) => Err(failure),
        Ok(source) => Ok(RenderRequest { source, globals: environment.to_object() }),
    }
}

impl Environment {
    /// Makes what the renderer is handed to render a template against this
    /// environment, as [`preprocess`] does.
    pub fn run_preprocessor(&self, template_path: &str, template: ReadOutcome) -> (result: Result<
        RenderRequest,
        Failure,
    >)
        ensures
            match read_text(template_path@, template@) {
                Err(failure) => result matches Err(f) && f@ == failure,
                Ok(text) => result matches Ok(request) && request.source@ == text && object_nodes(
                    request.globals,
                ) == environment_object(self@),
            },
    {
        preprocess(template_path, template, self)
    }
}

} // verus!
