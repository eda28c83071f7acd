//! The renderers of a report and the helpers that their templates use.
//!
//! Writing a report to a sink is left to the caller. What is decided here is
//! which renderer an output type stands for, and what the helpers of a
//! template compute from their parameter.

use crate::cli::OutputType;
use vstd::prelude::*;

verus! {

/// Renders a report as JSON, the fields under their own names.
#[derive(Default, Debug, PartialEq, Eq, Clone)]
pub struct JsonRenderer {}

impl JsonRenderer {
    /// A renderer of JSON.
    pub fn new() -> (renderer: JsonRenderer)
        ensures
            renderer == (JsonRenderer {  }),
    {
        JsonRenderer {  }
    }
}

/// Renders a report through a Handlebars template.
#[derive(Default, Debug, PartialEq, Eq, Clone)]
pub struct HbsRenderer {
    template: String,
}

impl View for HbsRenderer {
    type V = Seq<char>;

    /// The text of the template.
    closed spec fn view(&self) -> Seq<char> {
        self.template@
    }
}

impl HbsRenderer {
    /// A renderer with this text as its template.
    pub fn new(template: &str) -> (renderer: HbsRenderer)
        ensures
            renderer@ == template@,
    {
        HbsRenderer { template: template.to_owned() }
    }

    /// The text of the template.
    pub fn template(&self) -> (template: &str)
        ensures
            template@ == self@,
    {
        self.template.as_str()
    }
}

/// Where the template of a report comes from.
pub enum TemplateSource {
    /// The file at this path.
    File { path: String },
    /// The HTML template that is built in.
    BuiltinHtml,
    /// The Markdown template that is built in.
    BuiltinMarkdown,
}

/// Mathematical model of a [`TemplateSource`].
pub enum TemplateSourceView {
    File { path: Seq<char> },
    BuiltinHtml,
    BuiltinMarkdown,
}

impl View for TemplateSource {
    type V = TemplateSourceView;

    open spec fn view(&self) -> TemplateSourceView {
        match *self {
            TemplateSource::File { path } => TemplateSourceView::File { path: path@ },
            TemplateSource::BuiltinHtml => TemplateSourceView::BuiltinHtml,
            TemplateSource::BuiltinMarkdown => TemplateSourceView::BuiltinMarkdown,
        }
    }
}

/// Which renderer writes the report.
pub enum RendererChoice {
    /// The renderer of JSON.
    Json,
    /// The renderer of templates, with the template from this source.
    Hbs { template: TemplateSource },
}

/// Mathematical model of a [`RendererChoice`].
pub enum RendererChoiceView {
    Json,
    Hbs { template: TemplateSourceView },
}

impl View for RendererChoice {
    type V = RendererChoiceView;

    open spec fn view(&self) -> RendererChoiceView {
        match *self {
            RendererChoice::Json => RendererChoiceView::Json,
            RendererChoice::Hbs { template } => RendererChoiceView::Hbs { template: template@ },
        }
    }
}

/// The renderer that an output type stands for, or `None` where a template of
/// the caller is asked for and none is named.
pub open spec fn renderer_for(
    output_type: OutputType,
    output_template: Option<Seq<char>>,
) -> Option<RendererChoiceView> {
    match output_type {
        OutputType::Hbs => match output_template {
            Some(path) => Some(
                RendererChoiceView::Hbs { template: TemplateSourceView::File { path } },
            ),
            None => None,
        },
        OutputType::Html => Some(
            RendererChoiceView::Hbs { template: TemplateSourceView::BuiltinHtml },
        ),
        OutputType::Json => Some(RendererChoiceView::Json),
        OutputType::Markdown => Some(
            RendererChoiceView::Hbs { template: TemplateSourceView::BuiltinMarkdown },
        ),
    }
}

/// Chooses the renderer for an output type.
pub fn create_renderer(
    output_type: OutputType,
    output_template: Option<&String>,
) -> (choice: Option<RendererChoice>)
    ensures
        match choice {
            Some(c) => renderer_for(
                output_type,
                match output_template {
                    Some(path) => Some(path@),
                    None => None,
                },
            ) == Some(c@),
            None => output_type == OutputType::Hbs && output_template is None,
        },
{
    match output_type {
        OutputType::Hbs => match output_template {
            Some(path) => Some(
                RendererChoice::Hbs { template: TemplateSource::File { path: path.clone() } },
            ),
            None => None,
        },
        OutputType::Html => Some(RendererChoice::Hbs { template: TemplateSource::BuiltinHtml }),
        OutputType::Json => Some(RendererChoice::Json),
        OutputType::Markdown => Some(
            RendererChoice::Hbs { template: TemplateSource::BuiltinMarkdown },
        ),
    }
}

/// The parameter that a template hands to a helper, as far as a helper looks
/// at it.
pub enum Param {
    /// The helper was called without a parameter.
    Missing,
    /// An integer.
    Integer { value: i64 },
    /// A text.
    Text { text: String },
    /// A value of another kind.
    Other,
}

/// Why a helper could not do its work.
#[derive(Debug, PartialEq, Eq, Clone, Copy)]
pub enum HelperError {
    /// The helper was called without a parameter.
    NoSuchParameter,
    /// The parameter is not an integer.
    NotANumber,
    /// The parameter is not a text.
    NotAString,
    /// The successor of the parameter is no integer of 64 bits.
    Overflow,
}

/// What a helper error says to the user.
pub open spec fn helper_message(error: HelperError) -> Seq<char> {
    match error {
        HelperError::NoSuchParameter => "no such parameter"@,
        HelperError::NotANumber => "parameter is not a number"@,
        HelperError::NotAString => "parameter is not a string"@,
        HelperError::Overflow => "parameter has no successor"@,
    }
}

impl HelperError {
    /// What the error says to the user.
    pub fn message(&self) -> (message: &'static str)
        ensures
            message@ == helper_message(*self),
    {
        match self {
            HelperError::NoSuchParameter => "no such parameter",
            HelperError::NotANumber => "parameter is not a number",
            HelperError::NotAString => "parameter is not a string",
            HelperError::Overflow => "parameter has no successor",
        }
    }
}

/// The helper `inc`: the successor of an integer, for numbering from one.
pub fn inc(param: &Param) -> (r: Result<i64, HelperError>)
    ensures
        match *param {
            Param::Missing => r == Err::<i64, HelperError>(HelperError::NoSuchParameter),
            Param::Integer { value } => if value < i64::MAX {
                r == Ok::<i64, HelperError>((value + 1) as i64)
            } else {
                r == Err::<i64, HelperError>(HelperError::Overflow)
            },
            _ => r == Err::<i64, HelperError>(HelperError::NotANumber),
        },
{
    match param {
        Param::Missing => Err(HelperError::NoSuchParameter),
        Param::Integer { value } => match value.checked_add(1) {
            Some(next) => Ok(next),
            None => Err(HelperError::Overflow),
        },
        _ => Err(HelperError::NotANumber),
    }
}

/// The text of the date that a helper for dates is to format.
pub fn date_param(param: &Param) -> (r: Result<&str, HelperError>)
    ensures
        match *param {
            Param::Missing => r == Err::<&str, HelperError>(HelperError::NoSuchParameter),
            Param::Text { text } => r matches Ok(date) && date@ == text@,
            _ => r == Err::<&str, HelperError>(HelperError::NotAString),
        },
{
    match param {
        Param::Missing => Err(HelperError::NoSuchParameter),
        Param::Text { text } => Ok(text.as_str()),
        _ => Err(HelperError::NotAString),
    }
}

} // verus!
