//! The report workflow: load a named template, resolve it, persist the
//! resolved document, render it, and publish the artifact. The workflow is a
//! state machine; the caller performs each action and reports what happened.
use vstd::prelude::*;
use crate::render::{
    arg_texts, join, option_args, pdf_output, pdf_output_path, pdf_retrieval, pdf_retrieval_path,
    push_option_args, SitetopdfOptions,
};
use crate::resolution::QueryExecutionError;
use crate::text::{chars_of, decimal, push_decimal, string_of, append_all};

verus! {

/// A request for a report from a named template.
pub struct ProcessReportRequest {
    pub template_name: String,
    pub options: SitetopdfOptions,
}

/// Why a report or a retrieval failed.
pub enum ReportError {
    TemplateNotFound,
    TemplateUnreadable,
    WriteError,
    /// The renderer failed; its standard error.
    RenderError(String),
    /// No artifact has that identifier.
    NotFound,
}

impl ReportError {
    /// The HTTP status that reports this failure.
    pub fn status(&self) -> (r: u16)
        ensures
            r == match *self {
                ReportError::TemplateNotFound => 400u16,
                ReportError::TemplateUnreadable => 400u16,
                ReportError::NotFound => 404u16,
                _ => 500u16,
            },
    {
        match self {
            ReportError::TemplateNotFound => 400,
            ReportError::TemplateUnreadable => 400,
            ReportError::NotFound => 404,
            _ => 500,
        }
    }
}

/// Where the workflow stands.
#[derive(PartialEq, Eq, Structural)]
pub enum ReportStage {
    AwaitTemplate,
    AwaitResolution,
    AwaitWrite,
    AwaitRender,
    Finished,
}

/// What the caller observed after performing the last action.
pub enum ReportEvent {
    TemplateMissing,
    TemplateUnreadable,
    TemplateLoaded(String),
    Resolved(Result<String, QueryExecutionError>),
    Written(bool),
    Rendered { success: bool, stderr: String },
}

/// What the caller is to do next.
pub enum ReportAction {
    /// Read the template at this path.
    ReadTemplate(String),
    /// Resolve this template content.
    Resolve(String),
    /// Write this document to this transient path.
    Write { path: String, html: String },
    /// Run the renderer with these arguments.
    Render(Vec<String>),
    /// Answer the request; on success also delete the transient document in
    /// the background.
    Respond { outcome: Result<String, ReportError>, cleanup: Option<String> },
}

pub open spec fn template_path(name: Seq<char>) -> Seq<char> {
    "./templates/"@ + name
}

/// Where the resolved document is kept while the renderer reads it.
pub open spec fn transient_path(id: Seq<char>) -> Seq<char> {
    "./temp/"@ + id + ".html"@
}

/// The URL the renderer reads the resolved document from.
pub open spec fn transient_url(port: u16, id: Seq<char>) -> Seq<char> {
    "http://localhost:"@ + decimal(port as int) + "/temp/"@ + id + ".html"@
}

/// The renderer's arguments for a report.
pub open spec fn report_args(o: SitetopdfOptions, port: u16, id: Seq<char>) -> Seq<Seq<char>> {
    seq!["--url"@, transient_url(port, id), "--output"@, pdf_output(id), "--verbose"@]
        + option_args(o)
}

/// One report in progress.
pub struct ReportJob {
    pub request: ProcessReportRequest,
    /// The identifier of the artifact and of the transient document.
    pub id: String,
    /// The port the transient document is served on.
    pub port: u16,
    pub stage: ReportStage,
}

pub fn transient_path_of(id: &str) -> (r: String)
    ensures
        r@ == transient_path(id@),
{
    join(join("./temp/", id).as_str(), ".html")
}

pub fn transient_url_of(port: u16, id: &str) -> (r: String)
    ensures
        r@ == transient_url(port, id@),
{
    let mut cs = chars_of("http://localhost:");
    push_decimal(port as i64, &mut cs);
    let tail = chars_of(join(join("/temp/", id).as_str(), ".html").as_str());
    append_all(&mut cs, &tail);
    assert(cs@ =~= transient_url(port, id@));
    string_of(cs.as_slice())
}

/// The renderer's arguments for the report `id`, served on `port`.
pub fn report_render_args(o: &SitetopdfOptions, port: u16, id: &str) -> (r: Vec<String>)
    ensures
        arg_texts(r@) == report_args(*o, port, id@),
{
    let mut args: Vec<String> = Vec::new();
    args.push(String::from_str("--url"));
    args.push(transient_url_of(port, id));
    args.push(String::from_str("--output"));
    args.push(pdf_output_path(id));
    args.push(String::from_str("--verbose"));
    let ghost head = arg_texts(args@);
    assert(head =~= seq!["--url"@, transient_url(port, id@), "--output"@, pdf_output(id@), "--verbose"@]);
    push_option_args(o, &mut args);
    args
}

impl ReportJob {
    /// Starts the report `id` for `request`: first read its template.
    pub fn start(request: ProcessReportRequest, id: String, port: u16) -> (r: (
        ReportJob,
        ReportAction,
    ))
        ensures
            r.0.request == request,
            r.0.id == id,
            r.0.port == port,
            r.0.stage == ReportStage::AwaitTemplate,
            match r.1 {
                ReportAction::ReadTemplate(p) => p@ == template_path(request.template_name@),
                _ => false,
            },
    {
        let path = join("./templates/", request.template_name.as_str());
        (ReportJob { request, id, port, stage: ReportStage::AwaitTemplate }, ReportAction::ReadTemplate(path))
    }

    /// Whether `event` is one the current stage waits for.
    pub open spec fn expects(&self, event: ReportEvent) -> bool {
        match event {
            ReportEvent::TemplateMissing => self.stage == ReportStage::AwaitTemplate,
            ReportEvent::TemplateUnreadable => self.stage == ReportStage::AwaitTemplate,
            ReportEvent::TemplateLoaded(_) => self.stage == ReportStage::AwaitTemplate,
            ReportEvent::Resolved(_) => self.stage == ReportStage::AwaitResolution,
            ReportEvent::Written(_) => self.stage == ReportStage::AwaitWrite,
            ReportEvent::Rendered { .. } => self.stage == ReportStage::AwaitRender,
        }
    }

    pub fn accepts(&self, event: &ReportEvent) -> (r: bool)
        ensures
            r == self.expects(*event),
    {
        match event {
            ReportEvent::TemplateMissing => self.stage == ReportStage::AwaitTemplate,
            ReportEvent::TemplateUnreadable => self.stage == ReportStage::AwaitTemplate,
            ReportEvent::TemplateLoaded(_) => self.stage == ReportStage::AwaitTemplate,
            ReportEvent::Resolved(_) => self.stage == ReportStage::AwaitResolution,
            ReportEvent::Written(_) => self.stage == ReportStage::AwaitWrite,
            ReportEvent::Rendered { .. } => self.stage == ReportStage::AwaitRender,
        }
    }

    /// Takes the outcome of the last action and says what to do next. A
    /// failed query does not stop the report: an empty document is rendered
    /// in its place. Only a successful render publishes the artifact.
    pub fn step(&mut self, event: ReportEvent) -> (a: ReportAction)
        requires
            old(self).expects(event),
        ensures
            final(self).request == old(self).request,
            final(self).id == old(self).id,
            final(self).port == old(self).port,
            match event {
                ReportEvent::TemplateMissing => final(self).stage == ReportStage::Finished
                    && a matches ReportAction::Respond {
                    outcome: Err(ReportError::TemplateNotFound),
                    cleanup: None,
                },
                ReportEvent::TemplateUnreadable => final(self).stage == ReportStage::Finished
                    && a matches ReportAction::Respond {
                    outcome: Err(ReportError::TemplateUnreadable),
                    cleanup: None,
                },
                ReportEvent::TemplateLoaded(content) => final(self).stage
                    == ReportStage::AwaitResolution && (match a {
                    ReportAction::Resolve(c) => c == content,
                    _ => false,
                }),
                ReportEvent::Resolved(res) => final(self).stage == ReportStage::AwaitWrite
                    && match a {
                    ReportAction::Write { path, html } => path@ == transient_path(
                        old(self).id@,
                    ) && html@ == match res {
                        Ok(h) => h@,
                        Err(_) => Seq::<char>::empty(),
                    },
                    _ => false,
                },
                ReportEvent::Written(ok) => if ok {
                    final(self).stage == ReportStage::AwaitRender && match a {
                        ReportAction::Render(args) => arg_texts(args@) == report_args(
                            old(self).request.options,
                            old(self).port,
                            old(self).id@,
                        ),
                        _ => false,
                    }
                } else {
                    final(self).stage == ReportStage::Finished
                        && a matches ReportAction::Respond {
                        outcome: Err(ReportError::WriteError),
                        cleanup: None,
                    }
                },
                ReportEvent::Rendered { success, stderr } => final(self).stage
                    == ReportStage::Finished && if success {
                    match a {
                        ReportAction::Respond { outcome: Ok(p), cleanup: Some(c) } => p@
                            == pdf_retrieval(old(self).id@) && c@ == transient_path(
                            old(self).id@,
                        ),
                        _ => false,
                    }
                } else {
                    match a {
                        ReportAction::Respond {
                            outcome: Err(ReportError::RenderError(e)),
                            cleanup: None,
                        } => e == stderr,
                        _ => false,
                    }
                },
            },
    {
        match event {
            ReportEvent::TemplateMissing => {
                self.stage = ReportStage::Finished;
                ReportAction::Respond { outcome: Err(ReportError::TemplateNotFound), cleanup: None }
            },
            ReportEvent::TemplateUnreadable => {
                self.stage = ReportStage::Finished;
                ReportAction::Respond {
                    outcome: Err(ReportError::TemplateUnreadable),
                    cleanup: None,
                }
            },
            ReportEvent::TemplateLoaded(content) => {
                self.stage = ReportStage::AwaitResolution;
                ReportAction::Resolve(content)
            },
            ReportEvent::Resolved(res) => {
                self.stage = ReportStage::AwaitWrite;
                let html = match res {
                    Ok(h) => h,
                    Err(_) => String::new(),
                };
                ReportAction::Write { path: transient_path_of(self.id.as_str()), html }
            },
            ReportEvent::Written(ok) => {
                if ok {
                    self.stage = ReportStage::AwaitRender;
                    ReportAction::Render(
                        report_render_args(&self.request.options, self.port, self.id.as_str()),
                    )
                } else {
                    self.stage = ReportStage::Finished;
                    ReportAction::Respond { outcome: Err(ReportError::WriteError), cleanup: None }
                }
            },
            ReportEvent::Rendered { success, stderr } => {
                self.stage = ReportStage::Finished;
                if success {
                    ReportAction::Respond {
                        outcome: Ok(pdf_retrieval_path(self.id.as_str())),
                        cleanup: Some(transient_path_of(self.id.as_str())),
                    }
                } else {
                    ReportAction::Respond {
                        outcome: Err(ReportError::RenderError(stderr)),
                        cleanup: None,
                    }
                }
            },
        }
    }
}

/// The answer to a request for an artifact: its bytes when storage holds
/// it, else not-found.
pub fn artifact_response(stored: Option<Vec<u8>>) -> (r: Result<Vec<u8>, ReportError>)
    ensures
        match stored {
            Some(b) => r matches Ok(x) && x@ == b@,
            None => r matches Err(ReportError::NotFound),
        },
{
    match stored {
        Some(b) => Ok(b),
        None => Err(ReportError::NotFound),
    }
}

/// The storage path of the artifact file called `name`.
pub fn artifact_file_path(name: &str) -> (r: String)
    ensures
        r@ == "./reports/"@ + name@,
{
    join("./reports/", name)
}

} // verus!
