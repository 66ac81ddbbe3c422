use report_engine::render::{plan_conversion, ConversionError, SitetopdfOptions};
use report_engine::report::{
    artifact_file_path, artifact_response, report_render_args, ProcessReportRequest, ReportAction,
    ReportError, ReportEvent, ReportJob, ReportStage,
};
use report_engine::resolution::QueryExecutionError;
use report_engine::upload::{parse_resolution, should_resize, stored_name, ResolutionInfo, UploadResponse};

fn no_options() -> SitetopdfOptions {
    SitetopdfOptions {
        format: None,
        landscape: None,
        scale: None,
        margin_top: None,
        margin_bottom: None,
        margin_right: None,
        margin_left: None,
        header_template: None,
        footer_template: None,
        display_header_footer: None,
        prefer_css_page_size: None,
        page_ranges: None,
        ignore_http_errors: None,
        wait_until: None,
        timeout: None,
        url: None,
        content: None,
        content_type: None,
        image: None,
    }
}

fn started(id: &str) -> ReportJob {
    let req = ProcessReportRequest { template_name: "t.html".to_string(), options: no_options() };
    let (job, action) = ReportJob::start(req, id.to_string(), 8080);
    match action {
        ReportAction::ReadTemplate(p) => assert_eq!(p, "./templates/t.html"),
        _ => panic!("expected a template read"),
    }
    job
}

fn strs(v: &[String]) -> Vec<&str> {
    v.iter().map(|s| s.as_str()).collect()
}

#[test]
fn failed_query_renders_an_empty_document() {
    let mut job = started("abc");
    match job.step(ReportEvent::TemplateLoaded("<p>x</p>".to_string())) {
        ReportAction::Resolve(c) => assert_eq!(c, "<p>x</p>"),
        _ => panic!("expected resolution"),
    }
    let err = QueryExecutionError { query: "SELECT 1".to_string(), cause: "boom".to_string() };
    match job.step(ReportEvent::Resolved(Err(err))) {
        ReportAction::Write { path, html } => {
            assert_eq!(path, "./temp/abc.html");
            assert_eq!(html, "");
        }
        _ => panic!("expected a write"),
    }
    assert!(job.stage == ReportStage::AwaitWrite);
    match job.step(ReportEvent::Written(true)) {
        ReportAction::Render(args) => assert_eq!(args[0], "--url"),
        _ => panic!("expected rendering"),
    }
}

#[test]
fn renderer_failure_publishes_nothing() {
    let mut job = started("abc");
    job.step(ReportEvent::TemplateLoaded("x".to_string()));
    job.step(ReportEvent::Resolved(Ok("x".to_string())));
    job.step(ReportEvent::Written(true));
    match job.step(ReportEvent::Rendered { success: false, stderr: "crash".to_string() }) {
        ReportAction::Respond { outcome: Err(ReportError::RenderError(e)), cleanup: None } => {
            assert_eq!(e, "crash")
        }
        _ => panic!("expected a render error"),
    }
    assert!(job.stage == ReportStage::Finished);
}

#[test]
fn renderer_success_publishes_and_cleans_up() {
    let mut job = started("abc");
    job.step(ReportEvent::TemplateLoaded("x".to_string()));
    job.step(ReportEvent::Resolved(Ok("x".to_string())));
    job.step(ReportEvent::Written(true));
    match job.step(ReportEvent::Rendered { success: true, stderr: String::new() }) {
        ReportAction::Respond { outcome: Ok(p), cleanup: Some(c) } => {
            assert_eq!(p, "/reports/abc.pdf");
            assert_eq!(c, "./temp/abc.html");
        }
        _ => panic!("expected success"),
    }
}

#[test]
fn missing_and_unreadable_templates_fail() {
    let mut job = started("a");
    match job.step(ReportEvent::TemplateMissing) {
        ReportAction::Respond { outcome: Err(e), cleanup: None } => {
            assert!(matches!(e, ReportError::TemplateNotFound));
            assert_eq!(e.status(), 400);
        }
        _ => panic!("expected not found"),
    }
    let mut job = started("a");
    assert!(job.accepts(&ReportEvent::TemplateUnreadable));
    assert!(!job.accepts(&ReportEvent::Written(true)));
    match job.step(ReportEvent::TemplateUnreadable) {
        ReportAction::Respond { outcome: Err(ReportError::TemplateUnreadable), cleanup: None } => {}
        _ => panic!("expected unreadable"),
    }
}

#[test]
fn write_failure_fails_the_report() {
    let mut job = started("a");
    job.step(ReportEvent::TemplateLoaded("x".to_string()));
    job.step(ReportEvent::Resolved(Ok("x".to_string())));
    match job.step(ReportEvent::Written(false)) {
        ReportAction::Respond { outcome: Err(e), cleanup: None } => {
            assert!(matches!(e, ReportError::WriteError));
            assert_eq!(e.status(), 500);
        }
        _ => panic!("expected a write error"),
    }
}

#[test]
fn report_arguments_forward_every_option() {
    let mut o = no_options();
    o.format = Some("A4".to_string());
    o.landscape = Some(true);
    o.scale = Some("0.5".to_string());
    o.margin_top = Some("1cm".to_string());
    o.margin_bottom = Some("2cm".to_string());
    o.margin_right = Some("3cm".to_string());
    o.margin_left = Some("4cm".to_string());
    o.header_template = Some("<h/>".to_string());
    o.footer_template = Some("<f/>".to_string());
    o.display_header_footer = Some(true);
    o.prefer_css_page_size = Some(false);
    o.page_ranges = Some("1-2".to_string());
    o.ignore_http_errors = Some(true);
    o.wait_until = Some("networkidle0".to_string());
    o.timeout = Some("30".to_string());
    let args = report_render_args(&o, 9000, "id1");
    assert_eq!(
        strs(&args),
        vec![
            "--url", "http://localhost:9000/temp/id1.html", "--output", "./reports/id1.pdf",
            "--verbose", "--format", "A4", "--landscape", "--scale", "0.5", "--margin-top", "1cm",
            "--margin-bottom", "2cm", "--margin-right", "3cm", "--margin-left", "4cm",
            "--header-template", "<h/>", "--footer-template", "<f/>", "--display-header-footer",
            "--page-ranges", "1-2", "--ignore-http-errors", "--wait-until", "networkidle0",
            "--timeout", "30",
        ]
    );
}

#[test]
fn wait_condition_defaults_to_load() {
    let args = report_render_args(&no_options(), 0, "x");
    assert_eq!(
        strs(&args),
        vec![
            "--url", "http://localhost:0/temp/x.html", "--output", "./reports/x.pdf", "--verbose",
            "--wait-until", "load",
        ]
    );
}

#[test]
fn conversion_needs_a_source() {
    assert!(matches!(plan_conversion(&no_options(), "id"), Err(ConversionError::MissingSource)));
}

#[test]
fn conversion_of_a_url_to_pdf() {
    let mut o = no_options();
    o.url = Some("https://example.org".to_string());
    o.content = Some("ignored".to_string());
    let plan = plan_conversion(&o, "u1").ok().unwrap();
    assert_eq!(
        strs(&plan.args),
        vec!["--url", "https://example.org", "-o", "./reports/u1.pdf", "-v", "--wait-until", "load"]
    );
    assert_eq!(plan.artifact_path, "/reports/u1.pdf");
}

#[test]
fn conversion_of_content_to_image() {
    let mut o = no_options();
    o.content = Some("<b>hi</b>".to_string());
    o.image = Some(true);
    let plan = plan_conversion(&o, "c1").ok().unwrap();
    assert_eq!(
        strs(&plan.args),
        vec![
            "--content", "<b>hi</b>", "--content-type", "string", "--image", "--image-output",
            "./images/c1.png", "-v", "--wait-until", "load",
        ]
    );
    assert_eq!(plan.artifact_path, "/images/c1.png");
}

#[test]
fn conversion_content_type_is_forwarded() {
    let mut o = no_options();
    o.content = Some("x".to_string());
    o.content_type = Some("html".to_string());
    o.image = Some(false);
    let plan = plan_conversion(&o, "d").ok().unwrap();
    assert_eq!(&strs(&plan.args)[..5], &["--content", "x", "--content-type", "html", "-o"]);
}

#[test]
fn artifact_retrieval() {
    assert!(matches!(artifact_response(None), Err(ReportError::NotFound)));
    assert_eq!(ReportError::NotFound.status(), 404);
    let bytes = vec![0x25u8, 0x50, 0x44, 0x46];
    assert_eq!(artifact_response(Some(bytes.clone())).ok().unwrap(), bytes);
    assert_eq!(artifact_file_path("r.pdf"), "./reports/r.pdf");
}

#[test]
fn resolution_parsing() {
    assert_eq!(parse_resolution("800x600"), Some((800, 600)));
    assert_eq!(parse_resolution("+1x2"), Some((1, 2)));
    assert_eq!(parse_resolution("4294967295x0"), Some((4294967295, 0)));
    assert_eq!(parse_resolution("4294967296x1"), None);
    assert_eq!(parse_resolution("800"), None);
    assert_eq!(parse_resolution("1x2x3"), None);
    assert_eq!(parse_resolution("ax2"), None);
    assert_eq!(parse_resolution("x2"), None);
    assert_eq!(parse_resolution("+x2"), None);
    assert_eq!(parse_resolution("-1x2"), None);
}

#[test]
fn resize_only_when_image_is_large_enough() {
    assert!(should_resize(1000, 800, 800, 600));
    assert!(should_resize(800, 600, 800, 600));
    assert!(!should_resize(700, 800, 800, 600));
    assert!(!should_resize(900, 500, 800, 600));
}

#[test]
fn upload_names_and_types() {
    assert_eq!(stored_name("u", "a.png"), "u_a.png");
    let info = ResolutionInfo { resolution: Some("1x1".to_string()) };
    assert!(info.resolution.is_some());
    let resp = UploadResponse { code: 200, message: "ok".to_string(), url: "/x".to_string() };
    assert_eq!(resp.code, 200);
}
