//! The command line handed to the external renderer, and the direct
//! conversion of a URL or of literal content.
use vstd::prelude::*;
use vstd::string::StringExecFns;

verus! {

/// Rendering options, and for a direct conversion its source and output kind.
pub struct SitetopdfOptions {
    pub format: Option<String>,
    pub landscape: Option<bool>,
    pub scale: Option<String>,
    pub margin_top: Option<String>,
    pub margin_bottom: Option<String>,
    pub margin_right: Option<String>,
    pub margin_left: Option<String>,
    pub header_template: Option<String>,
    pub footer_template: Option<String>,
    pub display_header_footer: Option<bool>,
    pub prefer_css_page_size: Option<bool>,
    pub page_ranges: Option<String>,
    pub ignore_http_errors: Option<bool>,
    pub wait_until: Option<String>,
    pub timeout: Option<String>,
    pub url: Option<String>,
    pub content: Option<String>,
    pub content_type: Option<String>,
    pub image: Option<bool>,
}

/// The text of each argument.
pub open spec fn arg_texts(args: Seq<String>) -> Seq<Seq<char>> {
    args.map_values(|a: String| a@)
}

/// `name` alone when the toggle is set.
pub open spec fn toggle_arg(b: Option<bool>, name: Seq<char>) -> Seq<Seq<char>> {
    if b == Some(true) {
        seq![name]
    } else {
        Seq::empty()
    }
}

/// `name` followed by the value, when there is one.
pub open spec fn value_arg(v: Option<String>, name: Seq<char>) -> Seq<Seq<char>> {
    match v {
        Some(x) => seq![name, x@],
        None => Seq::empty(),
    }
}

/// The navigation wait condition: the one set, else `load`.
pub open spec fn wait_condition(o: SitetopdfOptions) -> Seq<char> {
    match o.wait_until {
        Some(w) => w@,
        None => "load"@,
    }
}

/// The arguments that forward the rendering options, in a fixed order; the
/// navigation wait condition is always given, `load` when none is set.
pub open spec fn option_args(o: SitetopdfOptions) -> Seq<Seq<char>> {
    value_arg(o.format, "--format"@) + toggle_arg(o.landscape, "--landscape"@) + value_arg(
        o.scale,
        "--scale"@,
    ) + value_arg(o.margin_top, "--margin-top"@) + value_arg(o.margin_bottom, "--margin-bottom"@)
        + value_arg(o.margin_right, "--margin-right"@) + value_arg(
        o.margin_left,
        "--margin-left"@,
    ) + value_arg(o.header_template, "--header-template"@) + value_arg(
        o.footer_template,
        "--footer-template"@,
    ) + toggle_arg(o.display_header_footer, "--display-header-footer"@) + toggle_arg(
        o.prefer_css_page_size,
        "--prefer-css-page-size"@,
    ) + value_arg(o.page_ranges, "--page-ranges"@) + toggle_arg(
        o.ignore_http_errors,
        "--ignore-http-errors"@,
    ) + seq![
        "--wait-until"@,
        wait_condition(o),
    ] + value_arg(o.timeout, "--timeout"@)
}

fn push_text(args: &mut Vec<String>, a: &str)
    ensures
        arg_texts(final(args)@) == arg_texts(old(args)@).push(a@),
{
    args.push(String::from_str(a));
    assert(arg_texts(args@) =~= arg_texts(old(args)@).push(a@));
}

fn push_value(args: &mut Vec<String>, name: &str, v: &Option<String>)
    ensures
        arg_texts(final(args)@) == arg_texts(old(args)@) + value_arg(*v, name@),
{
    match v {
        Some(x) => {
            push_text(args, name);
            push_text(args, x.as_str());
            assert(arg_texts(args@) =~= arg_texts(old(args)@) + value_arg(*v, name@));
        },
        None => {
            assert(arg_texts(args@) =~= arg_texts(old(args)@) + value_arg(*v, name@));
        },
    }
}

fn push_toggle(args: &mut Vec<String>, name: &str, b: Option<bool>)
    ensures
        arg_texts(final(args)@) == arg_texts(old(args)@) + toggle_arg(b, name@),
{
    if b == Some(true) {
        push_text(args, name);
    }
    assert(arg_texts(args@) =~= arg_texts(old(args)@) + toggle_arg(b, name@));
}

/// Appends the arguments that forward the rendering options of `o`.
pub fn push_option_args(o: &SitetopdfOptions, args: &mut Vec<String>)
    ensures
        arg_texts(final(args)@) == arg_texts(old(args)@) + option_args(*o),
{
    let mut opts = option_arg_list(o);
    args.append(&mut opts);
    assert(arg_texts(args@) =~= arg_texts(old(args)@) + option_args(*o));
}

/// The arguments that forward the rendering options of `o`.
pub fn option_arg_list(o: &SitetopdfOptions) -> (r: Vec<String>)
    ensures
        arg_texts(r@) == option_args(*o),
{
    let mut v: Vec<String> = Vec::new();
    let args = &mut v;
    push_value(args, "--format", &o.format);
    let ghost mut acc = value_arg(o.format, "--format"@);
    assert(arg_texts(args@) =~= acc);
    push_toggle(args, "--landscape", o.landscape);
    proof {
        acc = acc + toggle_arg(o.landscape, "--landscape"@);
    }
    push_value(args, "--scale", &o.scale);
    proof {
        acc = acc + value_arg(o.scale, "--scale"@);
    }
    push_value(args, "--margin-top", &o.margin_top);
    proof {
        acc = acc + value_arg(o.margin_top, "--margin-top"@);
    }
    push_value(args, "--margin-bottom", &o.margin_bottom);
    proof {
        acc = acc + value_arg(o.margin_bottom, "--margin-bottom"@);
    }
    push_value(args, "--margin-right", &o.margin_right);
    proof {
        acc = acc + value_arg(o.margin_right, "--margin-right"@);
    }
    push_value(args, "--margin-left", &o.margin_left);
    proof {
        acc = acc + value_arg(o.margin_left, "--margin-left"@);
    }
    push_value(args, "--header-template", &o.header_template);
    proof {
        acc = acc + value_arg(o.header_template, "--header-template"@);
    }
    push_value(args, "--footer-template", &o.footer_template);
    proof {
        acc = acc + value_arg(o.footer_template, "--footer-template"@);
    }
    push_toggle(args, "--display-header-footer", o.display_header_footer);
    proof {
        acc = acc + toggle_arg(o.display_header_footer, "--display-header-footer"@);
    }
    push_toggle(args, "--prefer-css-page-size", o.prefer_css_page_size);
    proof {
        acc = acc + toggle_arg(o.prefer_css_page_size, "--prefer-css-page-size"@);
    }
    push_value(args, "--page-ranges", &o.page_ranges);
    proof {
        acc = acc + value_arg(o.page_ranges, "--page-ranges"@);
    }
    push_toggle(args, "--ignore-http-errors", o.ignore_http_errors);
    proof {
        acc = acc + toggle_arg(o.ignore_http_errors, "--ignore-http-errors"@);
    }
    push_text(args, "--wait-until");
    match &o.wait_until {
        Some(w) => push_text(args, w.as_str()),
        None => push_text(args, "load"),
    }
    proof {
        acc = acc + seq![
            "--wait-until"@,
            wait_condition(*o),
        ];
        assert(arg_texts(args@) =~= acc);
    }
    push_value(args, "--timeout", &o.timeout);
    proof {
        acc = acc + value_arg(o.timeout, "--timeout"@);
    }
    v
}

/// `a` followed by `b`.
pub fn join(a: &str, b: &str) -> (r: String)
    ensures
        r@ == a@ + b@,
{
    String::from_str(a).concat(b)
}

/// Where the renderer writes a PDF artifact.
pub open spec fn pdf_output(id: Seq<char>) -> Seq<char> {
    "./reports/"@ + id + ".pdf"@
}

/// Where a PDF artifact is retrieved from.
pub open spec fn pdf_retrieval(id: Seq<char>) -> Seq<char> {
    "/reports/"@ + id + ".pdf"@
}

/// Where the renderer writes an image artifact.
pub open spec fn image_output(id: Seq<char>) -> Seq<char> {
    "./images/"@ + id + ".png"@
}

/// Where an image artifact is retrieved from.
pub open spec fn image_retrieval(id: Seq<char>) -> Seq<char> {
    "/images/"@ + id + ".png"@
}

pub fn pdf_output_path(id: &str) -> (r: String)
    ensures
        r@ == pdf_output(id@),
{
    join(join("./reports/", id).as_str(), ".pdf")
}

pub fn pdf_retrieval_path(id: &str) -> (r: String)
    ensures
        r@ == pdf_retrieval(id@),
{
    join(join("/reports/", id).as_str(), ".pdf")
}

/// Why a direct conversion could not be started.
pub enum ConversionError {
    /// Neither a URL nor content was given.
    MissingSource,
}

/// A render job for a direct conversion: the renderer's arguments and the
/// path the artifact is retrieved from once the renderer succeeds.
pub struct ConversionPlan {
    pub args: Vec<String>,
    pub artifact_path: String,
}

/// The arguments that name the source: the URL when there is one, else the
/// content and its type, `string` when none is set.
pub open spec fn source_args(o: SitetopdfOptions) -> Seq<Seq<char>> {
    match o.url {
        Some(u) => seq!["--url"@, u@],
        None => value_arg(o.content, "--content"@) + seq![
            "--content-type"@,
            match o.content_type {
                Some(t) => t@,
                None => "string"@,
            },
        ],
    }
}

/// The arguments that name the output: an image when the toggle is set,
/// else a PDF.
pub open spec fn output_args(o: SitetopdfOptions, id: Seq<char>) -> Seq<Seq<char>> {
    if o.image == Some(true) {
        seq!["--image"@, "--image-output"@, image_output(id), "-v"@]
    } else {
        seq!["-o"@, pdf_output(id), "-v"@]
    }
}

/// Plans the direct conversion described by `o`, its artifact named `id`.
pub fn plan_conversion(o: &SitetopdfOptions, id: &str) -> (r: Result<ConversionPlan, ConversionError>)
    ensures
        o.url is None && o.content is None <==> r is Err,
        match r {
            Ok(p) => {
                &&& arg_texts(p.args@) == source_args(*o) + output_args(*o, id@) + option_args(*o)
                &&& p.artifact_path@ == if o.image == Some(true) {
                    image_retrieval(id@)
                } else {
                    pdf_retrieval(id@)
                }
            },
            Err(e) => e == ConversionError::MissingSource,
        },
{
    if o.url.is_none() && o.content.is_none() {
        return Err(ConversionError::MissingSource);
    }
    let mut args: Vec<String> = Vec::new();
    match &o.url {
        Some(u) => {
            push_text(&mut args, "--url");
            push_text(&mut args, u.as_str());
        },
        None => {
            push_value(&mut args, "--content", &o.content);
            push_text(&mut args, "--content-type");
            match &o.content_type {
                Some(t) => push_text(&mut args, t.as_str()),
                None => push_text(&mut args, "string"),
            }
        },
    }
    assert(arg_texts(args@) =~= source_args(*o));
    let ghost after_source = arg_texts(args@);
    let path;
    if o.image == Some(true) {
        push_text(&mut args, "--image");
        push_text(&mut args, "--image-output");
        let out = join(join("./images/", id).as_str(), ".png");
        push_text(&mut args, out.as_str());
        push_text(&mut args, "-v");
        path = join(join("/images/", id).as_str(), ".png");
    } else {
        push_text(&mut args, "-o");
        let out = pdf_output_path(id);
        push_text(&mut args, out.as_str());
        push_text(&mut args, "-v");
        path = pdf_retrieval_path(id);
    }
    assert(arg_texts(args@) =~= after_source + output_args(*o, id@));
    push_option_args(o, &mut args);
    assert(arg_texts(args@) =~= source_args(*o) + output_args(*o, id@) + option_args(*o));
    Ok(ConversionPlan { args, artifact_path: path })
}

} // verus!
