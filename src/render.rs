//! Rendering the gallery page from the descriptors, through tera.

use vstd::prelude::*;
use crate::classify::MediaGroup;
use crate::scan::{MediaFile, Descriptor, files_view};

verus! {

/// The name under which the page template is registered.
pub const PAGE_NAME: &'static str = "index.html";

/// The page: a title, then one viewer per file, chosen by its media group.
/// Each row of `media_files` is (file name, mime type, comment, group).
pub const PAGE_TEMPLATE: &'static str = "<!DOCTYPE html>
<html>
<head>
<meta charset=\"utf-8\">
<title>{{ title }}</title>
</head>
<body>
<h1>{{ title }}</h1>
{% for file in media_files %}<section class=\"media\">
<h2>{{ file.0 }}</h2>
{% if file.3 == \"Audio\" %}<audio controls src=\"{{ file.0 }}\" type=\"{{ file.1 }}\"></audio>
{% elif file.3 == \"Video\" %}<video controls src=\"{{ file.0 }}\" type=\"{{ file.1 }}\"></video>
{% else %}<a href=\"{{ file.0 }}\">{{ file.0 }}</a>
{% endif %}<p>{{ file.2 }}</p>
</section>
{% endfor %}</body>
</html>
";

/// Why the page could not be rendered; holds the template engine's message.
#[derive(PartialEq, Eq, Debug)]
pub enum RenderError {
    Template(String),
}

/// The label of a group as the template compares it.
pub open spec fn group_label(g: MediaGroup) -> Seq<char> {
    match g {
        MediaGroup::Audio => seq!['A', 'u', 'd', 'i', 'o'],
        MediaGroup::Video => seq!['V', 'i', 'd', 'e', 'o'],
        MediaGroup::Unknown => seq!['U', 'n', 'k', 'n', 'o', 'w', 'n'],
    }
}

/// The row that the template reads for one descriptor.
pub open spec fn row_of(d: Descriptor) -> (Seq<char>, Seq<char>, Seq<char>, Seq<char>) {
    (d.filename, d.mime_type, d.comment, group_label(d.media))
}

pub open spec fn row_view(r: (String, String, String, String)) -> (
    Seq<char>,
    Seq<char>,
    Seq<char>,
    Seq<char>,
) {
    (r.0@, r.1@, r.2@, r.3@)
}

pub fn media_label(g: MediaGroup) -> (r: &'static str)
    ensures
        r@ == group_label(g),
{
    proof {
        reveal_strlit("Audio");
        reveal_strlit("Video");
        reveal_strlit("Unknown");
    }
    match g {
        MediaGroup::Audio => "Audio",
        MediaGroup::Video => "Video",
        MediaGroup::Unknown => "Unknown",
    }
}

/// The rows that the template reads, one per file and in the same order.
pub fn media_rows(files: &Vec<MediaFile>) -> (r: Vec<(String, String, String, String)>)
    ensures
        r@.len() == files@.len(),
        forall|i: int|
            0 <= i < files@.len() ==> row_view(#[trigger] r@[i]) == row_of(files_view(files@)[i]),
{
    let mut rows: Vec<(String, String, String, String)> = Vec::new();
    let mut i: usize = 0;
    while i < files.len()
        invariant
            i <= files@.len(),
            rows@.len() == i,
            forall|k: int|
                0 <= k < i ==> row_view(#[trigger] rows@[k]) == row_of(files_view(files@)[k]),
        decreases files@.len() - i,
    {
        let f = &files[i];
        let row = (
            f.filename().clone(),
            f.mime_type().clone(),
            f.comment().clone(),
            String::from_str(media_label(f.media())),
        );
        rows.push(row);
        i = i + 1;
    }
    rows
}

/// What tera makes of `template`, registered as `name`, with `title` bound to
/// `title` and `media_files` bound to `rows`: the page, or the engine's message.
/// It is only ever applied to the page template under its own name.
pub uninterp spec fn tera_page(
    name: Seq<char>,
    template: Seq<char>,
    title: Seq<char>,
    rows: Seq<(Seq<char>, Seq<char>, Seq<char>, Seq<char>)>,
) -> Result<Seq<char>, Seq<char>>;

pub open spec fn result_view(r: Result<String, RenderError>) -> Result<Seq<char>, Seq<char>> {
    match r {
        Ok(html) => Ok(html@),
        Err(RenderError::Template(msg)) => Err(msg@),
    }
}

pub open spec fn rows_view(rows: Seq<(String, String, String, String)>) -> Seq<
    (Seq<char>, Seq<char>, Seq<char>, Seq<char>),
> {
    rows.map_values(|r: (String, String, String, String)| row_view(r))
}

/// Relies on `Tera::default`, `Tera::add_raw_template`, `Context::new`,
/// `Context::insert` and `Tera::render`: a fresh engine, the template parsed
/// and registered, a context of the two slots (a `BTreeMap` of serialised
/// values) and the render. An error comes back as the `Display` text of
/// `tera::Error`. Only the page template is admitted: a fresh engine also
/// registers `get_env`, which reads the process environment, and a template
/// nested without bound may exhaust the stack. The page template calls no
/// function and nests two levels, so its outcome depends on the title and the
/// rows alone.
#[verifier::external_body]
fn render_rows(
    name: &str,
    template: &str,
    title: &str,
    rows: &Vec<(String, String, String, String)>,
) -> (r: Result<String, RenderError>)
    requires
        name@ == PAGE_NAME@,
        template@ == PAGE_TEMPLATE@,
    ensures
        result_view(r) == tera_page(name@, template@, title@, rows_view(rows@)),
{
    let mut engine = tera::Tera::default();
    if let Err(e) = engine.add_raw_template(name, template) {
        return Err(RenderError::Template(e.to_string()));
    }
    let mut context = tera::Context::new();
    context.insert("title", title);
    context.insert("media_files", rows);
    engine.render(name, &context).map_err(|e| RenderError::Template(e.to_string()))
}

/// The rows that `render_page` hands to the template for `files`.
pub open spec fn page_rows(files: Seq<MediaFile>) -> Seq<(Seq<char>, Seq<char>, Seq<char>, Seq<char>)> {
    files_view(files).map_values(|d: Descriptor| row_of(d))
}

/// Renders the gallery page for `files` under `title`. The template is compiled
/// afresh on each call; the title and one row per file are its two slots. A
/// failure of the template engine comes back as its message.
pub fn render_page(title: &str, files: &Vec<MediaFile>) -> (r: Result<String, RenderError>)
    ensures
        result_view(r) == tera_page(PAGE_NAME@, PAGE_TEMPLATE@, title@, page_rows(files@)),
{
    let rows = media_rows(files);
    assert(rows_view(rows@) =~= page_rows(files@));
    render_rows(PAGE_NAME, PAGE_TEMPLATE, title, &rows)
}

/// What a run prints: the page, or the engine's message where rendering failed.
pub fn page_output(rendered: Result<String, RenderError>) -> (r: String)
    ensures
        rendered matches Ok(html) ==> r == html,
        rendered matches Err(RenderError::Template(msg)) ==> r == msg,
{
    match rendered {
        Ok(html) => html,
        Err(RenderError::Template(msg)) => msg,
    }
}

} // verus!
