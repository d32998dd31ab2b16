//! Assembles the Markdown document in its fixed section order.

use vstd::prelude::*;
use crate::install::{plan_install, plan_lines, plan_run, Ecosystem, InstallPlan};
use crate::license::{license_badge, license_fragment, lower_of};
use crate::metadata::ProjectMetadata;
use crate::text::{append_lines, join_lines};

verus! {

/// What the title is drawn with before the name: a badge when a colour is
/// given, a heading otherwise.
pub open spec fn title_lead(color: Seq<char>) -> Seq<char> {
    if color.len() > 0 {
        "<img alt=\"name\" align=\"center\" src=\"https://img.shields.io/badge/"@
    } else {
        "<h1 align=\"center\">"@
    }
}

pub open spec fn title_text(name: Seq<char>, color: Seq<char>) -> Seq<char> {
    if color.len() > 0 {
        title_lead(color) + name + "-"@ + color + "?style=for-the-badge\" height=\"50\">\n"@
    } else {
        title_lead(color) + name + "</h1>\n"@
    }
}

pub open spec fn logo_text(name: Seq<char>, logo: Seq<char>) -> Seq<char> {
    if logo.len() > 0 {
        "<img src=\""@ + logo + "\" alt=\""@ + name + "\" align=\"center\" width=\"80\" height=\"80\">\n"@
    } else {
        Seq::empty()
    }
}

/// The centred header: the title and, when given, the logo.
pub open spec fn header_text(name: Seq<char>, color: Seq<char>, logo: Seq<char>) -> Seq<char> {
    "<div align=\"center\">\n"@ + title_text(name, color) + logo_text(name, logo) + "<br />\n"@
}

/// A URL longer than five characters counts as given.
pub open spec fn is_given(url: Seq<char>) -> bool {
    url.len() > 5
}

pub open spec fn image_text(name: Seq<char>, image: Seq<char>) -> Seq<char> {
    if is_given(image) {
        "<img src=\""@ + image + "\" alt=\""@ + name + "\" width=\"500\" height=\"500\">\n"@
    } else {
        Seq::empty()
    }
}

pub open spec fn demo_text(name: Seq<char>, demo: Seq<char>) -> Seq<char> {
    if is_given(demo) {
        "!["@ + name + "]("@ + demo + ")\n"@
    } else {
        Seq::empty()
    }
}

pub open spec fn install_block(lines: Seq<Seq<char>>) -> Seq<char> {
    "\n### Installation\n```\n"@ + join_lines(lines) + "\n```\n"@
}

pub open spec fn usage_block(run: Seq<char>) -> Seq<char> {
    "\n### Usage\n```\n"@ + run + "\n```\n"@
}

/// The contributing heading, left empty, and the license statement.
pub open spec fn license_text(license: Seq<char>) -> Seq<char> {
    "\n### Contributing\n\n### License\nThis project is licensed under the "@ + license
        + " license"@
}

pub open spec fn closing_text() -> Seq<char> {
    "\n### Show your support\nLeave a ⭐ if you like this project\n\n***\nReadme made generated with love"@
}

/// The document up to and including the line breaks after the badge.
pub open spec fn lead_text(m: ProjectMetadata, badge: Seq<char>) -> Seq<char> {
    header_text(m.name@, m.badge_color@, m.logo_url@) + badge + "<br>\n<br>\n"@
}

/// The whole document for `m`, with license badge `badge`, install lines
/// `lines` and run command `run`.
pub open spec fn document_text(
    m: ProjectMetadata,
    badge: Seq<char>,
    lines: Seq<Seq<char>>,
    run: Seq<char>,
) -> Seq<char> {
    lead_text(m, badge) + m.description@ + "\n"@ + image_text(m.name@, m.image_url@)
        + "</div>\n\n***\n"@ + demo_text(m.name@, m.demo_url@) + install_block(lines)
        + usage_block(run) + license_text(m.license@) + closing_text()
}

fn append_header(out: &mut String, m: &ProjectMetadata)
    ensures
        final(out)@ == old(out)@ + header_text(m.name@, m.badge_color@, m.logo_url@),
{
    let ghost start = out@;
    out.append("<div align=\"center\">\n");
    if m.badge_color.as_str().unicode_len() > 0 {
        out.append("<img alt=\"name\" align=\"center\" src=\"https://img.shields.io/badge/");
        out.append(m.name.as_str());
        out.append("-");
        out.append(m.badge_color.as_str());
        out.append("?style=for-the-badge\" height=\"50\">\n");
    } else {
        out.append("<h1 align=\"center\">");
        out.append(m.name.as_str());
        out.append("</h1>\n");
    }
    let ghost titled = out@;
    assert(titled =~= start + "<div align=\"center\">\n"@ + title_text(m.name@, m.badge_color@));
    if m.logo_url.as_str().unicode_len() > 0 {
        out.append("<img src=\"");
        out.append(m.logo_url.as_str());
        out.append("\" alt=\"");
        out.append(m.name.as_str());
        out.append("\" align=\"center\" width=\"80\" height=\"80\">\n");
    }
    assert(out@ =~= titled + logo_text(m.name@, m.logo_url@));
    out.append("<br />\n");
    assert(out@ =~= start + header_text(m.name@, m.badge_color@, m.logo_url@));
}

fn append_image(out: &mut String, m: &ProjectMetadata)
    ensures
        final(out)@ == old(out)@ + image_text(m.name@, m.image_url@),
{
    let ghost start = out@;
    if m.image_url.as_str().unicode_len() > 5 {
        out.append("<img src=\"");
        out.append(m.image_url.as_str());
        out.append("\" alt=\"");
        out.append(m.name.as_str());
        out.append("\" width=\"500\" height=\"500\">\n");
    }
    assert(out@ =~= start + image_text(m.name@, m.image_url@));
}

fn append_demo(out: &mut String, m: &ProjectMetadata)
    ensures
        final(out)@ == old(out)@ + demo_text(m.name@, m.demo_url@),
{
    let ghost start = out@;
    if m.demo_url.as_str().unicode_len() > 5 {
        out.append("![");
        out.append(m.name.as_str());
        out.append("](");
        out.append(m.demo_url.as_str());
        out.append(")\n");
    }
    assert(out@ =~= start + demo_text(m.name@, m.demo_url@));
}

fn append_install(out: &mut String, plan: &InstallPlan)
    ensures
        final(out)@ == old(out)@ + install_block(plan.lines_view()),
{
    let ghost start = out@;
    out.append("\n### Installation\n```\n");
    append_lines(out, &plan.lines);
    out.append("\n```\n");
    assert(out@ =~= start + install_block(plan.lines_view()));
}

fn append_usage(out: &mut String, plan: &InstallPlan)
    ensures
        final(out)@ == old(out)@ + usage_block(plan.run_command@),
{
    let ghost start = out@;
    out.append("\n### Usage\n```\n");
    out.append(plan.run_command.as_str());
    out.append("\n```\n");
    assert(out@ =~= start + usage_block(plan.run_command@));
}

fn append_license(out: &mut String, m: &ProjectMetadata)
    ensures
        final(out)@ == old(out)@ + license_text(m.license@),
{
    let ghost start = out@;
    out.append("\n### Contributing\n\n### License\nThis project is licensed under the ");
    out.append(m.license.as_str());
    out.append(" license");
    assert(out@ =~= start + license_text(m.license@));
}

/// The document for `m`, with the license badge `badge` and the
/// installation plan `plan`.
pub fn render_document(m: &ProjectMetadata, badge: &str, plan: &InstallPlan) -> (r: String)
    ensures
        r@ == document_text(*m, badge@, plan.lines_view(), plan.run_command@),
{
    let mut out = String::new();
    append_header(&mut out, m);
    out.append(badge);
    out.append("<br>\n<br>\n");
    out.append(m.description.as_str());
    out.append("\n");
    append_image(&mut out, m);
    out.append("</div>\n\n***\n");
    append_demo(&mut out, m);
    append_install(&mut out, plan);
    append_usage(&mut out, plan);
    append_license(&mut out, m);
    out.append(
        "\n### Show your support\nLeave a ⭐ if you like this project\n\n***\nReadme made generated with love",
    );
    assert(out@ =~= document_text(*m, badge@, plan.lines_view(), plan.run_command@));
    out
}

/// The document made for `m` from the remote-URL query's output
/// `remote_output` and the kind of project `eco`.
pub open spec fn generated_text(m: ProjectMetadata, remote_output: Seq<char>, eco: Option<Ecosystem>) -> Seq<
    char,
> {
    document_text(
        m,
        license_fragment(lower_of(m.license@), m.license@),
        plan_lines(m.install_command@, m.name@, remote_output, eco),
        plan_run(m.install_command@, eco),
    )
}

/// The document for `m`: its license badge is resolved, and its plan is the
/// given install command or one inferred from `remote_output` (what the
/// version-control tool printed as the remote URL) and `eco`.
pub fn generate_document(m: &ProjectMetadata, remote_output: &str, eco: Option<Ecosystem>) -> (r:
    String)
    ensures
        r@ == generated_text(*m, remote_output@, eco),
{
    let badge = license_badge(m.license.as_str());
    let plan = plan_install(m, remote_output, eco);
    render_document(m, badge.as_str(), &plan)
}

proof fn lemma_left_slice(x: Seq<char>, y: Seq<char>, i: int, j: int)
    requires
        0 <= i <= j <= x.len(),
    ensures
        (x + y).subrange(i, j) == x.subrange(i, j),
{
    assert((x + y).subrange(i, j) =~= x.subrange(i, j));
}

proof fn lemma_right_slice(x: Seq<char>, y: Seq<char>, i: int, j: int)
    requires
        0 <= i <= j <= y.len(),
    ensures
        (x + y).subrange(x.len() + i, x.len() + j) == y.subrange(i, j),
{
    assert((x + y).subrange(x.len() + i, x.len() + j) =~= y.subrange(i, j));
}

/// The name stands in the title, right after the heading or badge markup,
/// and the description stands in its own section after the license badge.
pub proof fn lemma_name_and_description_placed(
    m: ProjectMetadata,
    badge: Seq<char>,
    lines: Seq<Seq<char>>,
    run: Seq<char>,
)
    ensures
        ({
            let d = document_text(m, badge, lines, run);
            let p = lead_text(m, badge).len() as int;
            d.subrange(p, p + m.description@.len()) == m.description@
        }),
        ({
            let d = document_text(m, badge, lines, run);
            let q = ("<div align=\"center\">\n"@ + title_lead(m.badge_color@)).len() as int;
            d.subrange(q, q + m.name@.len()) == m.name@
        }),
{
    let name = m.name@;
    let desc = m.description@;
    let d = document_text(m, badge, lines, run);
    let lead = lead_text(m, badge);
    let body = "\n"@ + image_text(name, m.image_url@) + "</div>\n\n***\n"@ + demo_text(
        name,
        m.demo_url@,
    ) + install_block(lines) + usage_block(run) + license_text(m.license@) + closing_text();
    assert(d =~= (lead + desc) + body);
    lemma_left_slice(lead + desc, body, lead.len() as int, (lead.len() + desc.len()) as int);
    lemma_right_slice(lead, desc, 0, desc.len() as int);
    assert(desc.subrange(0, desc.len() as int) =~= desc);

    let div = "<div align=\"center\">\n"@;
    let tl = title_lead(m.badge_color@);
    let title_tail = if m.badge_color@.len() > 0 {
        "-"@ + m.badge_color@ + "?style=for-the-badge\" height=\"50\">\n"@
    } else {
        "</h1>\n"@
    };
    let title = title_text(name, m.badge_color@);
    assert(title =~= (tl + name) + title_tail);
    let header = header_text(name, m.badge_color@, m.logo_url@);
    let head_rest = logo_text(name, m.logo_url@) + "<br />\n"@;
    assert(header =~= (div + title) + head_rest);
    let after_header = badge + "<br>\n<br>\n"@;
    assert(lead =~= header + after_header);
    let q = (div + tl).len() as int;
    let n = name.len() as int;
    lemma_right_slice(tl, name, 0, n);
    assert(name.subrange(0, n) =~= name);
    lemma_left_slice(tl + name, title_tail, tl.len() as int, tl.len() as int + n);
    lemma_right_slice(div, title, tl.len() as int, tl.len() as int + n);
    lemma_left_slice(div + title, head_rest, q, q + n);
    lemma_left_slice(header, after_header, q, q + n);
    lemma_left_slice(lead, desc, q, q + n);
    lemma_left_slice(lead + desc, body, q, q + n);
}

/// Equal answers, equal query output and equal kind of project give the
/// same document, character for character.
pub proof fn lemma_document_deterministic(
    a: ProjectMetadata,
    b: ProjectMetadata,
    remote_a: Seq<char>,
    remote_b: Seq<char>,
    eco: Option<Ecosystem>,
)
    requires
        a.name@ == b.name@,
        a.badge_color@ == b.badge_color@,
        a.logo_url@ == b.logo_url@,
        a.description@ == b.description@,
        a.image_url@ == b.image_url@,
        a.license@ == b.license@,
        a.demo_url@ == b.demo_url@,
        a.install_command@ == b.install_command@,
        remote_a == remote_b,
    ensures
        generated_text(a, remote_a, eco) == generated_text(b, remote_b, eco),
{
}

} // verus!
