use readme_forge::document::{generate_document, render_document};
use readme_forge::install::{
    clone_lines, detect_ecosystem, explicit_plan, inferred_plan, plan_install,
    uses_explicit_command, Ecosystem, InstallPlan,
};
use readme_forge::license::{badge_for, license_badge};
use readme_forge::metadata::{InputError, ProjectMetadata};
use readme_forge::text::{same_text, split_text, trim_text};

const MIT: &str =
    "<img alt=\"License: MIT\" src=\"https://img.shields.io/badge/License-MIT-blue.svg\" />";

fn meta(name: &str, desc: &str, image: &str, license: &str, demo: &str, cmd: &str) -> ProjectMetadata {
    ProjectMetadata::from_answers(name, "", "", desc, image, license, demo, cmd).unwrap()
}

fn strings(v: &[&str]) -> Vec<String> {
    v.iter().map(|s| s.to_string()).collect()
}

fn count(hay: &str, needle: &str) -> usize {
    hay.matches(needle).count()
}

#[test]
fn trim_removes_surrounding_whitespace() {
    assert_eq!(trim_text("  my tool \n"), "my tool");
    assert_eq!(trim_text("\u{3000}x y\u{a0}\t"), "x y");
    assert_eq!(trim_text(" \r\n "), "");
    assert_eq!(trim_text(""), "");
}

#[test]
fn same_text_compares_characters() {
    assert!(same_text("mit", "mit"));
    assert!(!same_text("mit", "MIT"));
    assert!(!same_text("mit", "mi"));
}

#[test]
fn split_on_separator() {
    assert_eq!(split_text("a&& b&& c", "&& "), strings(&["a", "b", "c"]));
    assert_eq!(split_text("abc", "&& "), strings(&["abc"]));
    assert_eq!(split_text("", "&& "), strings(&[""]));
    assert_eq!(split_text("a&& ", "&& "), strings(&["a", ""]));
    assert_eq!(split_text("a&&b", "&& "), strings(&["a&&b"]));
    assert_eq!(split_text("x\ny\n", "\n"), strings(&["x", "y", ""]));
}

#[test]
fn answers_are_trimmed() {
    let m = ProjectMetadata::from_answers(
        " tool\n", " ff0000\n", " logo.png\n", " does things \n", " \n", " MIT\n", "\n",
        " make\n",
    )
    .unwrap();
    assert_eq!(m.name, "tool");
    assert_eq!(m.badge_color, "ff0000");
    assert_eq!(m.logo_url, "logo.png");
    assert_eq!(m.description, "does things");
    assert_eq!(m.image_url, "");
    assert_eq!(m.license, "MIT");
    assert_eq!(m.demo_url, "");
    assert_eq!(m.install_command, "make");
}

#[test]
fn blank_name_is_rejected() {
    let r = ProjectMetadata::from_answers(" \n", "", "", "desc", "", "", "", "");
    assert_eq!(r.unwrap_err(), InputError::EmptyName);
    let r = ProjectMetadata::from_answers("", "", "", "", "", "", "", "");
    assert_eq!(r.unwrap_err(), InputError::EmptyName);
    assert_eq!(InputError::EmptyName.message(), "empty project name");
}

#[test]
fn blank_description_is_rejected() {
    let r = ProjectMetadata::from_answers("tool", "", "", " \t\n", "", "", "", "");
    assert_eq!(r.unwrap_err(), InputError::EmptyDescription);
    assert_eq!(InputError::EmptyDescription.message(), "empty description");
}

#[test]
fn known_licenses_ignore_case() {
    assert_eq!(license_badge("MIT"), MIT);
    assert_eq!(license_badge("mit"), MIT);
    assert_eq!(license_badge("Mit"), MIT);
    assert_eq!(
        license_badge("APACHE"),
        "<img alt=\"License: Apache\" src=\"https://img.shields.io/badge/license-Apache%202-blue\" />"
    );
    assert_eq!(
        license_badge("gpl"),
        "<img alt=\"License: GPL\" src=\"https://img.shields.io/badge/license-GPL-blue\" />"
    );
}

#[test]
fn other_license_named_twice() {
    let b = license_badge("BSD-3");
    assert_eq!(
        b,
        "<img alt=\"License: BSD-3\" src=\"https://img.shields.io/badge/License-BSD-3-blue\" />"
    );
    assert_eq!(count(&b, "BSD-3"), 2);
    assert_eq!(
        license_badge(""),
        "<img alt=\"License: \" src=\"https://img.shields.io/badge/License--blue\" />"
    );
}

#[test]
fn badge_for_uses_lowered_form() {
    assert_eq!(badge_for("mit", "MiT"), MIT);
    assert_eq!(
        badge_for("mitx", "MITX"),
        "<img alt=\"License: MITX\" src=\"https://img.shields.io/badge/License-MITX-blue\" />"
    );
}

#[test]
fn ecosystem_priority() {
    assert_eq!(detect_ecosystem(true, true, true), Some(Ecosystem::Cargo));
    assert_eq!(detect_ecosystem(false, true, true), Some(Ecosystem::Npm));
    assert_eq!(detect_ecosystem(false, false, true), Some(Ecosystem::Pip));
    assert_eq!(detect_ecosystem(false, false, false), None);
    assert_eq!(Ecosystem::Pip.install_line(), "pip install -r requirements.txt");
    assert_eq!(Ecosystem::Pip.run_line(), "python main.py");
}

#[test]
fn explicit_command_threshold() {
    assert!(!uses_explicit_command("abcde"));
    assert!(uses_explicit_command("abcdef"));
    assert!(!uses_explicit_command(""));
}

#[test]
fn clone_line_per_remote() {
    assert_eq!(
        clone_lines("https://example.com/repo.git\n"),
        strings(&["git clone https://example.com/repo.git"])
    );
    assert_eq!(
        clone_lines("a.git\n\nb.git"),
        strings(&["git clone a.git", "git clone b.git"])
    );
    assert_eq!(clone_lines(""), Vec::<String>::new());
}

#[test]
fn explicit_plan_lines() {
    let p = explicit_plan("git clone x&& cd x&& make");
    assert_eq!(p.lines, strings(&["git clone x", "cd x", "make"]));
    assert_eq!(p.run_command, "write use command here");
}

#[test]
fn inferred_plan_for_each_kind() {
    let p = inferred_plan("tool", "https://example.com/repo.git\n", Some(Ecosystem::Cargo));
    assert_eq!(
        p.lines,
        strings(&["git clone https://example.com/repo.git", "cd tool", "cargo install"])
    );
    assert_eq!(p.run_command, "cargo run");
    let p = inferred_plan("tool", "", Some(Ecosystem::Npm));
    assert_eq!(p.lines, strings(&["cd tool", "npm install"]));
    assert_eq!(p.run_command, "npm start");
    let p = inferred_plan("tool", "", Some(Ecosystem::Pip));
    assert_eq!(p.lines.last().unwrap(), "pip install -r requirements.txt");
    assert_eq!(p.run_command, "python main.py");
    let p = inferred_plan("tool", "", None);
    assert_eq!(p.lines, strings(&["cd tool"]));
    assert_eq!(p.run_command, "write use command here");
}

#[test]
fn plan_follows_command_length() {
    let m = meta("tool", "d", "", "", "", "make all&& make test");
    let p = plan_install(&m, "ignored.git", Some(Ecosystem::Cargo));
    assert_eq!(p.lines, strings(&["make all", "make test"]));
    assert_eq!(p.run_command, "write use command here");
    let m = meta("tool", "d", "", "", "", "make");
    let p = plan_install(&m, "r.git\n", Some(Ecosystem::Cargo));
    assert_eq!(p.lines, strings(&["git clone r.git", "cd tool", "cargo install"]));
    assert_eq!(p.run_command, "cargo run");
}

#[test]
fn full_document() {
    let m = meta("tool", "does things", "", "MIT", "", "");
    let doc = generate_document(&m, "https://example.com/repo.git\n", Some(Ecosystem::Cargo));
    let expected = String::new()
        + "<div align=\"center\">\n<h1 align=\"center\">tool</h1>\n<br />\n"
        + MIT
        + "<br>\n<br>\ndoes things\n</div>\n\n***\n"
        + "\n### Installation\n```\ngit clone https://example.com/repo.git\ncd tool\ncargo install\n```\n"
        + "\n### Usage\n```\ncargo run\n```\n"
        + "\n### Contributing\n\n### License\nThis project is licensed under the MIT license"
        + "\n### Show your support\nLeave a ⭐ if you like this project\n\n***\nReadme made generated with love";
    assert_eq!(doc, expected);
}

#[test]
fn badge_title_and_logo() {
    let m = ProjectMetadata::from_answers("tool", "ff0000", "http://l.png", "d", "", "", "", "make it")
        .unwrap();
    let plan = InstallPlan { lines: strings(&["make it"]), run_command: "go".to_string() };
    let doc = render_document(&m, "B", &plan);
    assert!(doc.starts_with(
        "<div align=\"center\">\n<img alt=\"name\" align=\"center\" src=\"https://img.shields.io/badge/tool-ff0000?style=for-the-badge\" height=\"50\">\n<img src=\"http://l.png\" alt=\"tool\" align=\"center\" width=\"80\" height=\"80\">\n<br />\nB<br>\n<br>\nd\n"
    ));
    assert!(doc.contains("\n### Installation\n```\nmake it\n```\n\n### Usage\n```\ngo\n```\n"));
}

#[test]
fn name_and_description_once() {
    let m = meta(" Widget\n", " A small widget.\n", "", "Apache", "", "npm ci&& npm test");
    let doc = generate_document(&m, "", None);
    assert_eq!(count(&doc, "<h1 align=\"center\">Widget</h1>"), 1);
    assert_eq!(count(&doc, "A small widget."), 1);
    assert!(doc.contains("<br>\n<br>\nA small widget.\n"));
}

#[test]
fn explicit_command_block_and_placeholder() {
    let m = meta("tool", "d", "", "", "", "a b&& c d&& e f");
    let doc = generate_document(&m, "", None);
    assert!(doc.contains("\n### Installation\n```\na b\nc d\ne f\n```\n"));
    assert!(doc.contains("\n### Usage\n```\nwrite use command here\n```\n"));
}

#[test]
fn no_marker_keeps_placeholder() {
    let m = meta("tool", "d", "", "", "", "");
    let doc = generate_document(&m, "", None);
    assert!(doc.contains("\n### Installation\n```\ncd tool\n```\n"));
    assert!(doc.contains("\n### Usage\n```\nwrite use command here\n```\n"));
}

#[test]
fn single_remote_one_clone() {
    let m = meta("proj", "d", "", "", "", "");
    let doc = generate_document(&m, "https://example.com/repo.git\n", None);
    assert_eq!(count(&doc, "git clone"), 1);
    assert!(doc.contains("git clone https://example.com/repo.git\ncd proj\n"));
}

#[test]
fn short_image_is_dropped() {
    let m = meta("tool", "d", "a", "", "", "make it");
    let doc = generate_document(&m, "", None);
    assert!(!doc.contains("width=\"500\""));
    assert!(!doc.contains("src=\"a\""));
    let m = meta("tool", "d", "http://x.png", "", "", "make it");
    let doc = generate_document(&m, "", None);
    assert_eq!(count(&doc, "<img src=\"http://x.png\""), 1);
    assert!(doc.contains(
        "<img src=\"http://x.png\" alt=\"tool\" width=\"500\" height=\"500\">\n</div>\n"
    ));
}

#[test]
fn demo_needs_six_characters() {
    let m = meta("tool", "d", "", "", "abcde", "make it");
    assert!(!generate_document(&m, "", None).contains("!["));
    let m = meta("tool", "d", "", "", "demo.gif", "make it");
    assert!(generate_document(&m, "", None).contains("\n***\n![tool](demo.gif)\n"));
}

#[test]
fn same_input_same_document() {
    let a = meta("tool", "d", "http://x.png", "GPL", "", "");
    let b = meta("tool", "d", "http://x.png", "GPL", "", "");
    let da = generate_document(&a, "u.git\n", Some(Ecosystem::Npm));
    let db = generate_document(&b, "u.git\n", Some(Ecosystem::Npm));
    assert_eq!(da.as_bytes(), db.as_bytes());
}
