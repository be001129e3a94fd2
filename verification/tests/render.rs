use dotthefiles::path::AbsPath;
use dotthefiles::render::{Render, RenderState};

fn state<'a>(home: &'a AbsPath, base: &'a AbsPath, source_dir: &'a str) -> RenderState<'a> {
    RenderState { home_dir: home, base_dir: base, source_dir }
}

#[test]
fn tilde_template_renders_under_home() {
    let home = AbsPath::new("/home/u");
    let base = AbsPath::new("/cfg");
    let st = state(&home, &base, "");
    assert_eq!(Render::new("~/sub/path").render(&st).to_string(), "/home/u/sub/path");
}

#[test]
fn bare_tilde_renders_to_home() {
    let home = AbsPath::new("/home/u");
    let base = AbsPath::new("/cfg");
    let st = state(&home, &base, "");
    assert_eq!(Render::new("~").render(&st).to_string(), "/home/u");
    assert_eq!(Render::new("~/").render(&st).to_string(), "/home/u");
}

#[test]
fn absolute_template_stays_absolute() {
    let home = AbsPath::new("/home/u");
    let base = AbsPath::new("/cfg");
    let st = state(&home, &base, "linux");
    assert_eq!(Render::new("/etc/some").render(&st).to_string(), "/etc/some");
}

#[test]
fn relative_template_roots_at_base_dir() {
    let home = AbsPath::new("/home/u");
    let base = AbsPath::new("/cfg");
    let st = state(&home, &base, "linux");
    assert_eq!(Render::new("stuff/here").render(&st).to_string(), "/cfg/stuff/here");
}

#[test]
fn target_token_becomes_source_dir() {
    let home = AbsPath::new("/home/u");
    let base = AbsPath::new("/cfg");
    let st = state(&home, &base, "linux");
    assert_eq!(Render::new("files/$TARGET").render(&st).to_string(), "/cfg/files/linux");
}

#[test]
fn target_token_vanishes_without_source_dir() {
    let home = AbsPath::new("/home/u");
    let base = AbsPath::new("/cfg");
    let st = state(&home, &base, "");
    assert_eq!(Render::new("files/$TARGET").render(&st).to_string(), "/cfg/files");
}

#[test]
fn tilde_mid_path_restarts_at_home() {
    let home = AbsPath::new("/home/u");
    let base = AbsPath::new("/cfg");
    let st = state(&home, &base, "");
    assert_eq!(Render::new("deep/~/sub").render(&st).to_string(), "/home/u/sub");
}

#[test]
fn empty_template_renders_to_base_dir() {
    let home = AbsPath::new("/home/u");
    let base = AbsPath::new("/cfg");
    let st = state(&home, &base, "linux");
    assert_eq!(Render::new("").render(&st).to_string(), "/cfg");
}

#[test]
fn normalize_keeps_tokens_for_substitution() {
    let home = AbsPath::new("/home/u");
    let base = AbsPath::new("/cfg");
    let st = state(&home, &base, "linux");
    let norm = Render::new("files/$TARGET").normalize(&st);
    assert_eq!(norm.to_string(), "/cfg/files/$TARGET");
}

#[test]
fn abs_path_parses_and_prints() {
    assert_eq!(AbsPath::new("/a/b/c").to_string(), "/a/b/c");
    assert_eq!(AbsPath::new("/").to_string(), "/");
    assert_eq!(AbsPath::new("").to_string(), "/");
    assert_eq!(AbsPath::new("/a//b/./c/..").to_string(), "/a/b/c");
}

#[test]
fn abs_path_join_appends_or_replaces() {
    let p = AbsPath::new("/a/b");
    assert_eq!(p.join("c.txt").to_string(), "/a/b/c.txt");
    assert_eq!(p.join("c/d").to_string(), "/a/b/c/d");
    assert_eq!(p.join("/root/over").to_string(), "/root/over");
}
