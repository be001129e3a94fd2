use dotthefiles::client_os;
use dotthefiles::config::{Block, Config, Section};
use dotthefiles::context::Context;
use dotthefiles::dotfile::DotFile;
use dotthefiles::path::AbsPath;
use dotthefiles::target::Target;

fn base_dir(t: &str) -> String {
    format!("/dotfiles/examples/{}", t)
}

fn linux_home() -> String {
    String::from("/home/gman")
}

fn darwin_home() -> String {
    String::from("/Users/gman")
}

fn context(base: &str, home: &str, os: client_os::Type) -> Context {
    Context {
        config_path: AbsPath::new(&format!("{}/dotthefiles.yml", base)),
        base_dir: AbsPath::new(base),
        client_os: os,
        home_dir: AbsPath::new(home),
        child: true,
    }
}

fn block(name: &str, to: &str) -> Block {
    Block { name: name.to_string(), to: to.to_string() }
}

fn section(targets: &[Target], files: Vec<Block>, from: Option<&str>) -> Section {
    Section {
        target: targets.to_vec(),
        files,
        from: match from {
            Some(f) => f.to_string(),
            None => Section::default_from(),
        },
    }
}

fn assert_single(actual: &[DotFile], name: &str, src: &str, dst: &str) {
    assert_eq!(actual.len(), 1);
    assert_eq!(actual[0].id, 1);
    assert_eq!(actual[0].name, name);
    assert_eq!(actual[0].src.to_string(), src);
    assert_eq!(actual[0].dst.to_string(), dst);
}

#[test]
fn a01() {
    let base = base_dir("a01");
    let home = linux_home();
    let cx = context(&base, &home, client_os::Type::Linux);
    let config = Config {
        map: vec![section(&[Target::Linux], vec![block("file.sh", "~/")], None)],
    };

    let actual = dotthefiles::mapping::map(&cx, &config);

    // given the right target it should provide us with the simplest file mapping
    assert_single(&actual, "file.sh", &format!("{}/files/linux", base), &home);
}

#[test]
fn a02() {
    let base = base_dir("a02");
    let home = darwin_home();
    let cx = context(&base, &home, client_os::Type::Macos);
    let config = Config {
        map: vec![section(&[Target::Linux], vec![block("file.sh", "~/")], None)],
    };

    let actual = dotthefiles::mapping::map(&cx, &config);

    // If we are using undeclared OS then return nothing
    assert!(actual.is_empty());
}

#[test]
fn a03() {
    let base = base_dir("a03");
    let home = darwin_home();
    let cx = context(&base, &home, client_os::Type::Macos);
    let config = Config { map: vec![section(&[], vec![block("file.sh", "~/")], None)] };

    let actual = dotthefiles::mapping::map(&cx, &config);

    // if there is an empty targets vector then we ignore it
    assert!(actual.is_empty());
}

#[test]
fn a04() {
    let base = base_dir("a04");
    let home = darwin_home();
    let cx = context(&base, &home, client_os::Type::Macos);
    let config = Config {
        map: vec![section(&[Target::Macos], vec![block("file.sh", "~/")], None)],
    };

    let actual = dotthefiles::mapping::map(&cx, &config);

    // should set right os type into the 'from' field
    assert_single(&actual, "file.sh", &format!("{}/files/macos", base), &home);
}

#[test]
fn a05() {
    let base = base_dir("a05");
    let home = darwin_home();
    let cx = context(&base, &home, client_os::Type::Macos);
    let config = Config {
        map: vec![section(&[Target::Any], vec![block("file.sh", "~/")], None)],
    };

    let actual = dotthefiles::mapping::map(&cx, &config);

    // should read 'any' target correctly
    assert_single(&actual, "file.sh", &format!("{}/files", base), &home);
}

#[test]
fn a06() {
    let base = base_dir("a06");
    let home = darwin_home();
    let cx = context(&base, &home, client_os::Type::Macos);
    let config = Config {
        map: vec![section(&[Target::Linux, Target::Any], vec![block("file.sh", "~/")], None)],
    };

    let actual = dotthefiles::mapping::map(&cx, &config);

    // none of the concrete targets matches this host, so `any` applies
    assert_single(&actual, "file.sh", &format!("{}/files", base), &home);
}

#[test]
fn a07() {
    let base = base_dir("a07");
    let home = darwin_home();
    let cx = context(&base, &home, client_os::Type::Macos);
    let config = Config {
        map: vec![
            Section {
                target: Section::default_target(),
                files: vec![block("file.sh", "~/")],
                from: Section::default_from(),
            },
        ],
    };

    let actual = dotthefiles::mapping::map(&cx, &config);

    // when there is no `target` defined, treat it like `any` by default
    assert_single(&actual, "file.sh", &format!("{}/files", base), &home);
}

#[test]
fn a08() {
    let base = base_dir("a08");
    let home = darwin_home();
    let cx = context(&base, &home, client_os::Type::Macos);
    let config = Config {
        map: vec![section(&[Target::Linux, Target::Macos], vec![block("file.sh", "~/")], None)],
    };

    let actual = dotthefiles::mapping::map(&cx, &config);

    // should pick the right one out of two
    assert_single(&actual, "file.sh", &format!("{}/files/macos", base), &home);
}

#[test]
fn a09() {
    let base = base_dir("a09");
    let home = linux_home();
    let cx = context(&base, &home, client_os::Type::Linux);
    let config = Config {
        map: vec![
            section(&[Target::Macos, Target::Linux], vec![block("ide-script.sh", "~/Code")], None),
        ],
    };

    let actual = dotthefiles::mapping::map(&cx, &config);

    // should pick the right one out of two
    assert_single(
        &actual,
        "ide-script.sh",
        &format!("{}/files/linux", base),
        &format!("{}/Code", home),
    );
}

#[test]
fn a10() {
    let base = base_dir("a10");
    let home = linux_home();
    let cx = context(&base, &home, client_os::Type::Linux);
    let config = Config {
        map: vec![section(&[Target::Any], vec![block("file.sh", "/etc/some")], None)],
    };

    let actual = dotthefiles::mapping::map(&cx, &config);

    // should decide to link from files/ to /etc/some
    assert_single(&actual, "file.sh", &format!("{}/files", base), "/etc/some");
}

#[test]
fn a11() {
    let base = base_dir("a11");
    let home = linux_home();
    let cx = context(&base, &home, client_os::Type::Linux);
    let config = Config {
        map: vec![section(&[Target::Linux], vec![block("file.sh", "~/some")], Some("otherstuff"))],
    };

    let actual = dotthefiles::mapping::map(&cx, &config);

    // a relative `from` resolves against the config's own directory
    assert_single(
        &actual,
        "file.sh",
        &format!("{}/otherstuff", base),
        &format!("{}/some", home),
    );
}

#[test]
fn a12() {
    let base = base_dir("a12");
    let home = linux_home();
    let cx = context(&base, &home, client_os::Type::Linux);
    let config = Config {
        map: vec![section(&[Target::Any], vec![block("file.sh", "~/some")], Some("otherstuff"))],
    };

    let actual = dotthefiles::mapping::map(&cx, &config);

    // should resolve relative `from` regardless of the target os
    assert_single(
        &actual,
        "file.sh",
        &format!("{}/otherstuff", base),
        &format!("{}/some", home),
    );
}

#[test]
fn a13() {
    let base = base_dir("a13");
    let home = linux_home();
    let cx = context(&base, &home, client_os::Type::Linux);
    let config = Config {
        map: vec![section(&[Target::Linux], vec![block("file.sh", "~/some")], Some("~/backup"))],
    };

    let actual = dotthefiles::mapping::map(&cx, &config);

    // should be able to resolve home dir correctly in the `from` field
    assert_single(&actual, "file.sh", &format!("{}/backup", home), &format!("{}/some", home));
}

#[test]
fn a14() {
    let base = base_dir("a14");
    let home = linux_home();
    let cx = context(&base, &home, client_os::Type::Linux);
    let config = Config {
        map: vec![
            section(
                &[Target::Linux],
                vec![block("file.sh", "~/some")],
                Some("/my/bucket/with/stuff/by/$TARGET"),
            ),
        ],
    };

    let actual = dotthefiles::mapping::map(&cx, &config);

    // an absolute `from` keeps its target folder when $TARGET is present
    assert_single(&actual, "file.sh", "/my/bucket/with/stuff/by/linux", &format!("{}/some", home));
}

#[test]
fn a15() {
    let base = base_dir("a15");
    let home = linux_home();
    let cx = context(&base, &home, client_os::Type::Linux);
    let config = Config {
        map: vec![
            section(
                &[Target::Any],
                vec![block("file.sh", "~/some")],
                Some("/my/bucket/with/stuff/by/$TARGET"),
            ),
        ],
    };

    let actual = dotthefiles::mapping::map(&cx, &config);

    // with a $TARGET in `from` but the target being any, only the rest remains
    assert_single(&actual, "file.sh", "/my/bucket/with/stuff/by", &format!("{}/some", home));
}

#[test]
fn a16() {
    let base = base_dir("a16");
    let home = linux_home();
    let cx = context(&base, &home, client_os::Type::Linux);
    let config = Config {
        map: vec![section(&[Target::Any], vec![block("file.sh", "~/some")], Some("stuff"))],
    };

    let actual = dotthefiles::mapping::map(&cx, &config);

    // should just look into the /stuff folder for any file for any platform
    assert_single(&actual, "file.sh", &format!("{}/stuff", base), &format!("{}/some", home));
}

#[test]
fn ids_run_from_one_across_sections() {
    let base = base_dir("ids");
    let home = linux_home();
    let cx = context(&base, &home, client_os::Type::Ubuntu);
    let config = Config {
        map: vec![
            section(&[Target::Linux], vec![block("a.sh", "~/"), block("b.sh", "~/")], None),
            section(&[Target::Macos], vec![block("skipped.sh", "~/")], None),
            section(&[Target::Any], vec![block("c.sh", "~/")], None),
        ],
    };

    let actual = dotthefiles::mapping::map(&cx, &config);

    assert_eq!(actual.len(), 3);
    let ids: Vec<u32> = actual.iter().map(|d| d.id).collect();
    assert_eq!(ids, vec![1, 2, 3]);
    assert_eq!(actual[0].name, "a.sh");
    assert_eq!(actual[1].name, "b.sh");
    assert_eq!(actual[2].name, "c.sh");
    assert_eq!(actual[0].src.to_string(), format!("{}/files/linux", base));
    assert_eq!(actual[2].src.to_string(), format!("{}/files", base));
}

#[test]
fn links_one_linux_block_for_a_distro_host() {
    let cx = context("/cfgdir", "/home/u", client_os::Type::Ubuntu);
    let config = Config {
        map: vec![section(&[Target::Linux], vec![block("file.sh", "~/")], None)],
    };

    let actual = dotthefiles::mapping::map(&cx, &config);

    assert_single(&actual, "file.sh", "/cfgdir/files/linux", "/home/u");
}

#[test]
fn skips_the_linux_section_on_macos() {
    let cx = context("/cfgdir", "/home/u", client_os::Type::Macos);
    let config = Config {
        map: vec![section(&[Target::Linux], vec![block("file.sh", "~/")], None)],
    };

    let actual = dotthefiles::mapping::map(&cx, &config);

    assert!(actual.is_empty());
}

#[test]
fn file_paths_join_directory_and_name() {
    let cx = context("/cfgdir", "/home/u", client_os::Type::Ubuntu);
    let config = Config {
        map: vec![section(&[Target::Linux], vec![block("file.sh", "~/")], None)],
    };

    let actual = dotthefiles::mapping::map(&cx, &config);

    assert_eq!(actual[0].src_file_path().to_string(), "/cfgdir/files/linux/file.sh");
    assert_eq!(actual[0].dst_file_path().to_string(), "/home/u/file.sh");
}
