use dotthefiles::answer::Answer;
use dotthefiles::client_os;
use dotthefiles::config::{Block, Config, Section};
use dotthefiles::context::Context;
use dotthefiles::parser::Parser;
use dotthefiles::path::AbsPath;
use dotthefiles::target::Target;
use dotthefiles::user::User;

fn context(os: client_os::Type, child: bool) -> Context {
    Context {
        config_path: AbsPath::new("/cfgdir/dotthefiles.yml"),
        base_dir: AbsPath::new("/cfgdir"),
        client_os: os,
        home_dir: AbsPath::new("/home/u"),
        child,
    }
}

#[test]
fn all_lists_every_operating_system_once() {
    let all = client_os::Type::all();
    assert_eq!(all.len(), 20);
    assert_eq!(all[0], client_os::Type::Alpine);
    assert_eq!(all[19], client_os::Type::Unknown);
}

#[test]
fn names_map_to_operating_systems() {
    assert_eq!(client_os::Type::from_name("linux"), client_os::Type::Linux);
    assert_eq!(client_os::Type::from_name("macos"), client_os::Type::Macos);
    assert_eq!(client_os::Type::from_name("ubuntu"), client_os::Type::Ubuntu);
    assert_eq!(client_os::Type::from_name("redhatenterprise"), client_os::Type::RedHatEnterprise);
    assert_eq!(client_os::Type::from_name("windows"), client_os::Type::Windows);
    assert_eq!(client_os::Type::from_name("beos"), client_os::Type::Unknown);
    assert_eq!(client_os::Type::from_name(""), client_os::Type::Unknown);
    assert_eq!(client_os::Type::from_name("Linux"), client_os::Type::Unknown);
}

#[test]
fn digest_prefers_the_given_operating_system() {
    assert_eq!(client_os::digest(Some(client_os::Type::Macos)), client_os::Type::Macos);
    assert_eq!(client_os::digest(Some(client_os::Type::Unknown)), client_os::Type::Unknown);
}

#[test]
fn digest_detects_something_when_given_nothing() {
    // Whatever the host is, detection lands inside the enumeration.
    let detected = client_os::digest(None);
    assert!(client_os::Type::all().contains(&detected));
}

#[test]
fn main_process_is_the_one_that_is_not_a_child() {
    assert!(context(client_os::Type::Linux, false).is_main());
    assert!(!context(client_os::Type::Linux, true).is_main());
}

#[test]
fn parser_holds_the_first_config_it_reads() {
    let cx = context(client_os::Type::Ubuntu, false);
    let mut parser = Parser::with(&cx);
    assert!(parser.config().is_none());
    assert!(parser.parse().is_none());

    let first = Config {
        map: vec![Section {
            target: vec![Target::Linux],
            files: vec![Block { name: "file.sh".to_string(), to: "~/".to_string() }],
            from: Section::default_from(),
        }],
    };
    parser.read_config(first);
    assert!(parser.config().is_some());

    // a second read does not replace the configuration already held
    let second = Config { map: vec![] };
    parser.read_config(second);
    assert_eq!(parser.config().map(|c| c.map.len()), Some(1));

    let dotfiles = parser.parse().expect("a configuration is held");
    assert_eq!(dotfiles.len(), 1);
    assert_eq!(dotfiles[0].id, 1);
    assert_eq!(dotfiles[0].name, "file.sh");
    assert_eq!(dotfiles[0].src.to_string(), "/cfgdir/files/linux");
    assert_eq!(dotfiles[0].dst.to_string(), "/home/u");
}

#[test]
fn answers_mean_yes_only_in_their_four_spellings() {
    assert!(Answer::new("y").is_yes());
    assert!(Answer::new("Y").is_yes());
    assert!(Answer::new("yes").is_yes());
    assert!(Answer::new("Yes").is_yes());
    assert!(Answer::new("  yes\n").is_yes());
    assert!(Answer::new("\tY ").is_yes());
    assert!(!Answer::new("YES").is_yes());
    assert!(!Answer::new("no").is_yes());
    assert!(!Answer::new("").is_yes());
    assert!(!Answer::new("  ").is_yes());
    assert!(!Answer::new("y e s").is_yes());
}

#[test]
fn user_carries_its_ids() {
    let user = User { uid: 101, euid: 0, gid: 20 };
    assert_eq!(user.uid, 101);
    assert_eq!(user.euid, 0);
    assert_eq!(user.gid, 20);
}
