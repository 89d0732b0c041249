use alt::utils::{join, option_to_str};
use std::path::Path;

fn std_join(base: &str, name: &str) -> String {
    Path::new(base).join(name).to_str().unwrap().to_string()
}

#[test]
fn join_puts_a_separator_between_base_and_name() {
    assert_eq!(join("/srv/ct1", "proc"), "/srv/ct1/proc");
    assert_eq!(join("/srv/ct1/", "proc"), "/srv/ct1/proc");
}

#[test]
fn join_of_an_empty_base_is_the_name() {
    assert_eq!(join("", "proc"), "proc");
}

#[test]
fn join_of_an_absolute_name_replaces_the_base() {
    assert_eq!(join("/srv/ct1", "/etc/resolv.conf"), "/etc/resolv.conf");
}

#[test]
fn join_agrees_with_the_standard_library() {
    let bases = ["", "/", "a", "a/", "/srv/ct1", "/srv/ct1/", "rel/dir", "ü/é"];
    let names = ["", "proc", "etc/resolv.conf", "/abs", "net/tun", "ö"];
    for base in bases {
        for name in names {
            assert_eq!(join(base, name), std_join(base, name), "{base:?} {name:?}");
        }
    }
}

#[test]
fn option_to_str_unwraps_or_defaults() {
    assert_eq!(option_to_str(Some("zip")), "zip");
    assert_eq!(option_to_str::<&str>(None), "");
    assert_eq!(option_to_str(Some(7u32)), 7);
    assert_eq!(option_to_str::<u32>(None), 0);
    assert_eq!(option_to_str::<String>(None), String::new());
}
