use repeatrs::domain::error::{ContainerOptionsError, ValidationError};
use repeatrs::domain::job::{CommandArgs, ContainerOptions, ToOwnedString};
use repeatrs::domain::options::{try_string_to_hashmap, OptionMap};

fn entries(m: &OptionMap) -> Vec<(String, String)> {
    let mut v = Vec::new();
    for i in 0..m.len() {
        let (k, val) = m.get(i);
        v.push((k.clone(), val.clone()));
    }
    v
}

fn pairs(p: &[(&str, &str)]) -> Vec<(String, String)> {
    p.iter().map(|(k, v)| (k.to_string(), v.to_string())).collect()
}

#[test]
fn parses_key_value_flag_and_spaced_options() {
    let m = try_string_to_hashmap("--memory=512m -d --name job".to_string()).ok().unwrap();
    assert_eq!(entries(&m), pairs(&[("--memory", "512m"), ("-d", "true"), ("--name", "job")]));
    assert_eq!(m.render(), "--memory=512m -d=true --name=job");
}

#[test]
fn a_flag_before_another_flag_is_true() {
    let m = try_string_to_hashmap("-a -b".to_string()).ok().unwrap();
    assert_eq!(entries(&m), pairs(&[("-a", "true"), ("-b", "true")]));
}

#[test]
fn value_may_hold_equal_signs() {
    let m = try_string_to_hashmap("--env=A=B".to_string()).ok().unwrap();
    assert_eq!(entries(&m), pairs(&[("--env", "A=B")]));
}

#[test]
fn a_repeated_key_keeps_its_place_and_last_value() {
    let m = try_string_to_hashmap("-a=1 -b=2 -a=3".to_string()).ok().unwrap();
    assert_eq!(entries(&m), pairs(&[("-a", "3"), ("-b", "2")]));
    assert_eq!(m.value_of("-a").map(|s| s.as_str()), Some("3"));
    assert_eq!(m.value_of("-c"), None);
}

#[test]
fn an_empty_string_is_a_positional_fault() {
    match try_string_to_hashmap(String::new()) {
        Err(ValidationError::InvalidContainerOption(ContainerOptionsError::UnexpectedPositional(w))) => {
            assert_eq!(w, "")
        }
        _ => panic!("expected an unexpected positional argument"),
    }
}

#[test]
fn a_bare_word_is_a_positional_fault() {
    match try_string_to_hashmap("-a=1 extra".to_string()) {
        Err(ValidationError::InvalidContainerOption(ContainerOptionsError::UnexpectedPositional(w))) => {
            assert_eq!(w, "extra")
        }
        _ => panic!("expected an unexpected positional argument"),
    }
}

#[test]
fn an_empty_value_after_equal_is_missing() {
    match try_string_to_hashmap("-p=80 --volume=".to_string()) {
        Err(ValidationError::InvalidContainerOption(ContainerOptionsError::MissingValue(k))) => {
            assert_eq!(k, "--volume")
        }
        _ => panic!("expected a missing value"),
    }
}

#[test]
fn a_double_space_gives_an_empty_value() {
    let m = try_string_to_hashmap("-a  -b".to_string()).ok().unwrap();
    assert_eq!(entries(&m), pairs(&[("-a", ""), ("-b", "true")]));
    // written back, the empty value no longer reads
    assert!(try_string_to_hashmap(m.render()).is_err());
}

#[test]
fn rendered_options_read_back_the_same() {
    for s in ["--memory=512m -d --name job", "-x 1 -y=2 -x=3 -z", "--a=b=c"] {
        let m = try_string_to_hashmap(s.to_string()).ok().unwrap();
        let again = try_string_to_hashmap(m.render()).ok().unwrap();
        assert_eq!(entries(&again), entries(&m));
    }
}

#[test]
fn container_options_and_command_args_share_the_parser() {
    let o = ContainerOptions::try_from("--rm -e X=1".to_string()).ok().unwrap();
    let a = CommandArgs::try_from("--rm -e X=1".to_string()).ok().unwrap();
    assert_eq!(o.to_owned_string(), "--rm=true -e=X=1");
    assert_eq!(a.to_owned_string(), "--rm=true -e=X=1");
    assert!(ContainerOptions::try_from("oops".to_string()).is_err());
    assert!(CommandArgs::try_from("oops".to_string()).is_err());
}

#[test]
fn an_option_map_built_by_insert_renders_in_order() {
    let mut m = OptionMap::new();
    assert_eq!(m.render(), "");
    m.insert("-b".to_string(), "2".to_string());
    m.insert("-a".to_string(), "1".to_string());
    m.insert("-b".to_string(), "3".to_string());
    assert_eq!(m.render(), "-b=3 -a=1");
    let c = m.duplicate();
    assert_eq!(c.render(), "-b=3 -a=1");
    assert_eq!(ContainerOptions::new(c).to_owned_string(), "-b=3 -a=1");
}

#[test]
fn empty_options_are_the_default_and_render_to_nothing() {
    let o = ContainerOptions::new(OptionMap::new());
    assert_eq!(o.to_owned_string(), "");
    assert!(o == ContainerOptions::default());
    assert!(CommandArgs::default() == CommandArgs::new(OptionMap::default()));
}

#[test]
fn options_compare_whatever_their_order() {
    let a = ContainerOptions::try_from("-d --name job".to_string()).ok().unwrap();
    let b = ContainerOptions::try_from("--name job -d".to_string()).ok().unwrap();
    let c = ContainerOptions::try_from("--name other -d".to_string()).ok().unwrap();
    let d = ContainerOptions::try_from("--name job".to_string()).ok().unwrap();
    assert!(a == b);
    assert!(a != c);
    assert!(a != d);
    assert!(a.clone() == a);
}

#[test]
fn options_given_are_kept_as_given() {
    let mut m = OptionMap::new();
    m.insert("--privileged".to_string(), "true".to_string());
    let o = ContainerOptions::new(m.clone());
    assert!(*o.as_map() == m);
    assert_eq!(o.to_owned_string(), "--privileged=true");
    let back = ContainerOptions::try_from(o.to_owned_string()).ok().unwrap();
    assert!(back == o);
}
