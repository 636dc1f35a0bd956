use layer_dispatch::cmd::{ArgError, Cmd, Data};

#[test]
fn flag_defaults_to_false() {
    let c = Cmd::new("complete");
    assert!(!c.flag("trigger"));
    let c = c.with_named("trigger", Data::Bool(true));
    assert!(c.flag("trigger"));
    let c = Cmd::new("complete").with_named("trigger", Data::Str("yes".to_string()));
    assert!(!c.flag("trigger"));
}

#[test]
fn first_binding_of_a_key_wins() {
    let c = Cmd::new("complete")
        .with_named("trigger", Data::Bool(true))
        .with_named("trigger", Data::Bool(false));
    assert!(c.flag("trigger"));
}

#[test]
fn typed_accessors_report_missing_arguments() {
    let c = Cmd::new("cd");
    assert_eq!(c.str_named("target"), Err(ArgError::Missing));
    assert_eq!(c.int_named("step"), Err(ArgError::Missing));
    assert_eq!(c.bool_named("force"), Err(ArgError::Missing));
    assert_eq!(c.str_at(0), Err(ArgError::Missing));
}

#[test]
fn typed_accessors_report_ill_shaped_arguments() {
    let c = Cmd::new("cd")
        .with_named("target", Data::Int(7))
        .with_named("step", Data::Str("up".to_string()))
        .with_named("force", Data::Handle(3));
    assert_eq!(c.str_named("target"), Err(ArgError::WrongShape));
    assert_eq!(c.int_named("step"), Err(ArgError::WrongShape));
    assert_eq!(c.bool_named("force"), Err(ArgError::WrongShape));
}

#[test]
fn typed_accessors_return_bound_values() {
    let mut c = Cmd::new("cd")
        .with_named("target", Data::Str("/tmp".to_string()))
        .with_named("step", Data::Int(-3))
        .with_named("force", Data::Bool(true));
    c.args.push(Data::Str("first".to_string()));
    c.args.push(Data::Int(9));
    assert_eq!(c.str_named("target"), Ok("/tmp".to_string()));
    assert_eq!(c.int_named("step"), Ok(-3));
    assert_eq!(c.bool_named("force"), Ok(true));
    assert_eq!(c.str_at(0), Ok("first".to_string()));
    assert_eq!(c.str_at(1), Err(ArgError::WrongShape));
    assert_eq!(c.str_at(2), Err(ArgError::Missing));
}

#[test]
fn get_finds_values_of_any_shape() {
    let c = Cmd::new("open").with_named("hovered", Data::Handle(42));
    assert_eq!(c.get("hovered"), Some(&Data::Handle(42)));
    assert_eq!(c.get("missing"), None);
}
