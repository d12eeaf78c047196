use share_invitations::{
    create_default_identity, default_identity_name, identity_name_parser, IdentityCommand,
    IdentityHandler, IdentitySubcommand,
};

const PAINTED_DEFAULT: &str = "\x1B[38;2;82;199;234mdefault\x1B[0m";

#[test]
fn missing_default_is_created_once() {
    let r = identity_name_parser("default", &None);
    assert_eq!(r.name, "default");
    let c = r.provisioning.expect("one creation");
    assert_eq!(c.create, "default");
    assert_eq!(c.name, "default");
    assert_eq!(c.logs.len(), 3);
    assert_eq!(c.logs[0], "No default identity was found.");
    assert_eq!(c.logs[1], format!("Creating default identity {}", PAINTED_DEFAULT));
    assert_eq!(
        c.logs[2],
        format!("Setting identity {} as default for local operations...\n", PAINTED_DEFAULT)
    );
}

#[test]
fn existing_default_is_returned_without_creation() {
    let current = Some("alice".to_string());
    assert_eq!(default_identity_name(&current), "alice");
    let r = identity_name_parser("default", &current);
    assert_eq!(r.name, "alice");
    assert!(r.provisioning.is_none());
    let r = identity_name_parser("bob", &current);
    assert_eq!(r.name, "bob");
    assert!(r.provisioning.is_none());
}

#[test]
fn other_names_pass_through() {
    let r = identity_name_parser("bob", &None);
    assert_eq!(r.name, "bob");
    assert!(r.provisioning.is_none());
    let r = identity_name_parser("Default", &None);
    assert!(r.provisioning.is_none());
}

#[test]
fn default_name_without_state() {
    assert_eq!(default_identity_name(&None), "default");
}

#[test]
fn creation_paints_the_name() {
    let c = create_default_identity("carol");
    assert_eq!(c.create, "carol");
    assert_eq!(c.logs[1], "Creating default identity \x1B[38;2;82;199;234mcarol\x1B[0m");
    assert_ne!(c.logs[1], "Creating default identity carol");
}

#[test]
fn subcommands_dispatch_to_handlers() {
    let cases = vec![
        (IdentitySubcommand::Create("a".to_string()), IdentityHandler::Create, Some("a".to_string())),
        (IdentitySubcommand::Show(None), IdentityHandler::Show, None),
        (IdentitySubcommand::List, IdentityHandler::List, None),
        (IdentitySubcommand::Default(Some("b".to_string())), IdentityHandler::Default, Some("b".to_string())),
        (IdentitySubcommand::Delete("c".to_string()), IdentityHandler::Delete, Some("c".to_string())),
    ];
    for (sub, handler, name) in cases {
        let t = IdentityCommand { subcommand: sub }.run();
        assert_eq!(t.handler, handler);
        assert_eq!(t.name, name);
    }
}
