use command_resolver::ResolutionError;
use command_resolver::registry::registry;
use command_resolver::resolve;

#[test]
fn resolves_registered_server() {
    match resolve("notepadpp-mcp") {
        Ok(launch) => {
            assert_eq!(launch.executable, "uv");
            assert_eq!(
                launch.arguments,
                vec!["run".to_string(), "notepadpp_mcp.tools.server:run".to_string()]
            );
            assert!(launch.environment.is_empty());
        },
        Err(_) => panic!("registered identifier failed to resolve"),
    }
}

#[test]
fn empty_identifier_is_unknown() {
    match resolve("") {
        Ok(_) => panic!("empty identifier resolved"),
        Err(ResolutionError::UnknownServer(s)) => assert_eq!(s, ""),
    }
}

#[test]
fn unregistered_identifier_is_unknown() {
    match resolve("random-unregistered-name") {
        Ok(_) => panic!("unregistered identifier resolved"),
        Err(ResolutionError::UnknownServer(s)) => assert_eq!(s, "random-unregistered-name"),
    }
}

#[test]
fn resolution_is_deterministic() {
    assert_eq!(resolve("notepadpp-mcp"), resolve("notepadpp-mcp"));
    assert_eq!(resolve("some-other-server"), resolve("some-other-server"));
}

#[test]
fn registry_holds_the_documented_entry() {
    let entries = registry();
    assert_eq!(entries.len(), 1);
    assert_eq!(entries[0].identifier, "notepadpp-mcp");
    assert_eq!(entries[0].launch.executable, "uv");
    assert_eq!(
        entries[0].launch.arguments,
        vec!["run".to_string(), "notepadpp_mcp.tools.server:run".to_string()]
    );
    assert!(entries[0].launch.environment.is_empty());
}

#[test]
fn error_message_names_the_identifier() {
    match resolve("random-unregistered-name") {
        Ok(_) => panic!("unregistered identifier resolved"),
        Err(e) => assert_eq!(e.message(), "Unknown server: random-unregistered-name"),
    }
}
