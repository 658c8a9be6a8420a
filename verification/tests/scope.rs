use shell_commands::error::Error;
use shell_commands::scope::{find_sidecar, plan_scope_request, scope_request, ScopeRequest};

fn bins(names: &[&str]) -> Option<Vec<String>> {
    Some(names.iter().map(|n| n.to_string()).collect())
}

#[test]
fn sidecar_is_found_as_written() {
    let found = find_sidecar(&bins(&["a", "tool.exe"]), &"tool.exe".to_string(), &"tool".to_string());
    assert_eq!(found, Some("tool.exe".to_string()));
}

#[test]
fn sidecar_is_found_without_extension() {
    let found = find_sidecar(&bins(&["a", "tool"]), &"tool.exe".to_string(), &"tool".to_string());
    assert_eq!(found, Some("tool".to_string()));
}

#[test]
fn first_matching_binary_wins() {
    let found =
        find_sidecar(&bins(&["tool", "tool.exe"]), &"tool.exe".to_string(), &"tool".to_string());
    assert_eq!(found, Some("tool".to_string()));
}

#[test]
fn sidecar_is_not_found_in_an_absent_or_empty_list() {
    assert_eq!(find_sidecar(&None, &"tool".to_string(), &"tool".to_string()), None);
    assert_eq!(find_sidecar(&bins(&[]), &"tool".to_string(), &"tool".to_string()), None);
    assert_eq!(find_sidecar(&bins(&["tools", "too"]), &"tool".to_string(), &"tool".to_string()), None);
}

#[test]
fn program_request_needs_no_configured_binary() {
    assert_eq!(
        scope_request("echo".to_string(), false, &None),
        Ok(ScopeRequest::Program { program: "echo".to_string() })
    );
}

#[test]
fn sidecar_request_strips_the_extension() {
    assert_eq!(
        scope_request("bin/my-sidecar.exe".to_string(), true, &bins(&["bin/my-sidecar"])),
        Ok(ScopeRequest::Sidecar {
            program: "bin/my-sidecar.exe".to_string(),
            sidecar: "bin/my-sidecar".to_string(),
        })
    );
}

#[test]
fn sidecar_request_strips_only_the_last_extension() {
    assert_eq!(
        scope_request("tool.tar.gz".to_string(), true, &bins(&["tool", "tool.tar"])),
        Ok(ScopeRequest::Sidecar {
            program: "tool.tar.gz".to_string(),
            sidecar: "tool.tar".to_string(),
        })
    );
}

#[test]
fn unlisted_sidecar_is_refused() {
    assert_eq!(
        scope_request("other.exe".to_string(), true, &bins(&["my-sidecar", "other.ex"])),
        Err(Error::SidecarNotAllowed("other.exe".to_string()))
    );
    assert_eq!(
        scope_request("other".to_string(), true, &None),
        Err(Error::SidecarNotAllowed("other".to_string()))
    );
}

#[test]
fn planned_request_follows_the_given_stripped_form() {
    assert_eq!(
        plan_scope_request("a.b".to_string(), true, &bins(&["zz"]), &"zz".to_string()),
        Ok(ScopeRequest::Sidecar { program: "a.b".to_string(), sidecar: "zz".to_string() })
    );
    assert_eq!(
        plan_scope_request("a.b".to_string(), false, &bins(&["zz"]), &"zz".to_string()),
        Ok(ScopeRequest::Program { program: "a.b".to_string() })
    );
}

#[test]
fn error_names_its_subject() {
    assert_eq!(Error::SidecarNotAllowed("x".to_string()).subject(), "x");
    assert_eq!(Error::ProgramNotAllowed("p".to_string()).subject(), "p");
    assert_eq!(Error::UnknownEncoding("l".to_string()).subject(), "l");
    assert_eq!(Error::Scope("m".to_string()).subject(), "m");
}
