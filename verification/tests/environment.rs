use backend_supervisor::environment::{EnvironmentBuilder, Variable};

fn variable(name: &str, value: &str) -> Variable {
    Variable { name: name.to_string(), value: value.to_string() }
}

#[test]
fn build_repairs_the_search_path_of_the_base() {
    let base = vec![variable("HOME", "/home/me"), variable("PATH", "/usr/bin:/bin")];
    let env = EnvironmentBuilder::well_known().build(&base);
    assert_eq!(
        env.get("PATH"),
        Some("/opt/homebrew/bin:/usr/local/bin:/usr/bin:/bin")
    );
}

#[test]
fn build_keeps_the_other_variables() {
    let base = vec![
        variable("HOME", "/home/me"),
        variable("PATH", "/usr/bin:/bin"),
        variable("LANG", "C"),
    ];
    let env = EnvironmentBuilder::well_known().build(&base);
    assert_eq!(env.get("HOME"), Some("/home/me"));
    assert_eq!(env.get("LANG"), Some("C"));
    assert_eq!(env.get("SHELL"), None);
    assert_eq!(env.get("path"), None);
}

#[test]
fn build_without_a_search_path_starts_from_the_empty_path() {
    let base = vec![variable("HOME", "/home/me")];
    let env = EnvironmentBuilder::well_known().build(&base);
    assert_eq!(
        env.get("PATH"),
        Some("/opt/homebrew/bin:/usr/local/bin:/usr/bin:/bin:")
    );
    let empty = EnvironmentBuilder::well_known().build(&Vec::new());
    assert_eq!(
        empty.get("PATH"),
        Some("/opt/homebrew/bin:/usr/local/bin:/usr/bin:/bin:")
    );
}

#[test]
fn build_takes_the_last_binding_of_a_name() {
    let base = vec![
        variable("PATH", "/first"),
        variable("LANG", "C"),
        variable("PATH", "/bin:/second"),
        variable("LANG", "de_DE.UTF-8"),
    ];
    let env = EnvironmentBuilder::well_known().build(&base);
    assert_eq!(
        env.get("PATH"),
        Some("/opt/homebrew/bin:/usr/local/bin:/usr/bin:/bin:/second")
    );
    assert_eq!(env.get("LANG"), Some("de_DE.UTF-8"));
}

#[test]
fn build_uses_the_directories_of_the_builder() {
    let builder = EnvironmentBuilder::new(vec!["/tools".to_string(), "/bin".to_string()]);
    let env = builder.build(&vec![variable("PATH", "/bin:/usr/bin")]);
    assert_eq!(env.get("PATH"), Some("/tools:/bin:/usr/bin"));
    let none = EnvironmentBuilder::new(Vec::new()).build(&vec![variable("PATH", "/bin")]);
    assert_eq!(none.get("PATH"), Some("/bin"));
}

#[test]
fn variables_set_in_order_give_the_environment() {
    let base = vec![variable("PATH", "/bin"), variable("HOME", "/home/me")];
    let env = EnvironmentBuilder::well_known().build(&base);
    let mut applied: Vec<(String, String)> = Vec::new();
    for var in env.variables() {
        applied.retain(|(name, _)| *name != var.name);
        applied.push((var.name.clone(), var.value.clone()));
    }
    applied.sort();
    assert_eq!(
        applied,
        vec![
            ("HOME".to_string(), "/home/me".to_string()),
            (
                "PATH".to_string(),
                "/opt/homebrew/bin:/usr/local/bin:/usr/bin:/bin".to_string()
            ),
        ]
    );
}
