use suss::cmd::CommandTemplate;
use suss::descriptor::{ReifiedService, ServiceDescriptor};

fn tokens(items: &[&str]) -> Vec<String> {
    items.iter().map(|s| s.to_string()).collect()
}

fn echo_template() -> CommandTemplate {
    CommandTemplate {
        program: "sfdjfkosdgjsadgjlas".to_string(),
        pre_args: tokens(&[]),
        liveness_pre_args: tokens(&["--liveness"]),
        liveness_post_args: tokens(&[]),
        post_args: tokens(&[]),
    }
}

#[test]
fn argv_without_liveness_is_the_bare_program() {
    let t = echo_template();
    let argv = t.build_argv(None, None);
    assert_eq!(argv, tokens(&["sfdjfkosdgjsadgjlas"]));
}

#[test]
fn argv_with_liveness_inserts_the_liveness_tokens() {
    let t = echo_template();
    let path = "/tmp/temp-0000000000000000.sock".to_string();
    let argv = t.build_argv(None, Some(&path));
    assert_eq!(
        argv,
        tokens(&["sfdjfkosdgjsadgjlas", "--liveness", "/tmp/temp-0000000000000000.sock"])
    );
}

#[test]
fn executor_prefix_comes_first() {
    let t = echo_template();
    let prefix = tokens(&["/usr/bin/env", "wrapper"]);
    let path = "/tmp/l.sock".to_string();
    let argv = t.build_argv(Some(&prefix), Some(&path));
    assert_eq!(
        argv,
        tokens(&[
            "/usr/bin/env",
            "wrapper",
            "sfdjfkosdgjsadgjlas",
            "--liveness",
            "/tmp/l.sock"
        ])
    );
}

#[test]
fn argv_keeps_all_sections_in_order() {
    let t = CommandTemplate {
        program: "serve".to_string(),
        pre_args: tokens(&["--quiet", "--mode", "echo"]),
        liveness_pre_args: tokens(&["--liveness"]),
        liveness_post_args: tokens(&["--liveness-done"]),
        post_args: tokens(&["--last"]),
    };
    let argv = t.build_argv(None, Some(&"/tmp/l.sock".to_string()));
    assert_eq!(
        argv,
        tokens(&[
            "serve",
            "--quiet",
            "--mode",
            "echo",
            "--liveness",
            "/tmp/l.sock",
            "--liveness-done",
            "--last"
        ])
    );
    let argv_autonomous = t.build_argv(None, None);
    assert_eq!(
        argv_autonomous,
        tokens(&["serve", "--quiet", "--mode", "echo", "--last"])
    );
}

#[test]
fn reified_service_resolves_paths_and_argv() {
    let descriptor = ServiceDescriptor {
        socket_name: "test-service.sock".to_string(),
        command: echo_template(),
    };
    let service = ReifiedService::reify_service(descriptor, "/tmp/ns".to_string());
    assert_eq!(service.named_socket_path().as_str(), "/tmp/ns/test-service.sock");
    let argv = service.launch_argv(None);
    assert_eq!(argv, tokens(&["sfdjfkosdgjsadgjlas"]));
}

#[test]
fn reified_service_with_executor_prepends_the_prefix() {
    let descriptor = ServiceDescriptor {
        socket_name: "test-service.sock".to_string(),
        command: echo_template(),
    };
    let service = ReifiedService::reify_service_with_executor(
        descriptor,
        "/tmp/ns".to_string(),
        tokens(&["/usr/bin/env"]),
    );
    let path = "/tmp/l.sock".to_string();
    let argv = service.launch_argv(Some(&path));
    assert_eq!(
        argv,
        tokens(&["/usr/bin/env", "sfdjfkosdgjsadgjlas", "--liveness", "/tmp/l.sock"])
    );
}
