use handlebars_server::server;
use handlebars_server::Options;

#[test]
fn default_transport_options() {
    let opts = server::Options::default();
    assert_eq!(opts.hostname, "localhost");
    assert_eq!(opts.port, 3000);
}

#[test]
fn options_carry_the_configuration_surface() {
    let opts = Options {
        server: server::Options { hostname: "0.0.0.0".to_string(), port: 8080 },
        base: "site".to_string(),
        watch: false,
    };
    assert_eq!(opts.server.port, 8080);
    assert_eq!(opts.base, "site");
    assert!(!opts.watch);
}
