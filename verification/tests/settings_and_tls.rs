use schema_engine::model::{Condition, Field, Source, Type};
use schema_engine::registry::Schemas;
use schema_engine::resolve::SettingsValue;
use schema_engine::settings::Settings;
use schema_engine::tls::{tls_ciphersuites, tls_protocols};

fn settings_with(pairs: &[(&str, &str)]) -> Settings {
    let mut settings = Settings::default();
    for (key, value) in pairs {
        settings.values.insert(key.to_string(), value.to_string());
    }
    settings
}

#[test]
fn settings_answer_with_what_is_stored() {
    let settings = settings_with(&[("server.hostname", "mx.example.org"), ("empty", "")]);
    assert_eq!(settings.get("server.hostname"), Some("mx.example.org"));
    assert_eq!(settings.get("empty"), Some(""));
    assert_eq!(settings.get("server"), None);
    assert_eq!(Settings::default().get("server.hostname"), None);
}

#[test]
fn field_reads_its_value_from_settings() {
    let mut hostname = Field::blank();
    hostname.id = "server.hostname";
    let settings = settings_with(&[("server.hostname", "mx.example.org")]);
    assert_eq!(hostname.value(&settings), "mx.example.org");
    assert_eq!(hostname.label(&settings), "mx.example.org");
    assert_eq!(hostname.value(&Settings::default()), "");
}

#[test]
fn tls_tables() {
    assert_eq!(
        tls_protocols(),
        &[
            ("TLSv1.2", "TLS version 1.2"),
            ("TLSv1.3", "TLS version 1.3")
        ]
    );
    let suites = tls_ciphersuites();
    assert_eq!(suites.len(), 9);
    assert_eq!(
        suites[0],
        ("TLS13_AES_256_GCM_SHA384", "TLS1.3 AES256 GCM SHA384")
    );
    assert_eq!(
        suites[8],
        (
            "TLS_ECDHE_RSA_WITH_CHACHA20_POLY1305_SHA256",
            "ECDHE RSA CHACHA20 POLY1305 SHA256"
        )
    );
}

fn listener(is_listener: bool) -> Schemas {
    Schemas::builder()
        .new_schema("listener")
        .new_field("tls.override")
        .typ(Type::Checkbox)
        .build()
        .add_tls_fields(is_listener)
        .build()
        .build()
}

#[test]
fn tls_fields_of_a_listener() {
    let registry = listener(true);
    let schema = registry.get("listener");
    assert_eq!(schema.fields.len(), 5);

    let order = schema.fields.get("tls.ignore-client-order").unwrap();
    assert_eq!(order.label_form, "Ignore client order");
    assert_eq!(order.label_column, "Ignore client order");
    assert_eq!(
        order.help,
        Some("Whether to ignore the client's cipher order")
    );
    assert!(matches!(order.typ_, Type::Checkbox));
    assert_eq!(order.default.default, Some("true"));
    assert_eq!(order.placeholder.default, Some("true"));

    let timeout = schema.fields.get("tls.timeout").unwrap();
    assert_eq!(timeout.label_form, "Handshake Timeout");
    assert_eq!(timeout.help, Some("TLS handshake timeout"));
    assert!(matches!(timeout.typ_, Type::Duration));
    assert_eq!(timeout.default.default, Some("1m"));

    let protocols = schema.fields.get("tls.disable-protocols").unwrap();
    assert_eq!(protocols.label_form, "Disabled Protocols");
    assert_eq!(protocols.help, Some("Which TLS protocols to disable"));
    assert!(matches!(
        protocols.typ_,
        Type::Select(Source::Static(table)) if table == tls_protocols()
    ));
    assert_eq!(protocols.default.default, None);

    let ciphers = schema.fields.get("tls.disable-ciphers").unwrap();
    assert_eq!(ciphers.label_form, "Disabled Ciphersuites");
    assert_eq!(ciphers.help, Some("Which ciphersuites to disable"));
    assert!(matches!(
        ciphers.typ_,
        Type::Select(Source::Static(table)) if table == tls_ciphersuites()
    ));

    for field in [order, timeout, protocols, ciphers] {
        assert_eq!(field.display.len(), 1);
        assert_eq!(field.display[0].field.id, "tls.override");
        assert_eq!(field.display[0].values, vec!["true"]);
        assert_eq!(field.display[0].condition, Condition::MatchAny);
        assert!(field.checks.if_thens.is_empty());
        assert_eq!(field.checks.default, None);
        assert!(!field.readonly);
        assert!(field.display(&settings_with(&[("tls.override", "true")])));
        assert!(!field.display(&settings_with(&[("tls.override", "false")])));
        assert!(!field.display(&Settings::default()));
    }
}

#[test]
fn tls_fields_of_the_server_defaults() {
    let registry = listener(false);
    let schema = registry.get("listener");
    assert_eq!(schema.fields.len(), 5);
    for id in [
        "server.tls.ignore-client-order",
        "server.tls.timeout",
        "server.tls.disable-protocols",
        "server.tls.disable-ciphers",
    ] {
        let field = schema.fields.get(id).unwrap();
        assert_eq!(field.id, id);
        assert_eq!(field.display.len(), 1);
        assert_eq!(field.display[0].field.id, "tls.override");
        assert!(field.display[0].values.is_empty());
        assert_eq!(field.display[0].condition, Condition::MatchAny);
        assert!(!field.display(&settings_with(&[("tls.override", "true")])));
    }
    assert!(!schema.fields.contains_key("tls.timeout"));
    let protocols = schema.fields.get("server.tls.disable-protocols").unwrap();
    assert_eq!(
        protocols.label(&settings_with(&[("server.tls.disable-protocols", "TLSv1.3")])),
        "TLS version 1.3"
    );
}
