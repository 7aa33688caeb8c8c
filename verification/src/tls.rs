//! The fields of the TLS settings, as a listener and the server defaults
//! share them.

use vstd::prelude::*;
use std::sync::Arc;
use crate::builder::Builder;
use crate::model::{Condition, Field, Schema, Source, Type};
use crate::registry::Schemas;
use crate::resolve::EvalView;

verus! {

/// The TLS protocol versions that can be disabled, each with its label.
pub open spec fn protocol_labels() -> Seq<(&'static str, &'static str)> {
    seq![("TLSv1.2", "TLS version 1.2"), ("TLSv1.3", "TLS version 1.3")]
}

/// The cipher suites that can be disabled, each with its label.
pub open spec fn ciphersuite_labels() -> Seq<(&'static str, &'static str)> {
    seq![
        ("TLS13_AES_256_GCM_SHA384", "TLS1.3 AES256 GCM SHA384"),
        ("TLS13_AES_128_GCM_SHA256", "TLS1.3 AES128 GCM SHA256"),
        ("TLS13_CHACHA20_POLY1305_SHA256", "TLS1.3 CHACHA20 POLY1305 SHA256"),
        ("TLS_ECDHE_ECDSA_WITH_AES_256_GCM_SHA384", "ECDHE ECDSA AES256 GCM SHA384"),
        ("TLS_ECDHE_ECDSA_WITH_AES_128_GCM_SHA256", "ECDHE ECDSA AES128 GCM SHA256"),
        ("TLS_ECDHE_ECDSA_WITH_CHACHA20_POLY1305_SHA256", "ECDHE ECDSA CHACHA20 POLY1305 SHA256"),
        ("TLS_ECDHE_RSA_WITH_AES_256_GCM_SHA384", "ECDHE RSA AES256 GCM SHA384"),
        ("TLS_ECDHE_RSA_WITH_AES_128_GCM_SHA256", "ECDHE RSA AES128 GCM SHA256"),
        ("TLS_ECDHE_RSA_WITH_CHACHA20_POLY1305_SHA256", "ECDHE RSA CHACHA20 POLY1305 SHA256"),
    ]
}

/// The table of `protocol_labels`.
pub fn tls_protocols() -> (table: &'static [(&'static str, &'static str)])
    ensures
        table@ == protocol_labels(),
{
    &[("TLSv1.2", "TLS version 1.2"), ("TLSv1.3", "TLS version 1.3")]
}

/// The table of `ciphersuite_labels`.
pub fn tls_ciphersuites() -> (table: &'static [(&'static str, &'static str)])
    ensures
        table@ == ciphersuite_labels(),
{
    &[
        ("TLS13_AES_256_GCM_SHA384", "TLS1.3 AES256 GCM SHA384"),
        ("TLS13_AES_128_GCM_SHA256", "TLS1.3 AES128 GCM SHA256"),
        ("TLS13_CHACHA20_POLY1305_SHA256", "TLS1.3 CHACHA20 POLY1305 SHA256"),
        ("TLS_ECDHE_ECDSA_WITH_AES_256_GCM_SHA384", "ECDHE ECDSA AES256 GCM SHA384"),
        ("TLS_ECDHE_ECDSA_WITH_AES_128_GCM_SHA256", "ECDHE ECDSA AES128 GCM SHA256"),
        ("TLS_ECDHE_ECDSA_WITH_CHACHA20_POLY1305_SHA256", "ECDHE ECDSA CHACHA20 POLY1305 SHA256"),
        ("TLS_ECDHE_RSA_WITH_AES_256_GCM_SHA384", "ECDHE RSA AES256 GCM SHA384"),
        ("TLS_ECDHE_RSA_WITH_AES_128_GCM_SHA256", "ECDHE RSA AES128 GCM SHA256"),
        ("TLS_ECDHE_RSA_WITH_CHACHA20_POLY1305_SHA256", "ECDHE RSA CHACHA20 POLY1305 SHA256"),
    ]
}

/// The id of the setting about the client's cipher order.
pub open spec fn client_order_id(is_listener: bool) -> Seq<char> {
    if is_listener {
        "tls.ignore-client-order"@
    } else {
        "server.tls.ignore-client-order"@
    }
}

/// The id of the setting for the handshake timeout.
pub open spec fn timeout_id(is_listener: bool) -> Seq<char> {
    if is_listener {
        "tls.timeout"@
    } else {
        "server.tls.timeout"@
    }
}

/// The id of the setting for the disabled protocols.
pub open spec fn protocols_id(is_listener: bool) -> Seq<char> {
    if is_listener {
        "tls.disable-protocols"@
    } else {
        "server.tls.disable-protocols"@
    }
}

/// The id of the setting for the disabled cipher suites.
pub open spec fn ciphers_id(is_listener: bool) -> Seq<char> {
    if is_listener {
        "tls.disable-ciphers"@
    } else {
        "server.tls.disable-ciphers"@
    }
}

/// Whether `id` is the id of one of the four TLS settings.
pub open spec fn is_tls_id(id: Seq<char>, is_listener: bool) -> bool {
    ||| id == client_order_id(is_listener)
    ||| id == timeout_id(is_listener)
    ||| id == protocols_id(is_listener)
    ||| id == ciphers_id(is_listener)
}

/// Whether `field` is a TLS setting with the given id, label, help and
/// default: it has no checks, the default is its placeholder too, and its
/// one display condition is on `switch`: for a listener that the switch is
/// set to "true", else a condition that lists no value.
pub open spec fn is_tls_setting(
    field: Field,
    id: Seq<char>,
    label: Seq<char>,
    help: Seq<char>,
    default: Option<Seq<char>>,
    switch: Arc<Field>,
    is_listener: bool,
) -> bool {
    &&& field.id@ == id
    &&& field.label_form@ == label
    &&& field.label_column@ == label
    &&& field.help.deep_view() == Some(help)
    &&& field.checks.is_blank()
    &&& field.default.if_thens@.len() == 0
    &&& field.default.default.deep_view() == default
    &&& field.placeholder.if_thens@.len() == 0
    &&& field.placeholder.default.deep_view() == default
    &&& field.display.deep_view() =~= seq![
        (EvalView {
            field: switch,
            values: if is_listener {
                seq!["true"@]
            } else {
                Seq::empty()
            },
            condition: Condition::MatchAny,
        }),
    ]
    &&& !field.readonly
}

/// The values of the switch on which the settings are shown: "true" for a
/// listener, none else.
fn override_values(is_listener: bool) -> (values: Vec<&'static str>)
    ensures
        values.deep_view() == (if is_listener {
            seq!["true"@]
        } else {
            Seq::empty()
        }),
{
    let values: Vec<&'static str> = if is_listener {
        vec!["true"]
    } else {
        Vec::new()
    };
    proof {
        assert(values.deep_view() =~= (if is_listener {
            seq!["true"@]
        } else {
            Seq::empty()
        }));
    }
    values
}

/// The ids of the settings differ from each other and from the id of the
/// switch.
proof fn lemma_ids_differ(is_listener: bool)
    ensures
        client_order_id(is_listener) != timeout_id(is_listener),
        client_order_id(is_listener) != protocols_id(is_listener),
        client_order_id(is_listener) != ciphers_id(is_listener),
        timeout_id(is_listener) != protocols_id(is_listener),
        timeout_id(is_listener) != ciphers_id(is_listener),
        protocols_id(is_listener) != ciphers_id(is_listener),
        !is_tls_id("tls.override"@, is_listener),
{
    reveal_strlit("tls.override");
    reveal_strlit("tls.ignore-client-order");
    reveal_strlit("server.tls.ignore-client-order");
    reveal_strlit("tls.timeout");
    reveal_strlit("server.tls.timeout");
    reveal_strlit("tls.disable-protocols");
    reveal_strlit("server.tls.disable-protocols");
    reveal_strlit("tls.disable-ciphers");
    reveal_strlit("server.tls.disable-ciphers");
    assert("tls.override"@.len() == 12);
    assert("tls.ignore-client-order"@.len() == 23);
    assert("server.tls.ignore-client-order"@.len() == 30);
    assert("tls.timeout"@.len() == 11);
    assert("server.tls.timeout"@.len() == 18);
    assert("tls.disable-protocols"@.len() == 21);
    assert("server.tls.disable-protocols"@.len() == 28);
    assert("tls.disable-ciphers"@.len() == 19);
    assert("server.tls.disable-ciphers"@.len() == 26);
}

impl Builder<Schemas, Schema> {
    /// Registers the four TLS settings: whether to ignore the client's
    /// cipher order, the handshake timeout, the disabled protocols and the
    /// disabled cipher suites. As the settings of a listener their ids start
    /// with `tls.`, as the defaults of the server with `server.tls.`.
    ///
    /// Each setting is shown on a condition on the field `tls.override`,
    /// which has to be registered.
    pub fn add_tls_fields(self, is_listener: bool) -> (next: Self)
        requires
            self.item.registered().contains_key("tls.override"@),
        ensures
            next.parent == self.parent,
            next.item == (Schema { fields: next.item.fields, ..self.item }),
            forall|id: Seq<char>|
                next.item.registered().contains_key(id) <==> self.item.registered().contains_key(id)
                    || is_tls_id(id, is_listener),
            forall|id: Seq<char>|
                self.item.registered().contains_key(id) && !is_tls_id(id, is_listener)
                    ==> next.item.registered()[id] == self.item.registered()[id],
            is_tls_setting(
                *next.item.registered()[client_order_id(is_listener)],
                client_order_id(is_listener),
                "Ignore client order"@,
                "Whether to ignore the client's cipher order"@,
                Some("true"@),
                self.item.registered()["tls.override"@],
                is_listener,
            ),
            next.item.registered()[client_order_id(is_listener)].typ_ is Checkbox,
            is_tls_setting(
                *next.item.registered()[timeout_id(is_listener)],
                timeout_id(is_listener),
                "Handshake Timeout"@,
                "TLS handshake timeout"@,
                Some("1m"@),
                self.item.registered()["tls.override"@],
                is_listener,
            ),
            next.item.registered()[timeout_id(is_listener)].typ_ is Duration,
            is_tls_setting(
                *next.item.registered()[protocols_id(is_listener)],
                protocols_id(is_listener),
                "Disabled Protocols"@,
                "Which TLS protocols to disable"@,
                None,
                self.item.registered()["tls.override"@],
                is_listener,
            ),
            next.item.registered()[protocols_id(is_listener)].typ_ matches Type::Select(
                Source::Static(table),
            ) && table@ == protocol_labels(),
            is_tls_setting(
                *next.item.registered()[ciphers_id(is_listener)],
                ciphers_id(is_listener),
                "Disabled Ciphersuites"@,
                "Which ciphersuites to disable"@,
                None,
                self.item.registered()["tls.override"@],
                is_listener,
            ),
            next.item.registered()[ciphers_id(is_listener)].typ_ matches Type::Select(
                Source::Static(table),
            ) && table@ == ciphersuite_labels(),
            self.is_sound() ==> next.is_sound(),
    {
        proof {
            lemma_ids_differ(is_listener);
        }
        let first = self.new_field(
            if is_listener {
                "tls.ignore-client-order"
            } else {
                "server.tls.ignore-client-order"
            },
        ).label("Ignore client order").help("Whether to ignore the client's cipher order").typ(
            Type::Checkbox,
        ).default("true").display_if_eq("tls.override", override_values(is_listener)).build();
        let second = first.new_field(
            if is_listener {
                "tls.timeout"
            } else {
                "server.tls.timeout"
            },
        ).label("Handshake Timeout").help("TLS handshake timeout").typ(Type::Duration).default(
            "1m",
        ).display_if_eq("tls.override", override_values(is_listener)).build();
        let third = second.new_field(
            if is_listener {
                "tls.disable-protocols"
            } else {
                "server.tls.disable-protocols"
            },
        ).label("Disabled Protocols").help("Which TLS protocols to disable").typ(
            Type::Select(Source::Static(tls_protocols())),
        ).display_if_eq("tls.override", override_values(is_listener)).build();
        third.new_field(
            if is_listener {
                "tls.disable-ciphers"
            } else {
                "server.tls.disable-ciphers"
            },
        ).label("Disabled Ciphersuites").help("Which ciphersuites to disable").typ(
            Type::Select(Source::Static(tls_ciphersuites())),
        ).display_if_eq("tls.override", override_values(is_listener)).build()
    }
}

} // verus!
