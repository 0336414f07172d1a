//! The discovery document: what a handler offers, and the keys that it signs
//! with.

use vstd::prelude::*;

use crate::config::Config;
use crate::crypto::public_key;
use crate::intent::Intent;
use crate::json::{lemma_member_found, ArrayBuilder, Json, JsonView, ObjectBuilder};
use crate::numerals::{nat_text, nat_to_text};
use crate::signing::{jwk_document, ReceiptSigner};
use crate::text::{join2, join4, string_views};

verus! {

/// What a handler offers.
#[derive(Debug)]
pub struct DiscoveryDocument {
    pub icp_version: String,
    pub handler_id: String,
    pub service_name: String,
    pub supported_versions: Vec<String>,
    pub transports: Json,
    pub intents: Vec<String>,
    pub currencies: Vec<String>,
    pub jurisdictions: Vec<String>,
    pub payment_methods: Vec<Json>,
    pub signing_keys: Vec<Json>,
    pub profile_url: String,
    pub compatibility: Json,
    pub extensions: Vec<Json>,
}

/// A text when the switch is on, and null otherwise.
pub open spec fn text_if(on: bool, text: Seq<char>) -> JsonView {
    if on {
        JsonView::Str(text)
    } else {
        JsonView::Null
    }
}

fn text_when(on: bool, text: String) -> (r: Json)
    ensures
        r@ == text_if(on, text@),
{
    if on {
        Json::Str(text)
    } else {
        Json::Null
    }
}

/// A document when the switch is on, and null otherwise.
pub open spec fn doc_if(on: bool, doc: JsonView) -> JsonView {
    if on {
        doc
    } else {
        JsonView::Null
    }
}

fn doc_when(on: bool, doc: Json) -> (r: Json)
    ensures
        r@ == doc_if(on, doc@),
{
    if on {
        doc
    } else {
        Json::Null
    }
}

/// Where the handler can be reached.
pub open spec fn transports_view(config: Config) -> JsonView {
    let http = config.public_base_url@;
    JsonView::Object(
        Seq::empty().push(("http"@, JsonView::Str(http))).push(
            (
                "grpc"@,
                JsonView::Str(
                    "grpc://"@ + config.grpc_host@ + ":"@ + nat_text(config.grpc_port as nat),
                ),
            ),
        ).push(("sse_events"@, JsonView::Str(http + "/icp/v1/events:stream"@))).push(
            ("mcp"@, text_if(config.mcp_enabled, http + "/mcp"@)),
        ).push(("a2a"@, text_if(config.a2a_enabled, http + "/a2a/v1"@))),
    )
}

fn transports(config: &Config) -> (r: Json)
    ensures
        r@ == transports_view(*config),
{
    let http = config.public_base_url.as_str();
    let port = nat_to_text(config.grpc_port as u128);
    let grpc = join4("grpc://", config.grpc_host.as_str(), ":", port.as_str());
    let sse = join2(http, "/icp/v1/events:stream");
    let mcp = text_when(config.mcp_enabled, join2(http, "/mcp"));
    let a2a = text_when(config.a2a_enabled, join2(http, "/a2a/v1"));
    ObjectBuilder::new().put_str("http", http).put_str("grpc", grpc.as_str()).put_str(
        "sse_events",
        sse.as_str(),
    ).put("mcp", mcp).put("a2a", a2a).build()
}

/// The other protocols that the handler speaks.
pub open spec fn compatibility_view(config: Config) -> JsonView {
    let base = config.public_base_url@;
    JsonView::Object(
        Seq::empty().push(
            (
                "acp"@,
                doc_if(
                    config.acp_compat_enabled,
                    JsonView::Object(
                        Seq::empty().push(("version"@, JsonView::Str("2025-09-29"@))).push(
                            ("base_url"@, JsonView::Str(base)),
                        ),
                    ),
                ),
            ),
        ).push(
            (
                "ucp"@,
                doc_if(
                    config.ucp_compat_enabled,
                    JsonView::Object(
                        Seq::empty().push(("version"@, JsonView::Str("2026-01-11"@))).push(
                            ("base_url"@, JsonView::Str(base + "/ucp"@)),
                        ),
                    ),
                ),
            ),
        ).push(
            (
                "mcp"@,
                doc_if(
                    config.mcp_enabled,
                    JsonView::Object(
                        Seq::empty().push(("tools_url"@, JsonView::Str(base + "/mcp"@))),
                    ),
                ),
            ),
        ).push(
            (
                "a2a"@,
                doc_if(
                    config.a2a_enabled,
                    JsonView::Object(
                        Seq::empty().push(
                            (
                                "agent_card_url"@,
                                JsonView::Str(base + "/.well-known/agent.json"@),
                            ),
                        ),
                    ),
                ),
            ),
        ),
    )
}

fn compatibility(config: &Config) -> (r: Json)
    ensures
        r@ == compatibility_view(*config),
{
    let base = config.public_base_url.as_str();
    let ucp_url = join2(base, "/ucp");
    let mcp_url = join2(base, "/mcp");
    let card_url = join2(base, "/.well-known/agent.json");
    let acp = ObjectBuilder::new().put_str("version", "2025-09-29").put_str("base_url", base).build();
    let ucp = ObjectBuilder::new().put_str("version", "2026-01-11").put_str(
        "base_url",
        ucp_url.as_str(),
    ).build();
    let mcp = ObjectBuilder::new().put_str("tools_url", mcp_url.as_str()).build();
    let a2a = ObjectBuilder::new().put_str("agent_card_url", card_url.as_str()).build();
    ObjectBuilder::new().put("acp", doc_when(config.acp_compat_enabled, acp)).put(
        "ucp",
        doc_when(config.ucp_compat_enabled, ucp),
    ).put("mcp", doc_when(config.mcp_enabled, mcp)).put(
        "a2a",
        doc_when(config.a2a_enabled, a2a),
    ).build()
}

/// Payment by card.
pub open spec fn card_method_view() -> JsonView {
    JsonView::Object(
        Seq::empty().push(
            ("id"@, JsonView::Str("card"@)),
        ).push(
            ("brands"@, JsonView::Array(
                Seq::empty().push(JsonView::Str("visa"@)).push(JsonView::Str("mastercard"@)).push(JsonView::Str("amex"@)),
            )),
        ),
    )
}

/// Payment by card.
fn card_method() -> (r: Json)
    ensures
        r@ == card_method_view(),
{
    ObjectBuilder::new().put_str(
        "id",
        "card",
    ).put(
        "brands",
        ArrayBuilder::new().put_str("visa").put_str("mastercard").put_str("amex").build(),
    ).build()
}

/// Payment by stablecoin.
pub open spec fn stablecoin_method_view() -> JsonView {
    JsonView::Object(
        Seq::empty().push(
            ("id"@, JsonView::Str("stablecoin"@)),
        ).push(
            ("assets"@, JsonView::Array(
                Seq::empty().push(JsonView::Str("USDC"@)).push(JsonView::Str("ssUSD"@)),
            )),
        ).push(
            ("chains"@, JsonView::Array(
                Seq::empty().push(JsonView::Str("base"@)).push(JsonView::Str("set"@)).push(JsonView::Str("solana"@)),
            )),
        ),
    )
}

/// Payment by stablecoin.
fn stablecoin_method() -> (r: Json)
    ensures
        r@ == stablecoin_method_view(),
{
    ObjectBuilder::new().put_str(
        "id",
        "stablecoin",
    ).put(
        "assets",
        ArrayBuilder::new().put_str("USDC").put_str("ssUSD").build(),
    ).put(
        "chains",
        ArrayBuilder::new().put_str("base").put_str("set").put_str("solana").build(),
    ).build()
}

/// Payment by a delegated vault.
pub open spec fn vault_method_view() -> JsonView {
    JsonView::Object(
        Seq::empty().push(
            ("id"@, JsonView::Str("delegated_vault"@)),
        ).push(
            ("spec"@, JsonView::Str("acp.delegated_payment"@)),
        ),
    )
}

/// Payment by a delegated vault.
fn vault_method() -> (r: Json)
    ensures
        r@ == vault_method_view(),
{
    ObjectBuilder::new().put_str(
        "id",
        "delegated_vault",
    ).put_str(
        "spec",
        "acp.delegated_payment",
    ).build()
}

/// Payment to a peer.
pub open spec fn peer_method_view() -> JsonView {
    JsonView::Object(
        Seq::empty().push(
            ("id"@, JsonView::Str("a2a"@)),
        ).push(
            ("spec"@, JsonView::Str("icp.a2a_pay"@)),
        ),
    )
}

/// Payment to a peer.
fn peer_method() -> (r: Json)
    ensures
        r@ == peer_method_view(),
{
    ObjectBuilder::new().put_str(
        "id",
        "a2a",
    ).put_str(
        "spec",
        "icp.a2a_pay",
    ).build()
}

/// The documents of a list.
pub open spec fn doc_views(s: Seq<Json>) -> Seq<JsonView> {
    s.map_values(|d: Json| d@)
}

/// Whether the document says what the handler offers.
pub open spec fn advertises(d: DiscoveryDocument, config: Config, kid: Seq<char>, key: Seq<u8>) -> bool {
    &&& d.icp_version == config.icp_version
    &&& d.handler_id == config.handler_id
    &&& d.service_name == config.service_name
    &&& string_views(d.supported_versions@) == Seq::empty().push(config.icp_version@)
    &&& d.transports@ == transports_view(config)
    &&& string_views(d.intents@) == Intent::all().map_values(|i: Intent| i.name())
    &&& string_views(d.currencies@) == Seq::empty().push("USD"@).push("EUR"@).push("GBP"@).push(
        "USDC"@,
    ).push("ssUSD"@)
    &&& string_views(d.jurisdictions@) == Seq::empty().push("US"@).push("CA"@).push("GB"@).push(
        "DE"@,
    ).push("FR"@)
    &&& doc_views(d.payment_methods@) == Seq::empty().push(card_method_view()).push(
        stablecoin_method_view(),
    ).push(vault_method_view()).push(peer_method_view())
    &&& doc_views(d.signing_keys@) == Seq::empty().push(jwk_document(kid, key))
    &&& d.profile_url@ == config.public_base_url@ + "/.well-known/icp/profile.json"@
    &&& d.compatibility@ == compatibility_view(config)
    &&& d.extensions@.len() == 0
}

fn put_text(s: Vec<String>, t: &str) -> (r: Vec<String>)
    ensures
        string_views(r@) == string_views(s@).push(t@),
{
    let mut r = s;
    r.push(String::from_str(t));
    assert(string_views(r@) =~= string_views(s@).push(t@));
    r
}

fn no_texts() -> (r: Vec<String>)
    ensures
        string_views(r@) == Seq::<Seq<char>>::empty(),
{
    let r: Vec<String> = Vec::new();
    assert(string_views(r@) =~= Seq::<Seq<char>>::empty());
    r
}

fn intent_names() -> (r: Vec<String>)
    ensures
        string_views(r@) == Intent::all().map_values(|i: Intent| i.name()),
{
    let all = Intent::all_intents();
    let ghost names = Intent::all().map_values(|i: Intent| i.name());
    let mut out = no_texts();
    let mut i: usize = 0;
    assert(names.take(0) =~= Seq::<Seq<char>>::empty());
    while i < all.len()
        invariant
            i <= all@.len(),
            all@ == Intent::all(),
            names == Intent::all().map_values(|i: Intent| i.name()),
            string_views(out@) == names.take(i as int),
        decreases all@.len() - i,
    {
        out = put_text(out, all[i].wire_name());
        assert(names.take(i as int + 1) =~= names.take(i as int).push(names[i as int]));
        i += 1;
    }
    assert(names.take(names.len() as int) =~= names);
    out
}

/// The discovery document of a handler.
pub fn build(config: &Config, signer: &ReceiptSigner) -> (d: DiscoveryDocument)
    ensures
        advertises(d, *config, signer.kid@, public_key(signer.secret())),
{
    let currencies = put_text(
        put_text(put_text(put_text(put_text(no_texts(), "USD"), "EUR"), "GBP"), "USDC"),
        "ssUSD",
    );
    let jurisdictions = put_text(
        put_text(put_text(put_text(put_text(no_texts(), "US"), "CA"), "GB"), "DE"),
        "FR",
    );
    let mut payment_methods: Vec<Json> = Vec::new();
    payment_methods.push(card_method());
    payment_methods.push(stablecoin_method());
    payment_methods.push(vault_method());
    payment_methods.push(peer_method());
    assert(doc_views(payment_methods@) =~= Seq::empty().push(card_method_view()).push(
        stablecoin_method_view(),
    ).push(vault_method_view()).push(peer_method_view()));
    let mut signing_keys: Vec<Json> = Vec::new();
    signing_keys.push(signer.jwk());
    assert(doc_views(signing_keys@) =~= Seq::empty().push(
        jwk_document(signer.kid@, public_key(signer.secret())),
    ));
    DiscoveryDocument {
        icp_version: config.icp_version.clone(),
        handler_id: config.handler_id.clone(),
        service_name: config.service_name.clone(),
        supported_versions: put_text(no_texts(), config.icp_version.as_str()),
        transports: transports(config),
        intents: intent_names(),
        currencies,
        jurisdictions,
        payment_methods,
        signing_keys,
        profile_url: join2(config.public_base_url.as_str(), "/.well-known/icp/profile.json"),
        compatibility: compatibility(config),
        extensions: Vec::new(),
    }
}

// ---------------------------------------------------------------------------
// Laws
// ---------------------------------------------------------------------------

/// Every intent is advertised, and everything that is advertised is an intent.
pub proof fn law_advertised_intents_are_live(
    d: DiscoveryDocument,
    config: Config,
    kid: Seq<char>,
    key: Seq<u8>,
    i: Intent,
)
    requires
        advertises(d, config, kid, key),
    ensures
        string_views(d.intents@).contains(i.name()),
        forall|n: int|
            0 <= n < d.intents@.len() ==> exists|j: Intent|
                (#[trigger] d.intents@[n])@ == #[trigger] j.name(),
{
    crate::intent::law_all_is_complete(i);
    let at = Intent::all().index_of(i);
    assert(string_views(d.intents@)[at] == i.name());
    assert forall|n: int| 0 <= n < d.intents@.len() implies exists|j: Intent|
        (#[trigger] d.intents@[n])@ == #[trigger] j.name() by {
        assert(string_views(d.intents@).len() == d.intents@.len());
        assert(string_views(d.intents@)[n] == d.intents@[n]@);
        let names = Intent::all().map_values(|i: Intent| i.name());
        assert(names.len() == Intent::all().len());
        assert(d.intents@[n]@ == Intent::all()[n].name());
    }
}

/// The handler advertises what it is and where it is found; a transport that is switched off
/// is not advertised.
pub proof fn law_switched_off_transports_are_not_advertised(
    d: DiscoveryDocument,
    config: Config,
    kid: Seq<char>,
    key: Seq<u8>,
)
    requires
        advertises(d, config, kid, key),
    ensures
        d.icp_version == config.icp_version && d.handler_id == config.handler_id && d.service_name
            == config.service_name,
        d.supported_versions@.len() == 1 && d.supported_versions@[0]@ == config.icp_version@,
        d.transports@.member("http"@) == Some(JsonView::Str(config.public_base_url@)),
        d.transports@.member("mcp"@) == Some(
            if config.mcp_enabled {
                JsonView::Str(config.public_base_url@ + "/mcp"@)
            } else {
                JsonView::Null
            },
        ),
        d.transports@.member("a2a"@) == Some(
            if config.a2a_enabled {
                JsonView::Str(config.public_base_url@ + "/a2a/v1"@)
            } else {
                JsonView::Null
            },
        ),
        d.compatibility@.member("acp"@) is Some && d.compatibility@.member("ucp"@) is Some,
        !config.acp_compat_enabled ==> d.compatibility@.member("acp"@) == Some(JsonView::Null),
        !config.ucp_compat_enabled ==> d.compatibility@.member("ucp"@) == Some(JsonView::Null),
        config.acp_compat_enabled ==> d.compatibility@.member("acp"@) != Some(JsonView::Null),
        config.ucp_compat_enabled ==> d.compatibility@.member("ucp"@) != Some(JsonView::Null),
        d.signing_keys@.len() == 1 && d.signing_keys@[0]@ == jwk_document(kid, key),
        d.intents@.len() == 17,
        d.profile_url@ == config.public_base_url@ + "/.well-known/icp/profile.json"@,
        string_views(d.currencies@).contains("USD"@) && string_views(d.currencies@).contains(
            "EUR"@,
        ) && string_views(d.currencies@).contains("GBP"@) && d.currencies@.len() == 5,
        string_views(d.jurisdictions@).contains("US"@) && d.jurisdictions@.len() == 5,
        d.payment_methods@.len() == 4 && d.extensions@.len() == 0,
{
    let currencies = string_views(d.currencies@);
    assert(currencies.len() == d.currencies@.len());
    assert(currencies[0] == "USD"@ && currencies[1] == "EUR"@ && currencies[2] == "GBP"@);
    let places = string_views(d.jurisdictions@);
    assert(places.len() == d.jurisdictions@.len());
    assert(places[0] == "US"@);
    assert(doc_views(d.payment_methods@).len() == d.payment_methods@.len());
    let versions = string_views(d.supported_versions@);
    assert(versions.len() == d.supported_versions@.len());
    assert(versions[0] == d.supported_versions@[0]@);
    let keys = doc_views(d.signing_keys@);
    assert(keys.len() == d.signing_keys@.len());
    assert(keys[0] == d.signing_keys@[0]@);
    assert(string_views(d.intents@).len() == d.intents@.len());
    let t = transports_view(config)->Object_0;
    let c = compatibility_view(config)->Object_0;
    reveal_strlit("http");
    reveal_strlit("grpc");
    reveal_strlit("sse_events");
    reveal_strlit("mcp");
    reveal_strlit("a2a");
    reveal_strlit("acp");
    reveal_strlit("ucp");
    assert("http"@.len() == 4 && "grpc"@.len() == 4 && "sse_events"@.len() == 10 && "mcp"@.len()
        == 3 && "a2a"@.len() == 3 && "acp"@.len() == 3 && "ucp"@.len() == 3);
    assert("mcp"@[0] == 'm' && "a2a"@[0] == 'a' && "acp"@[0] == 'a' && "ucp"@[0] == 'u' && "http"@[0]
        == 'h' && "grpc"@[0] == 'g');
    assert(t[0].0.len() == 4 && t[1].0.len() == 4 && t[2].0.len() == 10 && t[3].0 == "mcp"@);
    lemma_member_found(t, "http"@, 0, 0);
    lemma_member_found(t, "mcp"@, 0, 3);
    lemma_member_found(t, "a2a"@, 0, 4);
    assert(c[0].0 == "acp"@);
    lemma_member_found(c, "acp"@, 0, 0);
    lemma_member_found(c, "ucp"@, 0, 1);
}

} // verus!
