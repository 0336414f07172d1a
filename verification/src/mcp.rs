//! The tool surface of the Model Context Protocol: every intent is a tool that
//! is called over JSON-RPC 2.0.

use vstd::prelude::*;

use crate::agent::{agent_kind, AgentIdentifier, ApiKeyInfo, ApiKeyStore};
use crate::constants::ICP_VERSION;
use crate::errors::ErrorView;
use crate::handlers::{bearer_of, permits};
use crate::intent::{law_parse_inverts_wire_name, Intent};
use crate::json::{lemma_member_found, ArrayBuilder, Json, JsonView, ObjectBuilder};
use crate::models::{IntentContext, IntentEnvelope, IntentResponseBody};
use crate::service::IntentInput;
use crate::text::{
    after_prefix, join2, join3, join5, opt_text, opt_view, str_eq, strip_prefix,
};
use crate::time::Timestamp;

verus! {

/// The version of the Model Context Protocol that is spoken.
pub const MCP_PROTOCOL_VERSION: &'static str = "2024-11-05";

// ---------------------------------------------------------------------------
// JSON-RPC
// ---------------------------------------------------------------------------

/// A request.
#[derive(Debug)]
pub struct JsonRpcRequest {
    pub jsonrpc: String,
    pub id: Option<Json>,
    pub method: String,
    pub params: Option<Json>,
}

/// A response: a result, or an error.
#[derive(Debug)]
pub struct JsonRpcResponse {
    pub jsonrpc: &'static str,
    pub id: Option<Json>,
    pub result: Option<Json>,
    pub error: Option<JsonRpcError>,
}

/// What went wrong.
#[derive(Debug)]
pub struct JsonRpcError {
    pub code: i32,
    pub message: String,
    pub data: Option<Json>,
}

/// The documents, when there are any.
pub open spec fn opt_doc(o: Option<Json>) -> Option<JsonView> {
    match o {
        Some(d) => Some(d@),
        None => None,
    }
}

/// Whether the response carries this result.
pub open spec fn replies(r: JsonRpcResponse, id: Option<JsonView>, result: JsonView) -> bool {
    &&& r.jsonrpc@ == "2.0"@
    &&& opt_doc(r.id) == id
    &&& opt_doc(r.result) == Some(result)
    &&& r.error is None
}

/// Whether the response carries this error.
pub open spec fn fails(r: JsonRpcResponse, id: Option<JsonView>, code: int, message: Seq<char>) -> bool {
    &&& r.jsonrpc@ == "2.0"@
    &&& opt_doc(r.id) == id
    &&& r.result is None
    &&& r.error matches Some(e) && e.code == code && e.message@ == message && e.data is None
}

impl JsonRpcResponse {
    /// A response with a result.
    pub fn ok(id: Option<Json>, result: Json) -> (r: JsonRpcResponse)
        ensures
            replies(r, opt_doc(id), result@),
    {
        JsonRpcResponse { jsonrpc: "2.0", id, result: Some(result), error: None }
    }

    /// A response with an error.
    pub fn err(id: Option<Json>, code: i32, message: String) -> (r: JsonRpcResponse)
        ensures
            fails(r, opt_doc(id), code as int, message@),
    {
        JsonRpcResponse {
            jsonrpc: "2.0",
            id,
            result: None,
            error: Some(JsonRpcError { code, message, data: None }),
        }
    }
}

// ---------------------------------------------------------------------------
// Tools
// ---------------------------------------------------------------------------

/// The schema of a value of this kind.
pub open spec fn kind_view(kind: Seq<char>) -> JsonView {
    JsonView::Object(Seq::empty().push(("type"@, JsonView::Str(kind))))
}

/// The schema of a value of this kind.
fn kind_of(kind: &str) -> (r: Json)
    ensures
        r@ == kind_view(kind@),
{
    ObjectBuilder::new().put_str("type", kind).build()
}

/// The parameters of `search`.
pub open spec fn search_schema_view() -> JsonView {
    JsonView::Object(
        Seq::empty().push(
            ("type"@, JsonView::Str("object"@)),
        ).push(
            ("properties"@, JsonView::Object(
                Seq::empty().push(
                    ("query"@, JsonView::Object(
                        Seq::empty().push(
                            ("type"@, JsonView::Str("string"@)),
                        ).push(
                            ("description"@, JsonView::Str("Free-text search query"@)),
                        ),
                    )),
                ).push(
                    ("filters"@, JsonView::Object(
                        Seq::empty().push(
                            ("type"@, JsonView::Str("object"@)),
                        ).push(
                            ("description"@, JsonView::Str("Structured filters (brand, category, price_min, …)"@)),
                        ),
                    )),
                ).push(
                    ("limit"@, JsonView::Object(
                        Seq::empty().push(
                            ("type"@, JsonView::Str("integer"@)),
                        ).push(
                            ("minimum"@, JsonView::Int(1)),
                        ).push(
                            ("maximum"@, JsonView::Int(100)),
                        ),
                    )),
                ).push(
                    ("cursor"@, kind_view("string"@)),
                ),
            )),
        ),
    )
}

/// The parameters of `search`.
fn search_schema() -> (r: Json)
    ensures
        r@ == search_schema_view(),
{
    ObjectBuilder::new().put_str(
        "type",
        "object",
    ).put(
        "properties",
        ObjectBuilder::new().put(
            "query",
            ObjectBuilder::new().put_str(
                "type",
                "string",
            ).put_str(
                "description",
                "Free-text search query",
            ).build(),
        ).put(
            "filters",
            ObjectBuilder::new().put_str(
                "type",
                "object",
            ).put_str(
                "description",
                "Structured filters (brand, category, price_min, …)",
            ).build(),
        ).put(
            "limit",
            ObjectBuilder::new().put_str(
                "type",
                "integer",
            ).put(
                "minimum",
                Json::Int(1),
            ).put(
                "maximum",
                Json::Int(100),
            ).build(),
        ).put(
            "cursor",
            kind_of("string"),
        ).build(),
    ).build()
}

/// The parameters of `describe`.
pub open spec fn describe_schema_view() -> JsonView {
    JsonView::Object(
        Seq::empty().push(
            ("type"@, JsonView::Str("object"@)),
        ).push(
            ("properties"@, JsonView::Object(
                Seq::empty().push(
                    ("product_id"@, kind_view("string"@)),
                ).push(
                    ("sku"@, kind_view("string"@)),
                ),
            )),
        ),
    )
}

/// The parameters of `describe`.
fn describe_schema() -> (r: Json)
    ensures
        r@ == describe_schema_view(),
{
    ObjectBuilder::new().put_str(
        "type",
        "object",
    ).put(
        "properties",
        ObjectBuilder::new().put(
            "product_id",
            kind_of("string"),
        ).put(
            "sku",
            kind_of("string"),
        ).build(),
    ).build()
}

/// One position of a basket.
pub open spec fn item_schema_view() -> JsonView {
    JsonView::Object(
        Seq::empty().push(
            ("type"@, JsonView::Str("object"@)),
        ).push(
            ("required"@, JsonView::Array(
                Seq::empty().push(JsonView::Str("sku"@)).push(JsonView::Str("quantity"@)),
            )),
        ).push(
            ("properties"@, JsonView::Object(
                Seq::empty().push(
                    ("sku"@, kind_view("string"@)),
                ).push(
                    ("quantity"@, JsonView::Object(
                        Seq::empty().push(
                            ("type"@, JsonView::Str("integer"@)),
                        ).push(
                            ("minimum"@, JsonView::Int(1)),
                        ),
                    )),
                ).push(
                    ("unit_price_hint"@, JsonView::Object(
                        Seq::empty().push(
                            ("type"@, JsonView::Str("object"@)),
                        ).push(
                            ("properties"@, JsonView::Object(
                                Seq::empty().push(
                                    ("amount_minor"@, kind_view("integer"@)),
                                ).push(
                                    ("currency"@, kind_view("string"@)),
                                ),
                            )),
                        ),
                    )),
                ),
            )),
        ),
    )
}

/// One position of a basket.
fn item_schema() -> (r: Json)
    ensures
        r@ == item_schema_view(),
{
    ObjectBuilder::new().put_str(
        "type",
        "object",
    ).put(
        "required",
        ArrayBuilder::new().put_str("sku").put_str("quantity").build(),
    ).put(
        "properties",
        ObjectBuilder::new().put(
            "sku",
            kind_of("string"),
        ).put(
            "quantity",
            ObjectBuilder::new().put_str(
                "type",
                "integer",
            ).put(
                "minimum",
                Json::Int(1),
            ).build(),
        ).put(
            "unit_price_hint",
            ObjectBuilder::new().put_str(
                "type",
                "object",
            ).put(
                "properties",
                ObjectBuilder::new().put(
                    "amount_minor",
                    kind_of("integer"),
                ).put(
                    "currency",
                    kind_of("string"),
                ).build(),
            ).build(),
        ).build(),
    ).build()
}

/// The parameters of `quote`.
pub open spec fn quote_schema_view() -> JsonView {
    JsonView::Object(
        Seq::empty().push(
            ("type"@, JsonView::Str("object"@)),
        ).push(
            ("required"@, JsonView::Array(
                Seq::empty().push(JsonView::Str("items"@)),
            )),
        ).push(
            ("properties"@, JsonView::Object(
                Seq::empty().push(
                    ("items"@, JsonView::Object(
                        Seq::empty().push(
                            ("type"@, JsonView::Str("array"@)),
                        ).push(
                            ("items"@, item_schema_view()),
                        ),
                    )),
                ).push(
                    ("buyer"@, kind_view("object"@)),
                ).push(
                    ("ship_to"@, kind_view("object"@)),
                ).push(
                    ("currency"@, JsonView::Object(
                        Seq::empty().push(
                            ("type"@, JsonView::Str("string"@)),
                        ).push(
                            ("default"@, JsonView::Str("USD"@)),
                        ),
                    )),
                ).push(
                    ("jurisdiction"@, kind_view("string"@)),
                ),
            )),
        ),
    )
}

/// The parameters of `quote`.
fn quote_schema() -> (r: Json)
    ensures
        r@ == quote_schema_view(),
{
    ObjectBuilder::new().put_str(
        "type",
        "object",
    ).put(
        "required",
        ArrayBuilder::new().put_str("items").build(),
    ).put(
        "properties",
        ObjectBuilder::new().put(
            "items",
            ObjectBuilder::new().put_str(
                "type",
                "array",
            ).put(
                "items",
                item_schema(),
            ).build(),
        ).put(
            "buyer",
            kind_of("object"),
        ).put(
            "ship_to",
            kind_of("object"),
        ).put(
            "currency",
            ObjectBuilder::new().put_str(
                "type",
                "string",
            ).put_str(
                "default",
                "USD",
            ).build(),
        ).put(
            "jurisdiction",
            kind_of("string"),
        ).build(),
    ).build()
}

/// The parameters of `authorize`.
pub open spec fn authorize_schema_view() -> JsonView {
    JsonView::Object(
        Seq::empty().push(
            ("type"@, JsonView::Str("object"@)),
        ).push(
            ("required"@, JsonView::Array(
                Seq::empty().push(JsonView::Str("transaction_id"@)),
            )),
        ).push(
            ("properties"@, JsonView::Object(
                Seq::empty().push(
                    ("transaction_id"@, kind_view("string"@)),
                ).push(
                    ("buyer"@, kind_view("object"@)),
                ).push(
                    ("ship_to"@, kind_view("object"@)),
                ).push(
                    ("bill_to"@, kind_view("object"@)),
                ),
            )),
        ),
    )
}

/// The parameters of `authorize`.
fn authorize_schema() -> (r: Json)
    ensures
        r@ == authorize_schema_view(),
{
    ObjectBuilder::new().put_str(
        "type",
        "object",
    ).put(
        "required",
        ArrayBuilder::new().put_str("transaction_id").build(),
    ).put(
        "properties",
        ObjectBuilder::new().put(
            "transaction_id",
            kind_of("string"),
        ).put(
            "buyer",
            kind_of("object"),
        ).put(
            "ship_to",
            kind_of("object"),
        ).put(
            "bill_to",
            kind_of("object"),
        ).build(),
    ).build()
}

/// A payment instrument.
pub open spec fn payment_schema_view() -> JsonView {
    JsonView::Object(
        Seq::empty().push(
            ("type"@, JsonView::Str("object"@)),
        ).push(
            ("required"@, JsonView::Array(
                Seq::empty().push(JsonView::Str("method"@)),
            )),
        ).push(
            ("properties"@, JsonView::Object(
                Seq::empty().push(
                    ("method"@, JsonView::Object(
                        Seq::empty().push(
                            ("type"@, JsonView::Str("string"@)),
                        ).push(
                            ("enum"@, JsonView::Array(
                                Seq::empty().push(JsonView::Str("card"@)).push(JsonView::Str("delegated_vault"@)).push(JsonView::Str("stablecoin"@)).push(JsonView::Str("a2a"@)),
                            )),
                        ),
                    )),
                ).push(
                    ("token"@, kind_view("string"@)),
                ).push(
                    ("last_digits"@, kind_view("string"@)),
                ).push(
                    ("brand"@, kind_view("string"@)),
                ).push(
                    ("provider"@, kind_view("string"@)),
                ).push(
                    ("asset"@, kind_view("string"@)),
                ).push(
                    ("chain"@, kind_view("string"@)),
                ).push(
                    ("from"@, kind_view("string"@)),
                ).push(
                    ("peer_agent_id"@, kind_view("string"@)),
                ),
            )),
        ),
    )
}

/// A payment instrument.
fn payment_schema() -> (r: Json)
    ensures
        r@ == payment_schema_view(),
{
    ObjectBuilder::new().put_str(
        "type",
        "object",
    ).put(
        "required",
        ArrayBuilder::new().put_str("method").build(),
    ).put(
        "properties",
        ObjectBuilder::new().put(
            "method",
            ObjectBuilder::new().put_str(
                "type",
                "string",
            ).put(
                "enum",
                ArrayBuilder::new().put_str("card").put_str("delegated_vault").put_str("stablecoin").put_str("a2a").build(),
            ).build(),
        ).put(
            "token",
            kind_of("string"),
        ).put(
            "last_digits",
            kind_of("string"),
        ).put(
            "brand",
            kind_of("string"),
        ).put(
            "provider",
            kind_of("string"),
        ).put(
            "asset",
            kind_of("string"),
        ).put(
            "chain",
            kind_of("string"),
        ).put(
            "from",
            kind_of("string"),
        ).put(
            "peer_agent_id",
            kind_of("string"),
        ).build(),
    ).build()
}

/// The parameters of `buy` and `pay`.
pub open spec fn buy_schema_view() -> JsonView {
    JsonView::Object(
        Seq::empty().push(
            ("type"@, JsonView::Str("object"@)),
        ).push(
            ("required"@, JsonView::Array(
                Seq::empty().push(JsonView::Str("transaction_id"@)).push(JsonView::Str("payment"@)),
            )),
        ).push(
            ("properties"@, JsonView::Object(
                Seq::empty().push(
                    ("transaction_id"@, kind_view("string"@)),
                ).push(
                    ("payment"@, payment_schema_view()),
                ),
            )),
        ),
    )
}

/// The parameters of `buy` and `pay`.
fn buy_schema() -> (r: Json)
    ensures
        r@ == buy_schema_view(),
{
    ObjectBuilder::new().put_str(
        "type",
        "object",
    ).put(
        "required",
        ArrayBuilder::new().put_str("transaction_id").put_str("payment").build(),
    ).put(
        "properties",
        ObjectBuilder::new().put(
            "transaction_id",
            kind_of("string"),
        ).put(
            "payment",
            payment_schema(),
        ).build(),
    ).build()
}

/// The parameters of `track`.
pub open spec fn track_schema_view() -> JsonView {
    JsonView::Object(
        Seq::empty().push(
            ("type"@, JsonView::Str("object"@)),
        ).push(
            ("properties"@, JsonView::Object(
                Seq::empty().push(
                    ("transaction_id"@, kind_view("string"@)),
                ).push(
                    ("order_id"@, kind_view("string"@)),
                ),
            )),
        ),
    )
}

/// The parameters of `track`.
fn track_schema() -> (r: Json)
    ensures
        r@ == track_schema_view(),
{
    ObjectBuilder::new().put_str(
        "type",
        "object",
    ).put(
        "properties",
        ObjectBuilder::new().put(
            "transaction_id",
            kind_of("string"),
        ).put(
            "order_id",
            kind_of("string"),
        ).build(),
    ).build()
}

/// The parameters of `return` and `refund_request`.
pub open spec fn return_schema_view() -> JsonView {
    JsonView::Object(
        Seq::empty().push(
            ("type"@, JsonView::Str("object"@)),
        ).push(
            ("required"@, JsonView::Array(
                Seq::empty().push(JsonView::Str("transaction_id"@)),
            )),
        ).push(
            ("properties"@, JsonView::Object(
                Seq::empty().push(
                    ("transaction_id"@, kind_view("string"@)),
                ).push(
                    ("order_id"@, kind_view("string"@)),
                ).push(
                    ("line_item_ids"@, JsonView::Object(
                        Seq::empty().push(
                            ("type"@, JsonView::Str("array"@)),
                        ).push(
                            ("items"@, kind_view("string"@)),
                        ),
                    )),
                ).push(
                    ("reason"@, kind_view("string"@)),
                ),
            )),
        ),
    )
}

/// The parameters of `return` and `refund_request`.
fn return_schema() -> (r: Json)
    ensures
        r@ == return_schema_view(),
{
    ObjectBuilder::new().put_str(
        "type",
        "object",
    ).put(
        "required",
        ArrayBuilder::new().put_str("transaction_id").build(),
    ).put(
        "properties",
        ObjectBuilder::new().put(
            "transaction_id",
            kind_of("string"),
        ).put(
            "order_id",
            kind_of("string"),
        ).put(
            "line_item_ids",
            ObjectBuilder::new().put_str(
                "type",
                "array",
            ).put(
                "items",
                kind_of("string"),
            ).build(),
        ).put(
            "reason",
            kind_of("string"),
        ).build(),
    ).build()
}

/// The parameters of an intent whose schema is kept elsewhere.
pub open spec fn open_schema_view() -> JsonView {
    JsonView::Object(
        Seq::empty().push(
            ("type"@, JsonView::Str("object"@)),
        ).push(
            ("description"@, JsonView::Str("Accepts any ICP intent params for this intent; see the ICP documentation"@)),
        ),
    )
}

/// The parameters of an intent whose schema is kept elsewhere.
fn open_schema() -> (r: Json)
    ensures
        r@ == open_schema_view(),
{
    ObjectBuilder::new().put_str(
        "type",
        "object",
    ).put_str(
        "description",
        "Accepts any ICP intent params for this intent; see the ICP documentation",
    ).build()
}

/// The schema of the parameters of an intent.
pub open spec fn input_schema(intent: Intent) -> JsonView {
    match intent {
        Intent::Search => search_schema_view(),
        Intent::Describe => describe_schema_view(),
        Intent::Quote => quote_schema_view(),
        Intent::Authorize => authorize_schema_view(),
        Intent::Buy | Intent::Pay => buy_schema_view(),
        Intent::Track => track_schema_view(),
        Intent::Return | Intent::RefundRequest => return_schema_view(),
        _ => open_schema_view(),
    }
}

/// The schema of the parameters of an intent.
pub fn input_schema_for(intent: Intent) -> (r: Json)
    ensures
        r@ == input_schema(intent),
{
    match intent {
        Intent::Search => search_schema(),
        Intent::Describe => describe_schema(),
        Intent::Quote => quote_schema(),
        Intent::Authorize => authorize_schema(),
        Intent::Buy | Intent::Pay => buy_schema(),
        Intent::Track => track_schema(),
        Intent::Return | Intent::RefundRequest => return_schema(),
        _ => open_schema(),
    }
}

/// What a tool does, in words.
pub open spec fn description(intent: Intent) -> Seq<char> {
    match intent {
        Intent::Search => "Search products in the merchant's catalog. Read-only; does not require a mandate."@,
        Intent::Describe => "Fetch a product's full description by SKU or product id. Read-only."@,
        Intent::Quote => "Price a basket: returns a `quoted` transaction with totals (subtotal + tax + total). Scope: `quote`."@,
        Intent::Negotiate => "Counter-offer pricing on an existing quote. Scope: `quote`."@,
        Intent::Authorize => "Authorize an existing quoted transaction for payment. Scope: `buy`."@,
        Intent::Buy => "Complete purchase of an authorized transaction. Requires `payment`. Scope: `buy`."@,
        Intent::Pay => "Alias for intent.buy."@,
        Intent::Subscribe => "Start a recurring subscription against the transaction. Scope: `subscribe`."@,
        Intent::Renew => "Renew an existing subscription. Scope: `subscribe`."@,
        Intent::Pause => "Pause an active subscription. Scope: `subscribe`."@,
        Intent::CancelSubscription => "Cancel a subscription. Scope: `subscribe`."@,
        Intent::Track => "Fetch current transaction/order status (shipping, fulfillment). Read-only."@,
        Intent::ConfirmReceipt => "Acknowledge physical receipt of goods (triggers escrow release for A2A/stablecoin)."@,
        Intent::Return => "Initiate a return against a completed transaction. Scope: `return`."@,
        Intent::RefundRequest => "Request a refund against a completed order. Scope: `return`."@,
        Intent::A2aPay => "Pay another agent directly (peer commerce). Scope: `pay_peer`."@,
        Intent::A2aQuote => "Ask another agent to quote a service. Scope: `pay_peer`."@,
    }
}

/// What a tool does, in words.
pub fn description_for(intent: Intent) -> (r: &'static str)
    ensures
        r@ == description(intent),
{
    match intent {
        Intent::Search => "Search products in the merchant's catalog. Read-only; does not require a mandate.",
        Intent::Describe => "Fetch a product's full description by SKU or product id. Read-only.",
        Intent::Quote => "Price a basket: returns a `quoted` transaction with totals (subtotal + tax + total). Scope: `quote`.",
        Intent::Negotiate => "Counter-offer pricing on an existing quote. Scope: `quote`.",
        Intent::Authorize => "Authorize an existing quoted transaction for payment. Scope: `buy`.",
        Intent::Buy => "Complete purchase of an authorized transaction. Requires `payment`. Scope: `buy`.",
        Intent::Pay => "Alias for intent.buy.",
        Intent::Subscribe => "Start a recurring subscription against the transaction. Scope: `subscribe`.",
        Intent::Renew => "Renew an existing subscription. Scope: `subscribe`.",
        Intent::Pause => "Pause an active subscription. Scope: `subscribe`.",
        Intent::CancelSubscription => "Cancel a subscription. Scope: `subscribe`.",
        Intent::Track => "Fetch current transaction/order status (shipping, fulfillment). Read-only.",
        Intent::ConfirmReceipt => "Acknowledge physical receipt of goods (triggers escrow release for A2A/stablecoin).",
        Intent::Return => "Initiate a return against a completed transaction. Scope: `return`.",
        Intent::RefundRequest => "Request a refund against a completed order. Scope: `return`.",
        Intent::A2aPay => "Pay another agent directly (peer commerce). Scope: `pay_peer`.",
        Intent::A2aQuote => "Ask another agent to quote a service. Scope: `pay_peer`.",
    }
}

/// The tool of an intent.
pub open spec fn tool(intent: Intent) -> JsonView {
    JsonView::Object(
        Seq::empty().push(("name"@, JsonView::Str("icp_"@ + intent.short_name()))).push(
            ("description"@, JsonView::Str(description(intent))),
        ).push(("inputSchema"@, input_schema(intent))),
    )
}

/// The tool of an intent.
pub fn tool_for_intent(intent: Intent) -> (r: Json)
    ensures
        r@ == tool(intent),
{
    let name = join2("icp_", intent.short_wire_name());
    ObjectBuilder::new().put_str("name", name.as_str()).put_str(
        "description",
        description_for(intent),
    ).put("inputSchema", input_schema_for(intent)).build()
}

/// Every tool: one for each intent.
pub fn tool_catalog() -> (r: Vec<Json>)
    ensures
        r@.len() == Intent::all().len(),
        forall|i: int| 0 <= i < r@.len() ==> (#[trigger] r@[i])@ == tool(Intent::all()[i]),
{
    let intents = Intent::all_intents();
    let mut out: Vec<Json> = Vec::new();
    let mut i: usize = 0;
    while i < intents.len()
        invariant
            i <= intents@.len(),
            intents@ == Intent::all(),
            out@.len() == i,
            forall|j: int| 0 <= j < i ==> (#[trigger] out@[j])@ == tool(Intent::all()[j]),
        decreases intents@.len() - i,
    {
        out.push(tool_for_intent(intents[i]));
        i += 1;
    }
    out
}

// ---------------------------------------------------------------------------
// Dispatch
// ---------------------------------------------------------------------------

/// What the server says of itself.
pub open spec fn server_info_view(package_version: Seq<char>) -> JsonView {
    JsonView::Object(
        Seq::empty().push(
            ("protocolVersion"@, JsonView::Str(MCP_PROTOCOL_VERSION@)),
        ).push(
            ("capabilities"@, JsonView::Object(
                Seq::empty().push(
                    ("tools"@, JsonView::Object(
                        Seq::empty().push(
                            ("listChanged"@, JsonView::Bool(false)),
                        ),
                    )),
                ).push(
                    ("resources"@, JsonView::Object(
                        Seq::empty().push(
                            ("listChanged"@, JsonView::Bool(false)),
                        ).push(
                            ("subscribe"@, JsonView::Bool(false)),
                        ),
                    )),
                ).push(
                    ("prompts"@, JsonView::Object(
                        Seq::empty().push(
                            ("listChanged"@, JsonView::Bool(false)),
                        ),
                    )),
                ).push(
                    ("logging"@, JsonView::Object(Seq::empty())),
                ),
            )),
        ).push(
            ("serverInfo"@, JsonView::Object(
                Seq::empty().push(
                    ("name"@, JsonView::Str("stateset-icp-handler"@)),
                ).push(
                    ("version"@, JsonView::Str(package_version)),
                ).push(
                    ("icp_version"@, JsonView::Str(ICP_VERSION@)),
                ),
            )),
        ).push(
            ("instructions"@, JsonView::Str("Call tools/list to discover every ICP intent as a tool. Each tool accepts the intent's param schema. Results wrap the full ICP response body; state-changing tools include a signed receipt."@)),
        ),
    )
}

/// What the server says of itself.
fn server_info(package_version: &str) -> (r: Json)
    ensures
        r@ == server_info_view(package_version@),
{
    ObjectBuilder::new().put(
        "protocolVersion",
        Json::Str(String::from_str(MCP_PROTOCOL_VERSION)),
    ).put(
        "capabilities",
        ObjectBuilder::new().put(
            "tools",
            ObjectBuilder::new().put(
                "listChanged",
                Json::Bool(false),
            ).build(),
        ).put(
            "resources",
            ObjectBuilder::new().put(
                "listChanged",
                Json::Bool(false),
            ).put(
                "subscribe",
                Json::Bool(false),
            ).build(),
        ).put(
            "prompts",
            ObjectBuilder::new().put(
                "listChanged",
                Json::Bool(false),
            ).build(),
        ).put(
            "logging",
            ObjectBuilder::new().build(),
        ).build(),
    ).put(
        "serverInfo",
        ObjectBuilder::new().put_str(
            "name",
            "stateset-icp-handler",
        ).put(
            "version",
            Json::Str(String::from_str(package_version)),
        ).put(
            "icp_version",
            Json::Str(String::from_str(ICP_VERSION)),
        ).build(),
    ).put_str(
        "instructions",
        "Call tools/list to discover every ICP intent as a tool. Each tool accepts the intent's param schema. Results wrap the full ICP response body; state-changing tools include a signed receipt.",
    ).build()
}

/// A list under a name, as an object.
pub open spec fn listing(name: Seq<char>, elements: Seq<JsonView>) -> JsonView {
    JsonView::Object(Seq::empty().push((name, JsonView::Array(elements))))
}

/// What is to be done with a request.
#[derive(Debug)]
pub enum RpcStep {
    /// The request is answered.
    Reply(JsonRpcResponse),
    /// A tool is to be called with these parameters.
    CallTool(Option<Json>, Option<Json>),
}

/// Every tool, as documents.
pub open spec fn tools() -> Seq<JsonView> {
    Intent::all().map_values(|i: Intent| tool(i))
}

/// Whether this is what is done with a request.
pub open spec fn dispatched(s: RpcStep, req: JsonRpcRequest, package_version: Seq<char>) -> bool {
    let id = opt_doc(req.id);
    let m = req.method@;
    if req.jsonrpc@ != "2.0"@ {
        s matches RpcStep::Reply(r) && fails(r, id, -32600, "jsonrpc must be \"2.0\""@)
    } else if m == "initialize"@ {
        s matches RpcStep::Reply(r) && replies(r, id, server_info_view(package_version))
    } else if m == "initialized"@ || m == "notifications/initialized"@ || m == "ping"@ {
        s matches RpcStep::Reply(r) && replies(r, id, JsonView::Object(Seq::empty()))
    } else if m == "tools/list"@ {
        s matches RpcStep::Reply(r) && replies(r, id, listing("tools"@, tools()))
    } else if m == "tools/call"@ {
        s matches RpcStep::CallTool(i, p) && opt_doc(i) == id && opt_doc(p) == opt_doc(req.params)
    } else if m == "resources/list"@ {
        s matches RpcStep::Reply(r) && replies(r, id, listing("resources"@, Seq::empty()))
    } else if m == "prompts/list"@ {
        s matches RpcStep::Reply(r) && replies(r, id, listing("prompts"@, Seq::empty()))
    } else {
        s matches RpcStep::Reply(r) && fails(r, id, -32601, "method not found: "@ + m)
    }
}

fn empty_listing(name: &str) -> (r: Json)
    ensures
        r@ == listing(name@, Seq::empty()),
{
    ObjectBuilder::new().put(name, ArrayBuilder::new().build()).build()
}

fn tool_listing() -> (r: Json)
    ensures
        r@ == listing("tools"@, tools()),
{
    let catalog = Json::Array(tool_catalog());
    assert(catalog@->Array_0 =~= tools());
    ObjectBuilder::new().put("tools", catalog).build()
}

/// Routes a request. `package_version` is the version of the server.
pub fn dispatch(req: JsonRpcRequest, package_version: &str) -> (s: RpcStep)
    ensures
        dispatched(s, req, package_version@),
{
    let id = req.id;
    if !str_eq(req.jsonrpc.as_str(), "2.0") {
        return RpcStep::Reply(
            JsonRpcResponse::err(id, -32600, String::from_str("jsonrpc must be \"2.0\"")),
        );
    }
    let m = req.method.as_str();
    if str_eq(m, "initialize") {
        RpcStep::Reply(JsonRpcResponse::ok(id, server_info(package_version)))
    } else if str_eq(m, "initialized") || str_eq(m, "notifications/initialized") || str_eq(
        m,
        "ping",
    ) {
        RpcStep::Reply(JsonRpcResponse::ok(id, ObjectBuilder::new().build()))
    } else if str_eq(m, "tools/list") {
        RpcStep::Reply(JsonRpcResponse::ok(id, tool_listing()))
    } else if str_eq(m, "tools/call") {
        RpcStep::CallTool(id, req.params)
    } else if str_eq(m, "resources/list") {
        RpcStep::Reply(JsonRpcResponse::ok(id, empty_listing("resources")))
    } else if str_eq(m, "prompts/list") {
        RpcStep::Reply(JsonRpcResponse::ok(id, empty_listing("prompts")))
    } else {
        RpcStep::Reply(JsonRpcResponse::err(id, -32601, join2("method not found: ", m)))
    }
}

// ---------------------------------------------------------------------------
// Tool calls
// ---------------------------------------------------------------------------

/// The name of the tool that is called.
pub open spec fn called_tool(params: JsonView) -> Option<Seq<char>> {
    params.text_member("name"@)
}

/// The part of a tool name that names the intent.
pub open spec fn tool_key(name: Seq<char>) -> Option<Seq<char>> {
    match after_prefix(name, "icp_"@) {
        Some(rest) => Some(Intent::key_of("intent."@ + rest)),
        None => None,
    }
}

/// Whether some intent has this key.
pub open spec fn some_intent(key: Seq<char>) -> bool {
    exists|i: Intent| key == #[trigger] i.short_name()
}

/// The agent that calls tools for a tenant.
pub open spec fn tool_agent(tenant: Seq<char>) -> Seq<char> {
    "did:stateset:agent:mcp-"@ + tenant
}

/// Why a tool call is refused: the code and the message.
pub open spec fn tool_call_error(
    params: Option<JsonView>,
    keys: Map<Seq<char>, ApiKeyInfo>,
    authorization: Option<Seq<char>>,
    now: int,
) -> Option<(int, Seq<char>)> {
    match params {
        None => Some((-32602, "tools/call: params required"@)),
        Some(p) => match called_tool(p) {
            None => Some((-32602, "tools/call: params.name required"@)),
            Some(name) => match tool_key(name) {
                None => Some((-32602, "unknown tool: "@ + name)),
                Some(key) => if !some_intent(key) {
                    Some(
                        (
                            -32602,
                            "unknown tool: "@ + ErrorView::IntentNotSupported(
                                "unknown intent `intent."@ + key + "`"@,
                            ).text(),
                        ),
                    )
                } else {
                    match bearer_of(authorization) {
                        None => Some((-32001, "Bearer token required for MCP tool call"@)),
                        Some(token) => if !keys.contains_key(token) {
                            Some((-32001, "unknown API key"@))
                        } else if keys[token].expires_at matches Some(t) && t@ <= now {
                            Some((-32001, "API key expired"@))
                        } else if !permits(keys[token], tool_agent(keys[token].tenant_id@)) {
                            Some(
                                (
                                    -32001,
                                    "agent `"@ + tool_agent(keys[token].tenant_id@)
                                        + "` is not allowed for this API key"@,
                                ),
                            )
                        } else {
                            None
                        },
                    }
                },
            },
        },
    }
}

/// The arguments of a tool call; an empty object when there are none.
pub open spec fn tool_arguments(params: JsonView) -> JsonView {
    match params.member("arguments"@) {
        Some(a) => a,
        None => JsonView::Object(Seq::empty()),
    }
}

/// Whether this is the intent that a tool call raises.
pub open spec fn raised(
    intent: Intent,
    input: IntentInput,
    params: JsonView,
    tenant: ApiKeyInfo,
    request_id: String,
) -> bool {
    let arguments = tool_arguments(params);
    let agent = tool_agent(tenant.tenant_id@);
    &&& called_tool(params) matches Some(name) && tool_key(name) == Some(intent.short_name())
    &&& input.envelope.intent@ == intent.name()
    &&& input.envelope.intent_id is None
    &&& opt_text(input.envelope.transaction_id) == arguments.text_member("transaction_id"@)
    &&& input.envelope.agent_id@ == agent
    &&& input.envelope.mandate_jti is None
    &&& input.envelope.params@ == arguments
    &&& input.envelope.context.locale is None
    &&& opt_text(input.envelope.context.jurisdiction) == arguments.text_member("jurisdiction"@)
    &&& opt_text(input.envelope.context.currency) == arguments.text_member("currency"@)
    &&& input.envelope.context.channel is None
    &&& input.envelope.context.session_hint is None
    &&& input.agent.raw@ == agent
    &&& input.agent.kind == agent_kind(agent)
    &&& input.tenant.same_as(tenant)
    &&& input.mandate_jws is None
    &&& input.request_id == request_id
    &&& input.trace_id is None
    &&& input.skip_mandate_check
}

fn owned(t: Option<&str>) -> (r: Option<String>)
    ensures
        opt_text(r) == opt_view(t),
{
    match t {
        Some(s) => Some(String::from_str(s)),
        None => None,
    }
}

fn read_tool(params: &Json) -> (r: Result<Intent, (i32, String)>)
    ensures
        match r {
            Ok(i) => called_tool(params@) matches Some(name) && tool_key(name) == Some(
                i.short_name(),
            ),
            Err((code, message)) => code == -32602 && match called_tool(params@) {
                None => message@ == "tools/call: params.name required"@,
                Some(name) => match tool_key(name) {
                    None => message@ == "unknown tool: "@ + name,
                    Some(key) => !some_intent(key) && message@ == "unknown tool: "@
                        + ErrorView::IntentNotSupported(
                        "unknown intent `intent."@ + key + "`"@,
                    ).text(),
                },
            },
        },
{
    let name = match params.get_str("name") {
        Some(n) => n,
        None => {
            return Err((-32602, String::from_str("tools/call: params.name required")));
        },
    };
    let rest = match strip_prefix(name, "icp_") {
        Some(rest) => rest,
        None => {
            return Err((-32602, join2("unknown tool: ", name)));
        },
    };
    let wire = join2("intent.", rest);
    match Intent::parse(wire.as_str()) {
        Ok(i) => Ok(i),
        Err(e) => {
            let text = e.to_text();
            Err((-32602, join2("unknown tool: ", text.as_str())))
        },
    }
}

/// Turns a tool call into the intent that it raises. The bearer key of the
/// tenant is the mandate.
pub fn prepare_tool_call(
    params: Option<Json>,
    authorization: Option<&str>,
    keys: &ApiKeyStore,
    now: Timestamp,
    request_id: String,
) -> (r: Result<(Intent, IntentInput), (i32, String)>)
    ensures
        ({
            let error = tool_call_error(
                opt_doc(params),
                keys@,
                opt_view(authorization),
                now@,
            );
            match r {
                Ok((intent, input)) => error is None && raised(
                    intent,
                    input,
                    params->0@,
                    keys@[bearer_of(opt_view(authorization))->0],
                    request_id,
                ),
                Err((code, message)) => error == Some((code as int, message@)),
            }
        }),
{
    let params = match params {
        Some(p) => p,
        None => {
            return Err((-32602, String::from_str("tools/call: params required")));
        },
    };
    let intent = match read_tool(&params) {
        Ok(i) => i,
        Err(e) => {
            return Err(e);
        },
    };
    assert(some_intent(intent.short_name()));
    let arguments = match params.get("arguments") {
        Some(a) => a.copy(),
        None => ObjectBuilder::new().build(),
    };
    let bearer = match authorization {
        Some(v) => strip_prefix(v, "Bearer "),
        None => None,
    };
    let tenant = match bearer {
        None => {
            return Err((-32001, String::from_str("Bearer token required for MCP tool call")));
        },
        Some(token) => match keys.lookup(token) {
            Some(k) => k,
            None => {
                return Err((-32001, String::from_str("unknown API key")));
            },
        },
    };
    if tenant.is_expired_at(now) {
        return Err((-32001, String::from_str("API key expired")));
    }
    let agent_raw = join2("did:stateset:agent:mcp-", tenant.tenant_id.as_str());
    let agent = AgentIdentifier::parse(agent_raw.as_str());
    if !tenant.permits_agent(agent.raw.as_str()) {
        return Err(
            (
                -32001,
                join3("agent `", agent.raw.as_str(), "` is not allowed for this API key"),
            ),
        );
    }
    let mut context = IntentContext::default();
    context.currency = owned(arguments.get_str("currency"));
    context.jurisdiction = owned(arguments.get_str("jurisdiction"));
    let transaction_id = owned(arguments.get_str("transaction_id"));
    let envelope = IntentEnvelope {
        intent: String::from_str(intent.wire_name()),
        intent_id: None,
        transaction_id,
        agent_id: agent.raw.clone(),
        mandate_jti: None,
        params: arguments,
        context,
    };
    Ok((intent, IntentInput::for_compat(envelope, agent, tenant, request_id, None)))
}

/// The result of a tool call: a line of text, and the whole response.
pub open spec fn tool_result(text: Seq<char>, failed: bool, structured: JsonView) -> JsonView {
    JsonView::Object(
        Seq::empty().push(
            (
                "content"@,
                JsonView::Array(
                    Seq::empty().push(
                        JsonView::Object(
                            Seq::empty().push(("type"@, JsonView::Str("text"@))).push(
                                ("text"@, JsonView::Str(text)),
                            ),
                        ),
                    ),
                ),
            ),
        ).push(("isError"@, JsonView::Bool(failed))).push(("structuredContent"@, structured)),
    )
}

fn build_result(text: &str, failed: bool, structured: Json) -> (r: Json)
    ensures
        r@ == tool_result(text@, failed, structured@),
{
    let block = ObjectBuilder::new().put_str("type", "text").put_str("text", text).build();
    ObjectBuilder::new().put("content", ArrayBuilder::new().put(block).build()).put(
        "isError",
        Json::Bool(failed),
    ).put("structuredContent", structured).build()
}

/// The line of text for an executed intent.
pub open spec fn summary(b: IntentResponseBody) -> Seq<char> {
    "intent="@ + b.intent@ + " transaction="@ + b.transaction.id@ + " state="@
        + b.transaction.state.name() + " receipt_jti="@ + b.receipt.jti@
}

/// The result of a tool call whose intent was executed. `structured` is the
/// response as a document.
pub fn tool_success(body: &IntentResponseBody, structured: Json) -> (r: Json)
    ensures
        r@ == tool_result(summary(*body), false, structured@),
{
    let head = join5(
        "intent=",
        body.intent.as_str(),
        " transaction=",
        body.transaction.id.as_str(),
        " state=",
    );
    let text = join5(
        head.as_str(),
        body.transaction.state.wire_name(),
        " receipt_jti=",
        body.receipt.jti.as_str(),
        "",
    );
    proof {
        reveal_strlit("");
        assert(text@ =~= summary(*body));
    }
    build_result(text.as_str(), false, structured)
}

/// The result of a tool call whose intent was refused. `structured` is the error
/// as a document.
pub fn tool_failure(message: &str, structured: Json) -> (r: Json)
    ensures
        r@ == tool_result(message@, true, structured@),
{
    build_result(message, true, structured)
}

// ---------------------------------------------------------------------------
// Laws
// ---------------------------------------------------------------------------

/// Every advertised tool can be called: its name leads back to its intent.
pub proof fn law_tools_are_callable(i: Intent)
    ensures
        tool_key("icp_"@ + i.short_name()) == Some(i.short_name()),
{
    law_parse_inverts_wire_name(i);
    let name = "icp_"@ + i.short_name();
    assert(name.take("icp_"@.len() as int) =~= "icp_"@);
    assert(name.skip("icp_"@.len() as int) =~= i.short_name());
    crate::intent::lemma_name_has_prefix(i);
}

/// A tool call runs for the tenant of its key, and never under a mandate.
pub proof fn law_tool_calls_stay_with_the_tenant(
    intent: Intent,
    input: IntentInput,
    params: JsonView,
    tenant: ApiKeyInfo,
    request_id: String,
)
    requires
        raised(intent, input, params, tenant, request_id),
    ensures
        input.tenant.tenant_id@ == tenant.tenant_id@,
        input.envelope.agent_id@ == input.agent.raw@,
        input.mandate_jws is None,
{
}

/// A request is answered by its method: a handshake, the list of tools, a call that is to be
/// made with the parameters as given, or an error where the method is unknown or the version
/// of the protocol is another.
pub proof fn law_requests_are_answered_by_their_method(
    s: RpcStep,
    req: JsonRpcRequest,
    package_version: Seq<char>,
)
    requires
        dispatched(s, req, package_version),
    ensures
        req.jsonrpc@ != "2.0"@ ==> (s matches RpcStep::Reply(r) && r.error matches Some(e) && e.code
            == -32600),
        req.jsonrpc@ == "2.0"@ && req.method@ == "tools/call"@ ==> (s matches RpcStep::CallTool(
            i,
            p,
        ) && opt_doc(i) == opt_doc(req.id) && opt_doc(p) == opt_doc(req.params)),
        req.jsonrpc@ == "2.0"@ && req.method@ == "tools/list"@ ==> (s matches RpcStep::Reply(r)
            && r.error is None && opt_doc(r.id) == opt_doc(req.id) && opt_doc(r.result) == Some(
            JsonView::Object(
                Seq::empty().push(
                    ("tools"@, JsonView::Array(Intent::all().map_values(|i: Intent| tool(i)))),
                ),
            ),
        )),
        req.jsonrpc@ == "2.0"@ && req.method@ == "initialize"@ ==> (s matches RpcStep::Reply(r)
            && r.error is None && opt_doc(r.id) == opt_doc(req.id) && opt_doc(r.result) == Some(
            server_info_view(package_version),
        )),
        req.jsonrpc@ == "2.0"@ && req.method@ == "ping"@ ==> (s matches RpcStep::Reply(r) && r.error
            is None && opt_doc(r.id) == opt_doc(req.id)),
        req.jsonrpc@ == "2.0"@ && req.method@ != "initialize"@ && req.method@ != "initialized"@
            && req.method@ != "notifications/initialized"@ && req.method@ != "ping"@ && req.method@
            != "tools/list"@ && req.method@ != "tools/call"@ && req.method@ != "resources/list"@
            && req.method@ != "prompts/list"@ ==> (s matches RpcStep::Reply(r)
            && r.error matches Some(e) && e.code == -32601 && opt_doc(r.id) == opt_doc(req.id)),
        s matches RpcStep::CallTool(_, _) ==> req.method@ == "tools/call"@,
{
    reveal_strlit("initialize");
    reveal_strlit("initialized");
    reveal_strlit("notifications/initialized");
    reveal_strlit("ping");
    reveal_strlit("tools/list");
    reveal_strlit("tools/call");
    reveal_strlit("resources/list");
    reveal_strlit("prompts/list");
    assert("initialize"@.len() == 10 && "initialized"@.len() == 11
        && "notifications/initialized"@.len() == 25 && "ping"@.len() == 4 && "tools/list"@.len()
        == 10 && "tools/call"@.len() == 10 && "resources/list"@.len() == 14
        && "prompts/list"@.len() == 12);
    assert("initialize"@[0] == 'i' && "tools/list"@[0] == 't' && "tools/call"@[0] == 't'
        && "tools/list"@[6] == 'l' && "tools/call"@[6] == 'c');
}

/// Each intent is a tool of its own name, with a schema for its parameters.
pub proof fn law_tools_are_named_after_their_intent(i: Intent)
    ensures
        tool(i).member("name"@) == Some(JsonView::Str("icp_"@ + i.short_name())),
        tool(i).member("description"@) == Some(JsonView::Str(description(i))),
        tool(i).member("inputSchema"@) == Some(input_schema(i)),
{
    let m = tool(i)->Object_0;
    reveal_strlit("name");
    reveal_strlit("description");
    reveal_strlit("inputSchema");
    assert("name"@.len() == 4 && "description"@.len() == 11 && "inputSchema"@.len() == 11);
    assert("description"@[0] == 'd' && "inputSchema"@[0] == 'i');
    assert(m[1].0 == "description"@);
    lemma_member_found(m, "name"@, 0, 0);
    lemma_member_found(m, "description"@, 0, 1);
    lemma_member_found(m, "inputSchema"@, 0, 2);
}

/// A tool is called exactly with its name and a live key that permits the agent of its tenant;
/// a call of an unknown tool is an error of its parameters, and one without such a key an error
/// of its caller.
pub proof fn law_tool_calls_need_a_tool_and_a_live_key(
    params: JsonView,
    i: Intent,
    keys: Map<Seq<char>, ApiKeyInfo>,
    authorization: Option<Seq<char>>,
    token: Seq<char>,
    now: int,
)
    requires
        params.text_member("name"@) == Some("icp_"@ + i.short_name()),
        authorization == Some("Bearer "@ + token),
    ensures
        ({
            let error = tool_call_error(Some(params), keys, authorization, now);
            let k = keys[token];
            &&& error is None <==> keys.contains_key(token) && (k.expires_at matches Some(t) ==> now
                < t@) && permits(k, "did:stateset:agent:mcp-"@ + k.tenant_id@)
            &&& error matches Some(e) ==> e.0 == -32001
            &&& tool_call_error(Some(params), keys, None, now) matches Some(e) && e.0 == -32001
            &&& tool_call_error(None, keys, authorization, now) matches Some(e) && e.0 == -32602
        }),
{
    law_tools_are_callable(i);
    let text = "Bearer "@ + token;
    assert(text.take("Bearer "@.len() as int) =~= "Bearer "@);
    assert(text.skip("Bearer "@.len() as int) =~= token);
    assert(some_intent(i.short_name()));
}

/// What a tool call raises is the intent of the tool, with its arguments as they are, and the
/// transaction, place and currency that they name.
pub proof fn law_tool_calls_are_raised_as_given(
    intent: Intent,
    input: IntentInput,
    params: JsonView,
    tenant: ApiKeyInfo,
    request_id: String,
)
    requires
        raised(intent, input, params, tenant, request_id),
    ensures
        ({
            let arguments = match params.member("arguments"@) {
                Some(a) => a,
                None => JsonView::Object(Seq::empty()),
            };
            &&& input.envelope.intent@ == intent.name() && input.envelope.params@ == arguments
            &&& opt_text(input.envelope.transaction_id) == arguments.text_member(
                "transaction_id"@,
            )
            &&& opt_text(input.envelope.context.jurisdiction) == arguments.text_member(
                "jurisdiction"@,
            )
            &&& opt_text(input.envelope.context.currency) == arguments.text_member("currency"@)
            &&& input.request_id == request_id && input.trace_id is None
            &&& input.mandate_jws is None && input.skip_mandate_check
                && input.envelope.intent_id is None
            &&& input.agent.raw@ == "did:stateset:agent:mcp-"@ + tenant.tenant_id@
        }),
{
}

/// The result of a tool says whether it failed, in words and as a document.
pub proof fn law_tool_results_say_what_happened(
    text: Seq<char>,
    failed: bool,
    structured: JsonView,
)
    ensures
        tool_result(text, failed, structured).member("isError"@) == Some(JsonView::Bool(failed)),
        tool_result(text, failed, structured).member("structuredContent"@) == Some(structured),
        tool_result(text, failed, structured).member("content"@) matches Some(JsonView::Array(c))
            && c.len() == 1 && c[0].member("text"@) == Some(JsonView::Str(text)) && c[0].member(
            "type"@,
        ) == Some(JsonView::Str("text"@)),
{
    let m = tool_result(text, failed, structured)->Object_0;
    reveal_strlit("content");
    reveal_strlit("isError");
    reveal_strlit("structuredContent");
    reveal_strlit("type");
    reveal_strlit("text");
    assert("content"@.len() == 7 && "isError"@.len() == 7 && "structuredContent"@.len() == 17);
    assert("content"@[0] == 'c' && "isError"@[0] == 'i');
    assert("type"@[1] == 'y' && "text"@[1] == 'e');
    lemma_member_found(m, "content"@, 0, 0);
    lemma_member_found(m, "isError"@, 0, 1);
    lemma_member_found(m, "structuredContent"@, 0, 2);
    let c = m[0].1->Array_0;
    let inner = c[0]->Object_0;
    assert(inner[0].0 == "type"@ && inner[1].0 == "text"@);
    lemma_member_found(inner, "type"@, 0, 0);
    lemma_member_found(inner, "text"@, 0, 1);
}

} // verus!
