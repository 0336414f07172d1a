//! Configuration of the handler.
//!
//! Every setting comes from an environment variable. The defaults suit local
//! development.

use vstd::prelude::*;

use crate::constants::{DEFAULT_TRANSACTION_TTL_SECS, ICP_VERSION};
use crate::numerals::{
    digits_value, in_bounds, is_digits, lemma_nat_text_round_trip, nat_text, parse_nat,
    parsed_nat,
};
use crate::table::Table;
use crate::text::{
    ascii_lower, eq_ignoring_case, join2, law_parts_are_split_one_by_one,
    lemma_trimmed_of_visible, lowercase, opt_text, split, split_all, str_eq, string_views,
    to_lowercase, trim, trimmed, views,
};

verus! {

/// The settings of a handler.
#[derive(Debug)]
pub struct Config {
    /// Address of the HTTP listener.
    pub host: String,
    /// Port of the HTTP listener.
    pub port: u16,
    /// Address of the gRPC listener.
    pub grpc_host: String,
    /// Port of the gRPC listener.
    pub grpc_port: u16,
    /// Protocol version that is advertised.
    pub icp_version: String,
    pub require_icp_version: bool,
    /// Refuse scoped intents without a mandate.
    pub require_mandate: bool,
    pub require_request_id: bool,
    pub require_idempotency_key: bool,
    /// Check mandate signatures against the keys of the principal. Off only for
    /// local development.
    pub verify_mandate_signatures: bool,
    pub public_base_url: String,
    pub handler_id: String,
    pub service_name: String,
    /// PEM text of the receipt signing key; a key for the process when absent.
    pub signing_key_pem_env: Option<String>,
    pub signing_kid: String,
    pub allow_insecure_urls: bool,
    pub cors_allow_origins: Vec<String>,
    pub api_keys_json: Option<String>,
    pub api_keys_file: Option<String>,
    /// Bundle the demonstration key on boot.
    pub enable_demo_keys: bool,
    pub commerce_enabled: bool,
    pub commerce_db_path: String,
    pub transaction_ttl_secs: u64,
    /// Database of the protocol state, apart from that of the commerce engine.
    pub state_db_path: String,
    pub redis_url: Option<String>,
    pub webhook_url: Option<String>,
    pub webhook_secret: Option<String>,
    pub a2a_enabled: bool,
    pub mcp_enabled: bool,
    pub acp_compat_enabled: bool,
    pub ucp_compat_enabled: bool,
    pub rate_limit_per_minute: u32,
    pub pre_auth_rate_limit_per_minute: u32,
    pub subscription_scheduler_enabled: bool,
    pub subscription_scheduler_interval_secs: u64,
    /// Hours to wait after each failed renewal. When the schedule is used up the
    /// subscription becomes past due; without a schedule renewals are retried on
    /// every tick.
    pub subscription_dunning_schedule_hours: Vec<u32>,
    pub log_level: String,
    /// How charges are settled; `external_required` accepts only funds that
    /// were authorized elsewhere.
    pub payment_execution_mode: String,
    /// Whether this is a production deployment, which fails closed.
    pub production: bool,
}

// ---------------------------------------------------------------------------
// Reading values
// ---------------------------------------------------------------------------

/// The value of a variable, when it is set.
pub open spec fn variable(env: Map<Seq<char>, String>, key: Seq<char>) -> Option<Seq<char>> {
    if env.contains_key(key) {
        Some(env[key]@)
    } else {
        None
    }
}

/// The value of a variable, or a default.
pub open spec fn setting(env: Map<Seq<char>, String>, key: Seq<char>, other: Seq<char>) -> Seq<char> {
    match variable(env, key) {
        Some(v) => v,
        None => other,
    }
}

/// Whether the text says yes: `1`, `true`, `yes` or `on`, in any case.
pub open spec fn says_yes(v: Seq<char>) -> bool {
    let low = lowercase(v);
    low == "1"@ || low == "true"@ || low == "yes"@ || low == "on"@
}

/// The value of a switch, or a default.
pub open spec fn switch(env: Map<Seq<char>, String>, key: Seq<char>, other: bool) -> bool {
    match variable(env, key) {
        Some(v) => says_yes(v),
        None => other,
    }
}

/// A number of at most `cap`, or a default when the text is none.
pub open spec fn number_or(v: Seq<char>, cap: int, other: int) -> int {
    match in_bounds(parsed_nat(v), 0, cap) {
        Some(n) => n,
        None => other,
    }
}

/// The non-blank entries of a list, without surrounding white space.
pub open spec fn list_entries(parts: Seq<Seq<char>>) -> Seq<Seq<char>>
    decreases parts.len(),
{
    if parts.len() == 0 {
        Seq::empty()
    } else {
        let before = list_entries(parts.drop_last());
        let entry = trimmed(parts.last());
        if entry.len() == 0 {
            before
        } else {
            before.push(entry)
        }
    }
}

/// The entries of a list that are numbers of hours between one hour and a year.
pub open spec fn schedule_hours(parts: Seq<Seq<char>>) -> Seq<u32>
    decreases parts.len(),
{
    if parts.len() == 0 {
        Seq::empty()
    } else {
        let before = schedule_hours(parts.drop_last());
        match in_bounds(parsed_nat(trimmed(parts.last())), 1, 8760) {
            Some(n) => before.push(n as u32),
            None => before,
        }
    }
}

/// The message of `u16::from_str` for a text that is no port number.
pub uninterp spec fn port_error(text: Seq<char>) -> Seq<char>;

/// `<u16 as std::str::FromStr>::from_str`: the number that a numeral up to 65535
/// stands for, and for any other text a message that depends on the text alone.
#[verifier::external_body]
fn parse_port(text: &str) -> (r: Result<u16, String>)
    ensures
        match r {
            Ok(n) => parsed_nat(text@) == Some(n as int),
            Err(m) => in_bounds(parsed_nat(text@), 0, 65535) is None && m@ == port_error(text@),
        },
{
    text.parse::<u16>().map_err(|e| e.to_string())
}

fn env_default(env: &Table<String>, key: &str, other: &str) -> (r: String)
    ensures
        r@ == setting(env@, key@, other@),
{
    match env.get(key) {
        Some(v) => v.clone(),
        None => String::from_str(other),
    }
}

fn env_opt(env: &Table<String>, key: &str) -> (r: Option<String>)
    ensures
        opt_text(r) == variable(env@, key@),
{
    match env.get(key) {
        Some(v) => Some(v.clone()),
        None => None,
    }
}

fn env_bool(env: &Table<String>, key: &str, other: bool) -> (r: bool)
    ensures
        r == switch(env@, key@, other),
{
    match env.get(key) {
        Some(v) => {
            let low = to_lowercase(v.as_str());
            let low = low.as_str();
            str_eq(low, "1") || str_eq(low, "true") || str_eq(low, "yes") || str_eq(low, "on")
        },
        None => other,
    }
}

fn number_or_default(text: &str, cap: u64, other: u64) -> (r: u64)
    requires
        other <= cap,
    ensures
        r == number_or(text@, cap as int, other as int),
        r <= cap,
{
    match parse_nat(text, cap) {
        Some(n) => n,
        None => other,
    }
}

/// Reads a comma-separated schedule of hours. Entries that are no number between
/// 1 and 8760 are dropped.
pub fn parse_dunning_schedule(s: &str) -> (r: Vec<u32>)
    ensures
        r@ == schedule_hours(split_all(s@, ',')),
{
    let parts = split(s, ',');
    let mut out: Vec<u32> = Vec::new();
    let mut i: usize = 0;
    assert(views(parts@.take(0)) =~= Seq::<Seq<char>>::empty());
    while i < parts.len()
        invariant
            i <= parts@.len(),
            out@ == schedule_hours(views(parts@.take(i as int))),
        decreases parts@.len() - i,
    {
        let ghost upto = views(parts@.take(i as int + 1));
        assert(upto.drop_last() =~= views(parts@.take(i as int)));
        assert(upto.last() == parts@[i as int]@);
        let entry = trim(parts[i]);
        match parse_nat(entry, 8760) {
            Some(n) => {
                if n >= 1 {
                    out.push(n as u32);
                }
            },
            None => {},
        }
        i += 1;
    }
    assert(parts@.take(parts@.len() as int) =~= parts@);
    out
}

/// Reads a comma-separated list. Entries are trimmed and blank ones are dropped.
pub fn split_csv(s: &str) -> (r: Vec<String>)
    ensures
        string_views(r@) == list_entries(split_all(s@, ',')),
{
    let parts = split(s, ',');
    let mut out: Vec<String> = Vec::new();
    let mut i: usize = 0;
    assert(views(parts@.take(0)) =~= Seq::<Seq<char>>::empty());
    assert(string_views(out@) =~= Seq::<Seq<char>>::empty());
    while i < parts.len()
        invariant
            i <= parts@.len(),
            string_views(out@) == list_entries(views(parts@.take(i as int))),
        decreases parts@.len() - i,
    {
        let ghost upto = views(parts@.take(i as int + 1));
        assert(upto.drop_last() =~= views(parts@.take(i as int)));
        assert(upto.last() == parts@[i as int]@);
        let entry = trim(parts[i]);
        if !entry.is_empty() {
            let ghost before = out@;
            out.push(String::from_str(entry));
            assert(string_views(out@) =~= string_views(before).push(entry@));
        }
        i += 1;
    }
    assert(parts@.take(parts@.len() as int) =~= parts@);
    out
}

// ---------------------------------------------------------------------------
// The configuration
// ---------------------------------------------------------------------------

impl Config {
    /// Whether this is the configuration that the environment describes.
    pub open spec fn reads(self, env: Map<Seq<char>, String>) -> bool {
        &&& self.host@ == setting(env, "HOST"@, "0.0.0.0"@)
        &&& parsed_nat(setting(env, "PORT"@, "8082"@)) == Some(self.port as int)
        &&& self.grpc_host@ == setting(env, "GRPC_HOST"@, self.host@)
        &&& parsed_nat(setting(env, "GRPC_PORT"@, "50052"@)) == Some(self.grpc_port as int)
        &&& self.icp_version@ == setting(env, "ICP_VERSION"@, ICP_VERSION@)
        &&& self.require_icp_version == switch(env, "ICP_REQUIRE_VERSION"@, true)
        &&& self.require_mandate == switch(env, "ICP_REQUIRE_MANDATE"@, true)
        &&& self.require_request_id == switch(env, "ICP_REQUIRE_REQUEST_ID"@, false)
        &&& self.require_idempotency_key == switch(env, "ICP_REQUIRE_IDEMPOTENCY_KEY"@, false)
        &&& self.verify_mandate_signatures == switch(env, "ICP_VERIFY_MANDATE_SIGNATURES"@, true)
        &&& self.public_base_url@ == setting(env, "ICP_PUBLIC_BASE_URL"@, "http://127.0.0.1:8082"@)
        &&& self.handler_id@ == setting(env, "ICP_HANDLER_ID"@, "icp://localhost"@)
        &&& self.service_name@ == setting(env, "ICP_SERVICE_NAME"@, "StateSet ICP Handler"@)
        &&& opt_text(self.signing_key_pem_env) == variable(env, "ICP_SIGNING_KEY_PEM"@)
        &&& self.signing_kid@ == setting(env, "ICP_SIGNING_KID"@, "icp-receipt-2026-04"@)
        &&& self.allow_insecure_urls == switch(env, "ICP_ALLOW_INSECURE_URLS"@, true)
        &&& string_views(self.cors_allow_origins@) == list_entries(
            split_all(setting(env, "ICP_CORS_ALLOW_ORIGINS"@, "*"@), ','),
        )
        &&& opt_text(self.api_keys_json) == variable(env, "ICP_API_KEYS_JSON"@)
        &&& opt_text(self.api_keys_file) == variable(env, "ICP_API_KEYS_FILE"@)
        &&& self.enable_demo_keys == switch(env, "ICP_ENABLE_DEMO_KEYS"@, false)
        &&& self.commerce_enabled == switch(env, "COMMERCE_ENABLED"@, true)
        &&& self.commerce_db_path@ == setting(env, "COMMERCE_DB_PATH"@, "./commerce.db"@)
        &&& self.transaction_ttl_secs == number_or(
            setting(env, "ICP_TRANSACTION_TTL_SECONDS"@, ""@),
            u64::MAX as int,
            DEFAULT_TRANSACTION_TTL_SECS as int,
        )
        &&& self.state_db_path@ == setting(env, "ICP_STATE_DB_PATH"@, "./icp-state.db"@)
        &&& opt_text(self.redis_url) == variable(env, "REDIS_URL"@)
        &&& opt_text(self.webhook_url) == variable(env, "ICP_WEBHOOK_URL"@)
        &&& opt_text(self.webhook_secret) == variable(env, "ICP_WEBHOOK_SECRET"@)
        &&& self.a2a_enabled == switch(env, "ICP_A2A_ENABLED"@, true)
        &&& self.mcp_enabled == switch(env, "ICP_MCP_ENABLED"@, true)
        &&& self.acp_compat_enabled == switch(env, "ICP_ACP_COMPAT_ENABLED"@, true)
        &&& self.ucp_compat_enabled == switch(env, "ICP_UCP_COMPAT_ENABLED"@, true)
        &&& self.rate_limit_per_minute == number_or(
            setting(env, "ICP_RATE_LIMIT_PER_MINUTE"@, "300"@),
            u32::MAX as int,
            300 as int,
        )
        &&& self.pre_auth_rate_limit_per_minute == number_or(
            setting(env, "ICP_PRE_AUTH_RATE_LIMIT_PER_MINUTE"@, "120"@),
            u32::MAX as int,
            120 as int,
        )
        &&& self.subscription_scheduler_enabled == switch(env, "ICP_SUBSCRIPTION_SCHEDULER_ENABLED"@, true)
        &&& self.subscription_scheduler_interval_secs == number_or(
            setting(env, "ICP_SUBSCRIPTION_SCHEDULER_INTERVAL_SECS"@, "60"@),
            u64::MAX as int,
            60 as int,
        )
        &&& self.subscription_dunning_schedule_hours@ == schedule_hours(
            split_all(setting(env, "ICP_SUBSCRIPTION_DUNNING_SCHEDULE_HOURS"@, "1,6,24"@), ','),
        )
        &&& self.log_level@ == setting(env, "LOG_LEVEL"@, "info"@)
        &&& self.payment_execution_mode@.len() == 0
        &&& !self.production
    }

    /// The configuration that the environment describes. Only a port that is no
    /// number is refused.
    pub fn load(env: &Table<String>) -> (r: Result<Config, String>)
        ensures
            ({
                let port = setting(env@, "PORT"@, "8082"@);
                let grpc_port = setting(env@, "GRPC_PORT"@, "50052"@);
                match r {
                    Ok(c) => c.reads(env@),
                    Err(m) => if in_bounds(parsed_nat(port), 0, 65535) is None {
                        m@ == "invalid PORT: "@ + port_error(port)
                    } else {
                        in_bounds(parsed_nat(grpc_port), 0, 65535) is None && m@
                            == "invalid GRPC_PORT: "@ + port_error(grpc_port)
                    },
                }
            }),
    {
        let host = env_default(env, "HOST", "0.0.0.0");
        let port_text = env_default(env, "PORT", "8082");
        let port: u16 = match parse_port(port_text.as_str()) {
            Ok(n) => n,
            Err(m) => {
                return Err(join2("invalid PORT: ", m.as_str()));
            },
        };
        let grpc_host = env_default(env, "GRPC_HOST", host.as_str());
        let grpc_port_text = env_default(env, "GRPC_PORT", "50052");
        let grpc_port: u16 = match parse_port(grpc_port_text.as_str()) {
            Ok(n) => n,
            Err(m) => {
                return Err(join2("invalid GRPC_PORT: ", m.as_str()));
            },
        };
        let transaction_ttl_secs_text = env_default(env, "ICP_TRANSACTION_TTL_SECONDS", "");
        let rate_limit_per_minute_text = env_default(env, "ICP_RATE_LIMIT_PER_MINUTE", "300");
        let pre_auth_rate_limit_per_minute_text = env_default(env, "ICP_PRE_AUTH_RATE_LIMIT_PER_MINUTE", "120");
        let subscription_scheduler_interval_secs_text = env_default(env, "ICP_SUBSCRIPTION_SCHEDULER_INTERVAL_SECS", "60");
        let origins = env_default(env, "ICP_CORS_ALLOW_ORIGINS", "*");
        let schedule = env_default(env, "ICP_SUBSCRIPTION_DUNNING_SCHEDULE_HOURS", "1,6,24");
        Ok(
            Config {
                host,
                port,
                grpc_host,
                grpc_port,
                icp_version: env_default(env, "ICP_VERSION", ICP_VERSION),
                require_icp_version: env_bool(env, "ICP_REQUIRE_VERSION", true),
                require_mandate: env_bool(env, "ICP_REQUIRE_MANDATE", true),
                require_request_id: env_bool(env, "ICP_REQUIRE_REQUEST_ID", false),
                require_idempotency_key: env_bool(env, "ICP_REQUIRE_IDEMPOTENCY_KEY", false),
                verify_mandate_signatures: env_bool(env, "ICP_VERIFY_MANDATE_SIGNATURES", true),
                public_base_url: env_default(env, "ICP_PUBLIC_BASE_URL", "http://127.0.0.1:8082"),
                handler_id: env_default(env, "ICP_HANDLER_ID", "icp://localhost"),
                service_name: env_default(env, "ICP_SERVICE_NAME", "StateSet ICP Handler"),
                signing_key_pem_env: env_opt(env, "ICP_SIGNING_KEY_PEM"),
                signing_kid: env_default(env, "ICP_SIGNING_KID", "icp-receipt-2026-04"),
                allow_insecure_urls: env_bool(env, "ICP_ALLOW_INSECURE_URLS", true),
                cors_allow_origins: split_csv(origins.as_str()),
                api_keys_json: env_opt(env, "ICP_API_KEYS_JSON"),
                api_keys_file: env_opt(env, "ICP_API_KEYS_FILE"),
                enable_demo_keys: env_bool(env, "ICP_ENABLE_DEMO_KEYS", false),
                commerce_enabled: env_bool(env, "COMMERCE_ENABLED", true),
                commerce_db_path: env_default(env, "COMMERCE_DB_PATH", "./commerce.db"),
                transaction_ttl_secs: number_or_default(
                    transaction_ttl_secs_text.as_str(),
                    u64::MAX,
                    DEFAULT_TRANSACTION_TTL_SECS,
                ),
                state_db_path: env_default(env, "ICP_STATE_DB_PATH", "./icp-state.db"),
                redis_url: env_opt(env, "REDIS_URL"),
                webhook_url: env_opt(env, "ICP_WEBHOOK_URL"),
                webhook_secret: env_opt(env, "ICP_WEBHOOK_SECRET"),
                a2a_enabled: env_bool(env, "ICP_A2A_ENABLED", true),
                mcp_enabled: env_bool(env, "ICP_MCP_ENABLED", true),
                acp_compat_enabled: env_bool(env, "ICP_ACP_COMPAT_ENABLED", true),
                ucp_compat_enabled: env_bool(env, "ICP_UCP_COMPAT_ENABLED", true),
                rate_limit_per_minute: number_or_default(
                    rate_limit_per_minute_text.as_str(),
                    u32::MAX as u64,
                    300,
                ) as u32,
                pre_auth_rate_limit_per_minute: number_or_default(
                    pre_auth_rate_limit_per_minute_text.as_str(),
                    u32::MAX as u64,
                    120,
                ) as u32,
                subscription_scheduler_enabled: env_bool(env, "ICP_SUBSCRIPTION_SCHEDULER_ENABLED", true),
                subscription_scheduler_interval_secs: number_or_default(
                    subscription_scheduler_interval_secs_text.as_str(),
                    u64::MAX,
                    60,
                ),
                subscription_dunning_schedule_hours: parse_dunning_schedule(schedule.as_str()),
                log_level: env_default(env, "LOG_LEVEL", "info"),
                payment_execution_mode: String::new(),
                production: false,
            },
        )
    }

    /// A configuration for tests: independent of the environment, in memory, with
    /// the demonstration key and without mandatory mandates.
    pub fn for_test() -> (r: Config)
        ensures
            r.host@ == "127.0.0.1"@,
            r.port == 0,
            r.grpc_host@ == "127.0.0.1"@,
            r.grpc_port == 0,
            r.icp_version@ == ICP_VERSION@,
            !r.require_icp_version,
            !r.require_mandate,
            !r.require_request_id,
            !r.require_idempotency_key,
            !r.verify_mandate_signatures,
            r.public_base_url@ == "http://127.0.0.1"@,
            r.handler_id@ == "icp://test"@,
            r.service_name@ == "ICP Test"@,
            r.signing_key_pem_env is None,
            r.signing_kid@ == "icp-test-key"@,
            r.allow_insecure_urls,
            string_views(r.cors_allow_origins@) == seq!["*"@],
            r.api_keys_json is None,
            r.api_keys_file is None,
            r.enable_demo_keys,
            !r.commerce_enabled,
            r.commerce_db_path@ == ":memory:"@,
            r.transaction_ttl_secs == DEFAULT_TRANSACTION_TTL_SECS,
            r.state_db_path@ == ":memory:"@,
            r.redis_url is None,
            r.webhook_url is None,
            r.webhook_secret is None,
            r.a2a_enabled,
            r.mcp_enabled,
            r.acp_compat_enabled,
            r.ucp_compat_enabled,
            r.rate_limit_per_minute == 10_000,
            r.pre_auth_rate_limit_per_minute == 10_000,
            !r.subscription_scheduler_enabled,
            r.subscription_scheduler_interval_secs == 60,
            r.subscription_dunning_schedule_hours@.len() == 0,
            r.log_level@ == "warn"@,
            r.payment_execution_mode@.len() == 0,
            !r.production,
    {
        let origins = vec![String::from_str("*")];
        assert(string_views(origins@) =~= seq!["*"@]);
        Config {
            host: String::from_str("127.0.0.1"),
            port: 0,
            grpc_host: String::from_str("127.0.0.1"),
            grpc_port: 0,
            icp_version: String::from_str(ICP_VERSION),
            require_icp_version: false,
            require_mandate: false,
            require_request_id: false,
            require_idempotency_key: false,
            verify_mandate_signatures: false,
            public_base_url: String::from_str("http://127.0.0.1"),
            handler_id: String::from_str("icp://test"),
            service_name: String::from_str("ICP Test"),
            signing_key_pem_env: None,
            signing_kid: String::from_str("icp-test-key"),
            allow_insecure_urls: true,
            cors_allow_origins: origins,
            api_keys_json: None,
            api_keys_file: None,
            enable_demo_keys: true,
            commerce_enabled: false,
            commerce_db_path: String::from_str(":memory:"),
            transaction_ttl_secs: DEFAULT_TRANSACTION_TTL_SECS,
            state_db_path: String::from_str(":memory:"),
            redis_url: None,
            webhook_url: None,
            webhook_secret: None,
            a2a_enabled: true,
            mcp_enabled: true,
            acp_compat_enabled: true,
            ucp_compat_enabled: true,
            rate_limit_per_minute: 10_000,
            pre_auth_rate_limit_per_minute: 10_000,
            subscription_scheduler_enabled: false,
            subscription_scheduler_interval_secs: 60,
            subscription_dunning_schedule_hours: Vec::new(),
            log_level: String::from_str("warn"),
            payment_execution_mode: String::new(),
            production: false,
        }
    }

    /// Whether this is a production deployment.
    pub fn is_production(&self) -> (r: bool)
        ensures
            r == self.production,
    {
        self.production
    }
}

// ---------------------------------------------------------------------------
// Laws
// ---------------------------------------------------------------------------

/// A switch is on for `1`, `true`, `yes` and `on`, in whatever case, and off for anything else
/// that is said; where nothing is said it is as it was meant.
pub proof fn law_switches_are_on_for_a_yes(
    env: Map<Seq<char>, String>,
    key: Seq<char>,
    other: bool,
)
    ensures
        !env.contains_key(key) ==> switch(env, key, other) == other,
        env.contains_key(key) ==> (switch(env, key, other) <==> eq_ignoring_case(env[key]@, "1"@)
            || eq_ignoring_case(env[key]@, "true"@) || eq_ignoring_case(env[key]@, "yes"@)
            || eq_ignoring_case(env[key]@, "on"@)),
{
    if env.contains_key(key) {
        let v = env[key]@;
        reveal_strlit("1");
        reveal_strlit("true");
        reveal_strlit("yes");
        reveal_strlit("on");
        lemma_lower_is(v, "1"@);
        lemma_lower_is(v, "true"@);
        lemma_lower_is(v, "yes"@);
        lemma_lower_is(v, "on"@);
    }
}

proof fn lemma_lower_is(v: Seq<char>, low: Seq<char>)
    requires
        forall|i: int| 0 <= i < low.len() ==> ascii_lower(#[trigger] low[i]) == low[i],
    ensures
        lowercase(v) == low <==> eq_ignoring_case(v, low),
{
    if lowercase(v) == low {
        assert(v.len() == low.len());
        assert forall|i: int| 0 <= i < v.len() implies ascii_lower(#[trigger] v[i]) == ascii_lower(
            low[i],
        ) by {
            assert(lowercase(v)[i] == low[i]);
        }
    }
    if eq_ignoring_case(v, low) {
        assert forall|i: int| 0 <= i < v.len() implies lowercase(v)[i] == low[i] by {
            assert(ascii_lower(v[i]) == ascii_lower(low[i]));
        }
        assert(lowercase(v) =~= low);
    }
}

/// A setting is what the environment says, and what was meant where it says nothing.
pub proof fn law_settings_are_read_from_the_environment(
    env: Map<Seq<char>, String>,
    key: Seq<char>,
    other: Seq<char>,
)
    ensures
        env.contains_key(key) ==> setting(env, key, other) == env[key]@ && variable(env, key)
            == Some(env[key]@),
        !env.contains_key(key) ==> setting(env, key, other) == other && variable(env, key) is None,
{
}

/// A number is what the text says, where it says one that can be held, and what was meant
/// otherwise.
pub proof fn law_numbers_are_read_or_replaced(n: nat, cap: int, other: int)
    ensures
        n <= cap ==> number_or(nat_text(n), cap, other) == n,
        n > cap ==> number_or(nat_text(n), cap, other) == other,
        number_or(Seq::empty(), cap, other) == other,
{
    lemma_nat_text_round_trip(n);
}

/// The entries of a list are its parts without the white space around them; empty ones do not
/// count.
pub proof fn law_lists_hold_their_entries(parts: Seq<Seq<char>>, part: Seq<char>)
    ensures
        list_entries(Seq::empty()) == Seq::<Seq<char>>::empty(),
        trimmed(part).len() > 0 ==> list_entries(parts.push(part)) == list_entries(parts).push(
            trimmed(part),
        ),
        trimmed(part).len() == 0 ==> list_entries(parts.push(part)) == list_entries(parts),
{
    assert(parts.push(part).drop_last() =~= parts);
}

/// The schedule of retries holds the hours of its parts in order: from one to those of a year;
/// other parts do not count.
pub proof fn law_schedules_hold_their_hours(parts: Seq<Seq<char>>, part: Seq<char>)
    ensures
        schedule_hours(Seq::empty()) == Seq::<u32>::empty(),
        (parsed_nat(trimmed(part)) matches Some(n) && 1 <= n <= 8760) ==> schedule_hours(
            parts.push(part),
        ) == schedule_hours(parts).push(parsed_nat(trimmed(part))->0 as u32),
        !(parsed_nat(trimmed(part)) matches Some(n) && 1 <= n <= 8760) ==> schedule_hours(
            parts.push(part),
        ) == schedule_hours(parts),
{
    assert(parts.push(part).drop_last() =~= parts);
}

proof fn lemma_one_more_digit(s: Seq<char>, c: char)
    requires
        '0' <= c <= '9',
        s.len() == 0 || is_digits(s),
    ensures
        is_digits(s.push(c)),
        digits_value(s.push(c)) == digits_value(s) * 10 + (c as u32 - '0' as u32),
        digits_value(Seq::empty()) == 0,
        parsed_nat(s.push(c)) == Some(digits_value(s.push(c))),
{
    let t = s.push(c);
    assert(t.drop_last() =~= s);
    assert forall|i: int| 0 <= i < t.len() implies '0' <= #[trigger] t[i] <= '9' by {
        if i < s.len() {
            assert(t[i] == s[i]);
        }
    }
}

/// Without an environment a deployment is a careful one: it insists on versions, mandates and
/// their signatures, serves every protocol, limits its callers, and has no keys for a demo.
pub proof fn law_defaults_are_careful(c: Config)
    requires
        c.reads(Map::empty()),
    ensures
        c.require_icp_version && c.require_mandate && c.verify_mandate_signatures,
        !c.require_request_id && !c.require_idempotency_key && !c.enable_demo_keys && !c.production,
        c.commerce_enabled && c.a2a_enabled && c.mcp_enabled && c.acp_compat_enabled
            && c.ucp_compat_enabled && c.subscription_scheduler_enabled,
        c.host@ == "0.0.0.0"@ && c.grpc_host@ == "0.0.0.0"@ && c.icp_version@ == ICP_VERSION@
            && c.public_base_url@ == "http://127.0.0.1:8082"@ && c.signing_kid@
            == "icp-receipt-2026-04"@ && c.state_db_path@ == "./icp-state.db"@
            && c.commerce_db_path@ == "./commerce.db"@,
        c.port == 8082 && c.grpc_port == 50052,
        c.rate_limit_per_minute == 300 && c.pre_auth_rate_limit_per_minute == 120
            && c.subscription_scheduler_interval_secs == 60,
        c.api_keys_json is None && c.api_keys_file is None && c.redis_url is None && c.webhook_url
            is None && c.webhook_secret is None && c.signing_key_pem_env is None,
        c.subscription_dunning_schedule_hours@ =~= seq![1u32, 6u32, 24u32],
{
    let none = Seq::<char>::empty();
    reveal_strlit("8082");
    lemma_one_more_digit(none, '8');
    lemma_one_more_digit(none.push('8'), '0');
    lemma_one_more_digit(none.push('8').push('0'), '8');
    lemma_one_more_digit(none.push('8').push('0').push('8'), '2');
    assert("8082"@ =~= none.push('8').push('0').push('8').push('2'));
    reveal_strlit("50052");
    lemma_one_more_digit(none, '5');
    lemma_one_more_digit(none.push('5'), '0');
    lemma_one_more_digit(none.push('5').push('0'), '0');
    lemma_one_more_digit(none.push('5').push('0').push('0'), '5');
    lemma_one_more_digit(none.push('5').push('0').push('0').push('5'), '2');
    assert("50052"@ =~= none.push('5').push('0').push('0').push('5').push('2'));
    reveal_strlit("300");
    lemma_one_more_digit(none, '3');
    lemma_one_more_digit(none.push('3'), '0');
    lemma_one_more_digit(none.push('3').push('0'), '0');
    assert("300"@ =~= none.push('3').push('0').push('0'));
    reveal_strlit("120");
    lemma_one_more_digit(none, '1');
    lemma_one_more_digit(none.push('1'), '2');
    lemma_one_more_digit(none.push('1').push('2'), '0');
    assert("120"@ =~= none.push('1').push('2').push('0'));
    reveal_strlit("60");
    lemma_one_more_digit(none, '6');
    lemma_one_more_digit(none.push('6'), '0');
    assert("60"@ =~= none.push('6').push('0'));
    reveal_strlit("1,6,24");
    let one = seq!['1'];
    let six = seq!['6'];
    let more = seq!['2', '4'];
    assert("1,6,24"@ =~= one + seq![','] + (six + seq![','] + more));
    law_parts_are_split_one_by_one(one, ',', six + seq![','] + more);
    law_parts_are_split_one_by_one(six, ',', more);
    law_parts_are_split_one_by_one(more, ',', one);
    let parts = split_all("1,6,24"@, ',');
    assert(parts =~= Seq::empty().push(one).push(six).push(more));
    lemma_trimmed_of_visible(one);
    lemma_trimmed_of_visible(six);
    lemma_trimmed_of_visible(more);
    lemma_one_more_digit(none, '1');
    lemma_one_more_digit(none, '6');
    lemma_one_more_digit(none, '2');
    lemma_one_more_digit(none.push('2'), '4');
    assert(one =~= none.push('1') && six =~= none.push('6') && more =~= none.push('2').push('4'));
    assert(parsed_nat(one) == Some(1int) && parsed_nat(six) == Some(6int) && parsed_nat(more)
        == Some(24int));
    law_schedules_hold_their_hours(Seq::empty(), one);
    law_schedules_hold_their_hours(Seq::empty().push(one), six);
    law_schedules_hold_their_hours(Seq::empty().push(one).push(six), more);
}

/// Each setting is read from its own variable.
pub proof fn law_variables_are_read_into_their_setting(env: Map<Seq<char>, String>, c: Config)
    requires
        c.reads(env),
    ensures
        env.contains_key("HOST"@) ==> c.host@ == env["HOST"@]@,
        env.contains_key("PORT"@) ==> parsed_nat(env["PORT"@]@) == Some(c.port as int),
        env.contains_key("GRPC_HOST"@) ==> c.grpc_host@ == env["GRPC_HOST"@]@,
        env.contains_key("GRPC_PORT"@)
            ==> parsed_nat(env["GRPC_PORT"@]@) == Some(c.grpc_port as int),
        env.contains_key("ICP_VERSION"@) ==> c.icp_version@ == env["ICP_VERSION"@]@,
        env.contains_key("ICP_REQUIRE_VERSION"@)
            ==> c.require_icp_version == says_yes(env["ICP_REQUIRE_VERSION"@]@),
        !env.contains_key("ICP_REQUIRE_VERSION"@) ==> c.require_icp_version == true,
        env.contains_key("ICP_REQUIRE_MANDATE"@)
            ==> c.require_mandate == says_yes(env["ICP_REQUIRE_MANDATE"@]@),
        !env.contains_key("ICP_REQUIRE_MANDATE"@) ==> c.require_mandate == true,
        env.contains_key("ICP_REQUIRE_REQUEST_ID"@)
            ==> c.require_request_id == says_yes(env["ICP_REQUIRE_REQUEST_ID"@]@),
        !env.contains_key("ICP_REQUIRE_REQUEST_ID"@) ==> c.require_request_id == false,
        env.contains_key("ICP_REQUIRE_IDEMPOTENCY_KEY"@)
            ==> c.require_idempotency_key == says_yes(env["ICP_REQUIRE_IDEMPOTENCY_KEY"@]@),
        !env.contains_key("ICP_REQUIRE_IDEMPOTENCY_KEY"@) ==> c.require_idempotency_key == false,
        env.contains_key("ICP_VERIFY_MANDATE_SIGNATURES"@)
            ==> c.verify_mandate_signatures == says_yes(env["ICP_VERIFY_MANDATE_SIGNATURES"@]@),
        !env.contains_key("ICP_VERIFY_MANDATE_SIGNATURES"@) ==> c.verify_mandate_signatures == true,
        env.contains_key("ICP_PUBLIC_BASE_URL"@)
            ==> c.public_base_url@ == env["ICP_PUBLIC_BASE_URL"@]@,
        env.contains_key("ICP_HANDLER_ID"@) ==> c.handler_id@ == env["ICP_HANDLER_ID"@]@,
        env.contains_key("ICP_SERVICE_NAME"@) ==> c.service_name@ == env["ICP_SERVICE_NAME"@]@,
        env.contains_key("ICP_SIGNING_KEY_PEM"@)
            ==> (c.signing_key_pem_env matches Some(t) && t@ == env["ICP_SIGNING_KEY_PEM"@]@),
        !env.contains_key("ICP_SIGNING_KEY_PEM"@) ==> c.signing_key_pem_env is None,
        env.contains_key("ICP_SIGNING_KID"@) ==> c.signing_kid@ == env["ICP_SIGNING_KID"@]@,
        env.contains_key("ICP_ALLOW_INSECURE_URLS"@)
            ==> c.allow_insecure_urls == says_yes(env["ICP_ALLOW_INSECURE_URLS"@]@),
        !env.contains_key("ICP_ALLOW_INSECURE_URLS"@) ==> c.allow_insecure_urls == true,
        env.contains_key("ICP_API_KEYS_JSON"@)
            ==> (c.api_keys_json matches Some(t) && t@ == env["ICP_API_KEYS_JSON"@]@),
        !env.contains_key("ICP_API_KEYS_JSON"@) ==> c.api_keys_json is None,
        env.contains_key("ICP_API_KEYS_FILE"@)
            ==> (c.api_keys_file matches Some(t) && t@ == env["ICP_API_KEYS_FILE"@]@),
        !env.contains_key("ICP_API_KEYS_FILE"@) ==> c.api_keys_file is None,
        env.contains_key("ICP_ENABLE_DEMO_KEYS"@)
            ==> c.enable_demo_keys == says_yes(env["ICP_ENABLE_DEMO_KEYS"@]@),
        !env.contains_key("ICP_ENABLE_DEMO_KEYS"@) ==> c.enable_demo_keys == false,
        env.contains_key("COMMERCE_ENABLED"@)
            ==> c.commerce_enabled == says_yes(env["COMMERCE_ENABLED"@]@),
        !env.contains_key("COMMERCE_ENABLED"@) ==> c.commerce_enabled == true,
        env.contains_key("COMMERCE_DB_PATH"@) ==> c.commerce_db_path@ == env["COMMERCE_DB_PATH"@]@,
        env.contains_key("ICP_TRANSACTION_TTL_SECONDS"@) ==> (parsed_nat(
            env["ICP_TRANSACTION_TTL_SECONDS"@]@,
        ) matches Some(n) ==> (0 <= n <= u64::MAX ==> c.transaction_ttl_secs
            == n)),
        env.contains_key("ICP_STATE_DB_PATH"@) ==> c.state_db_path@ == env["ICP_STATE_DB_PATH"@]@,
        env.contains_key("REDIS_URL"@)
            ==> (c.redis_url matches Some(t) && t@ == env["REDIS_URL"@]@),
        !env.contains_key("REDIS_URL"@) ==> c.redis_url is None,
        env.contains_key("ICP_WEBHOOK_URL"@)
            ==> (c.webhook_url matches Some(t) && t@ == env["ICP_WEBHOOK_URL"@]@),
        !env.contains_key("ICP_WEBHOOK_URL"@) ==> c.webhook_url is None,
        env.contains_key("ICP_WEBHOOK_SECRET"@)
            ==> (c.webhook_secret matches Some(t) && t@ == env["ICP_WEBHOOK_SECRET"@]@),
        !env.contains_key("ICP_WEBHOOK_SECRET"@) ==> c.webhook_secret is None,
        env.contains_key("ICP_A2A_ENABLED"@)
            ==> c.a2a_enabled == says_yes(env["ICP_A2A_ENABLED"@]@),
        !env.contains_key("ICP_A2A_ENABLED"@) ==> c.a2a_enabled == true,
        env.contains_key("ICP_MCP_ENABLED"@)
            ==> c.mcp_enabled == says_yes(env["ICP_MCP_ENABLED"@]@),
        !env.contains_key("ICP_MCP_ENABLED"@) ==> c.mcp_enabled == true,
        env.contains_key("ICP_ACP_COMPAT_ENABLED"@)
            ==> c.acp_compat_enabled == says_yes(env["ICP_ACP_COMPAT_ENABLED"@]@),
        !env.contains_key("ICP_ACP_COMPAT_ENABLED"@) ==> c.acp_compat_enabled == true,
        env.contains_key("ICP_UCP_COMPAT_ENABLED"@)
            ==> c.ucp_compat_enabled == says_yes(env["ICP_UCP_COMPAT_ENABLED"@]@),
        !env.contains_key("ICP_UCP_COMPAT_ENABLED"@) ==> c.ucp_compat_enabled == true,
        env.contains_key("ICP_RATE_LIMIT_PER_MINUTE"@) ==> (parsed_nat(
            env["ICP_RATE_LIMIT_PER_MINUTE"@]@,
        ) matches Some(n) ==> (0 <= n <= u32::MAX ==> c.rate_limit_per_minute
            == n)),
        env.contains_key("ICP_PRE_AUTH_RATE_LIMIT_PER_MINUTE"@) ==> (parsed_nat(
            env["ICP_PRE_AUTH_RATE_LIMIT_PER_MINUTE"@]@,
        ) matches Some(n) ==> (0 <= n <= u32::MAX ==> c.pre_auth_rate_limit_per_minute
            == n)),
        env.contains_key("ICP_SUBSCRIPTION_SCHEDULER_ENABLED"@)
            ==> c.subscription_scheduler_enabled == says_yes(env["ICP_SUBSCRIPTION_SCHEDULER_ENABLED"@]@),
        !env.contains_key("ICP_SUBSCRIPTION_SCHEDULER_ENABLED"@)
            ==> c.subscription_scheduler_enabled == true,
        env.contains_key("ICP_SUBSCRIPTION_SCHEDULER_INTERVAL_SECS"@) ==> (parsed_nat(
            env["ICP_SUBSCRIPTION_SCHEDULER_INTERVAL_SECS"@]@,
        ) matches Some(n) ==> (0 <= n <= u64::MAX ==> c.subscription_scheduler_interval_secs
            == n)),
        env.contains_key("LOG_LEVEL"@) ==> c.log_level@ == env["LOG_LEVEL"@]@,
        env.contains_key("ICP_CORS_ALLOW_ORIGINS"@) ==> string_views(c.cors_allow_origins@)
            == list_entries(split_all(env["ICP_CORS_ALLOW_ORIGINS"@]@, ',')),
        env.contains_key("ICP_SUBSCRIPTION_DUNNING_SCHEDULE_HOURS"@)
            ==> c.subscription_dunning_schedule_hours@ == schedule_hours(
            split_all(env["ICP_SUBSCRIPTION_DUNNING_SCHEDULE_HOURS"@]@, ','),
        ),
        c.payment_execution_mode@.len() == 0 && !c.production,
{
}

} // verus!
