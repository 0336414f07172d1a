//! The intents of the protocol and the mandate scope of each.

use vstd::prelude::*;

use crate::errors::{ApiError, ErrorView};
use crate::text::{
    after_prefix, has_prefix, join3, lemma_trimmed_of_visible, str_eq, strip_prefix, trim, trimmed,
};

verus! {

/// What an agent asks for.
#[derive(Debug, Clone, Copy, PartialEq, Eq, Structural, Hash)]
pub enum Intent {
    Search,
    Describe,
    Quote,
    Negotiate,
    Authorize,
    Buy,
    Pay,
    Subscribe,
    Renew,
    Pause,
    CancelSubscription,
    Track,
    ConfirmReceipt,
    Return,
    RefundRequest,
    A2aPay,
    A2aQuote,
}

impl Intent {
    /// The name without the `intent.` prefix.
    pub open spec fn short_name(self) -> Seq<char> {
        match self {
            Intent::Search => "search"@,
            Intent::Describe => "describe"@,
            Intent::Quote => "quote"@,
            Intent::Negotiate => "negotiate"@,
            Intent::Authorize => "authorize"@,
            Intent::Buy => "buy"@,
            Intent::Pay => "pay"@,
            Intent::Subscribe => "subscribe"@,
            Intent::Renew => "renew"@,
            Intent::Pause => "pause"@,
            Intent::CancelSubscription => "cancel_subscription"@,
            Intent::Track => "track"@,
            Intent::ConfirmReceipt => "confirm_receipt"@,
            Intent::Return => "return"@,
            Intent::RefundRequest => "refund_request"@,
            Intent::A2aPay => "a2a_pay"@,
            Intent::A2aQuote => "a2a_quote"@,
        }
    }

    /// The name on the wire.
    pub open spec fn name(self) -> Seq<char> {
        match self {
            Intent::Search => "intent.search"@,
            Intent::Describe => "intent.describe"@,
            Intent::Quote => "intent.quote"@,
            Intent::Negotiate => "intent.negotiate"@,
            Intent::Authorize => "intent.authorize"@,
            Intent::Buy => "intent.buy"@,
            Intent::Pay => "intent.pay"@,
            Intent::Subscribe => "intent.subscribe"@,
            Intent::Renew => "intent.renew"@,
            Intent::Pause => "intent.pause"@,
            Intent::CancelSubscription => "intent.cancel_subscription"@,
            Intent::Track => "intent.track"@,
            Intent::ConfirmReceipt => "intent.confirm_receipt"@,
            Intent::Return => "intent.return"@,
            Intent::RefundRequest => "intent.refund_request"@,
            Intent::A2aPay => "intent.a2a_pay"@,
            Intent::A2aQuote => "intent.a2a_quote"@,
        }
    }

    /// The scope a mandate must carry, if the intent needs one.
    pub open spec fn required_scope(self) -> Option<Seq<char>> {
        match self {
            Intent::Search | Intent::Describe => None,
            Intent::Quote | Intent::Negotiate => Some("quote"@),
            Intent::Authorize | Intent::Buy | Intent::Pay => Some("buy"@),
            Intent::Subscribe | Intent::Renew | Intent::Pause | Intent::CancelSubscription => Some(
                "subscribe"@,
            ),
            Intent::Track | Intent::ConfirmReceipt => Some("fulfill"@),
            Intent::Return | Intent::RefundRequest => Some("return"@),
            Intent::A2aPay | Intent::A2aQuote => Some("pay_peer"@),
        }
    }

    /// Whether the intent creates or moves a transaction.
    pub open spec fn changes_state(self) -> bool {
        !(self is Search || self is Describe || self is Track)
    }

    /// The part of a wire name that says which intent it is: surrounding white
    /// space and an `intent.` prefix are left out.
    pub open spec fn key_of(s: Seq<char>) -> Seq<char> {
        match after_prefix(trimmed(s), "intent."@) {
            Some(rest) => rest,
            None => trimmed(s),
        }
    }

    /// Reads a wire name such as `intent.buy`; the prefix may be missing.
    pub fn parse(s: &str) -> (r: Result<Intent, ApiError>)
        ensures
            match r {
                Ok(i) => Intent::key_of(s@) == i.short_name(),
                Err(e) => {
                    &&& forall|i: Intent| Intent::key_of(s@) != #[trigger] i.short_name()
                    &&& e@ == ErrorView::IntentNotSupported(
                        "unknown intent `intent."@ + Intent::key_of(s@) + "`"@,
                    )
                },
            },
    {
        let trimmed_name = trim(s);
        let name = match strip_prefix(trimmed_name, "intent.") {
            Some(rest) => rest,
            None => trimmed_name,
        };
        if str_eq(name, "search") {
            Ok(Intent::Search)
        } else if str_eq(name, "describe") {
            Ok(Intent::Describe)
        } else if str_eq(name, "quote") {
            Ok(Intent::Quote)
        } else if str_eq(name, "negotiate") {
            Ok(Intent::Negotiate)
        } else if str_eq(name, "authorize") {
            Ok(Intent::Authorize)
        } else if str_eq(name, "buy") {
            Ok(Intent::Buy)
        } else if str_eq(name, "pay") {
            Ok(Intent::Pay)
        } else if str_eq(name, "subscribe") {
            Ok(Intent::Subscribe)
        } else if str_eq(name, "renew") {
            Ok(Intent::Renew)
        } else if str_eq(name, "pause") {
            Ok(Intent::Pause)
        } else if str_eq(name, "cancel_subscription") {
            Ok(Intent::CancelSubscription)
        } else if str_eq(name, "track") {
            Ok(Intent::Track)
        } else if str_eq(name, "confirm_receipt") {
            Ok(Intent::ConfirmReceipt)
        } else if str_eq(name, "return") {
            Ok(Intent::Return)
        } else if str_eq(name, "refund_request") {
            Ok(Intent::RefundRequest)
        } else if str_eq(name, "a2a_pay") {
            Ok(Intent::A2aPay)
        } else if str_eq(name, "a2a_quote") {
            Ok(Intent::A2aQuote)
        } else {
            Err(ApiError::IntentNotSupported(join3("unknown intent `intent.", name, "`")))
        }
    }

    /// The name on the wire.
    pub fn wire_name(self) -> (r: &'static str)
        ensures
            r@ == self.name(),
    {
        match self {
            Intent::Search => "intent.search",
            Intent::Describe => "intent.describe",
            Intent::Quote => "intent.quote",
            Intent::Negotiate => "intent.negotiate",
            Intent::Authorize => "intent.authorize",
            Intent::Buy => "intent.buy",
            Intent::Pay => "intent.pay",
            Intent::Subscribe => "intent.subscribe",
            Intent::Renew => "intent.renew",
            Intent::Pause => "intent.pause",
            Intent::CancelSubscription => "intent.cancel_subscription",
            Intent::Track => "intent.track",
            Intent::ConfirmReceipt => "intent.confirm_receipt",
            Intent::Return => "intent.return",
            Intent::RefundRequest => "intent.refund_request",
            Intent::A2aPay => "intent.a2a_pay",
            Intent::A2aQuote => "intent.a2a_quote",
        }
    }

    /// The mandate scope that gates this intent, or nothing for read-only
    /// intents that need no mandate.
    pub fn scope(self) -> (r: Option<&'static str>)
        ensures
            match r {
                Some(s) => self.required_scope() == Some(s@),
                None => self.required_scope() is None,
            },
    {
        match self {
            Intent::Search | Intent::Describe => None,
            Intent::Quote | Intent::Negotiate => Some("quote"),
            Intent::Authorize | Intent::Buy | Intent::Pay => Some("buy"),
            Intent::Subscribe | Intent::Renew | Intent::Pause | Intent::CancelSubscription => Some(
                "subscribe",
            ),
            Intent::Track | Intent::ConfirmReceipt => Some("fulfill"),
            Intent::Return | Intent::RefundRequest => Some("return"),
            Intent::A2aPay | Intent::A2aQuote => Some("pay_peer"),
        }
    }

    /// The name without the `intent.` prefix.
    pub fn short_wire_name(self) -> (r: &'static str)
        ensures
            r@ == self.short_name(),
    {
        match self {
            Intent::Search => "search",
            Intent::Describe => "describe",
            Intent::Quote => "quote",
            Intent::Negotiate => "negotiate",
            Intent::Authorize => "authorize",
            Intent::Buy => "buy",
            Intent::Pay => "pay",
            Intent::Subscribe => "subscribe",
            Intent::Renew => "renew",
            Intent::Pause => "pause",
            Intent::CancelSubscription => "cancel_subscription",
            Intent::Track => "track",
            Intent::ConfirmReceipt => "confirm_receipt",
            Intent::Return => "return",
            Intent::RefundRequest => "refund_request",
            Intent::A2aPay => "a2a_pay",
            Intent::A2aQuote => "a2a_quote",
        }
    }

    /// Whether this intent creates or moves a transaction, and therefore must
    /// be signed into a receipt.
    pub fn is_state_change(self) -> (r: bool)
        ensures
            r == self.changes_state(),
    {
        !matches!(self, Intent::Search | Intent::Describe | Intent::Track)
    }

    /// Every intent, in the order of the protocol.
    pub open spec fn all() -> Seq<Intent> {
        seq![
            Intent::Search,
            Intent::Describe,
            Intent::Quote,
            Intent::Negotiate,
            Intent::Authorize,
            Intent::Buy,
            Intent::Pay,
            Intent::Subscribe,
            Intent::Renew,
            Intent::Pause,
            Intent::CancelSubscription,
            Intent::Track,
            Intent::ConfirmReceipt,
            Intent::Return,
            Intent::RefundRequest,
            Intent::A2aPay,
            Intent::A2aQuote,
        ]
    }

    /// Every intent, in the order of the protocol.
    pub fn all_intents() -> (r: Vec<Intent>)
        ensures
            r@ == Intent::all(),
    {
        let r = vec![
            Intent::Search,
            Intent::Describe,
            Intent::Quote,
            Intent::Negotiate,
            Intent::Authorize,
            Intent::Buy,
            Intent::Pay,
            Intent::Subscribe,
            Intent::Renew,
            Intent::Pause,
            Intent::CancelSubscription,
            Intent::Track,
            Intent::ConfirmReceipt,
            Intent::Return,
            Intent::RefundRequest,
            Intent::A2aPay,
            Intent::A2aQuote,
        ];
        assert(r@ =~= Intent::all());
        r
    }
}

/// Every intent is listed.
pub proof fn law_all_is_complete(i: Intent)
    ensures
        Intent::all().contains(i),
{
    let all = Intent::all();
    match i {
        Intent::Search => { assert(all[0] == i); },
        Intent::Describe => { assert(all[1] == i); },
        Intent::Quote => { assert(all[2] == i); },
        Intent::Negotiate => { assert(all[3] == i); },
        Intent::Authorize => { assert(all[4] == i); },
        Intent::Buy => { assert(all[5] == i); },
        Intent::Pay => { assert(all[6] == i); },
        Intent::Subscribe => { assert(all[7] == i); },
        Intent::Renew => { assert(all[8] == i); },
        Intent::Pause => { assert(all[9] == i); },
        Intent::CancelSubscription => { assert(all[10] == i); },
        Intent::Track => { assert(all[11] == i); },
        Intent::ConfirmReceipt => { assert(all[12] == i); },
        Intent::Return => { assert(all[13] == i); },
        Intent::RefundRequest => { assert(all[14] == i); },
        Intent::A2aPay => { assert(all[15] == i); },
        Intent::A2aQuote => { assert(all[16] == i); },
    }
}

proof fn reveal_names()
    ensures
        Intent::Search.short_name() == seq!['s', 'e', 'a', 'r', 'c', 'h'],
        Intent::Describe.short_name() == seq!['d', 'e', 's', 'c', 'r', 'i', 'b', 'e'],
        Intent::Quote.short_name() == seq!['q', 'u', 'o', 't', 'e'],
        Intent::Negotiate.short_name() == seq!['n', 'e', 'g', 'o', 't', 'i', 'a', 't', 'e'],
        Intent::Authorize.short_name() == seq!['a', 'u', 't', 'h', 'o', 'r', 'i', 'z', 'e'],
        Intent::Buy.short_name() == seq!['b', 'u', 'y'],
        Intent::Pay.short_name() == seq!['p', 'a', 'y'],
        Intent::Subscribe.short_name() == seq!['s', 'u', 'b', 's', 'c', 'r', 'i', 'b', 'e'],
        Intent::Renew.short_name() == seq!['r', 'e', 'n', 'e', 'w'],
        Intent::Pause.short_name() == seq!['p', 'a', 'u', 's', 'e'],
        Intent::CancelSubscription.short_name() == seq!['c', 'a', 'n', 'c', 'e', 'l', '_', 's', 'u', 'b', 's', 'c', 'r', 'i', 'p', 't', 'i', 'o', 'n'],
        Intent::Track.short_name() == seq!['t', 'r', 'a', 'c', 'k'],
        Intent::ConfirmReceipt.short_name() == seq!['c', 'o', 'n', 'f', 'i', 'r', 'm', '_', 'r', 'e', 'c', 'e', 'i', 'p', 't'],
        Intent::Return.short_name() == seq!['r', 'e', 't', 'u', 'r', 'n'],
        Intent::RefundRequest.short_name() == seq!['r', 'e', 'f', 'u', 'n', 'd', '_', 'r', 'e', 'q', 'u', 'e', 's', 't'],
        Intent::A2aPay.short_name() == seq!['a', '2', 'a', '_', 'p', 'a', 'y'],
        Intent::A2aQuote.short_name() == seq!['a', '2', 'a', '_', 'q', 'u', 'o', 't', 'e'],
{
    reveal_strlit("search");
    reveal_strlit("describe");
    reveal_strlit("quote");
    reveal_strlit("negotiate");
    reveal_strlit("authorize");
    reveal_strlit("buy");
    reveal_strlit("pay");
    reveal_strlit("subscribe");
    reveal_strlit("renew");
    reveal_strlit("pause");
    reveal_strlit("cancel_subscription");
    reveal_strlit("track");
    reveal_strlit("confirm_receipt");
    reveal_strlit("return");
    reveal_strlit("refund_request");
    reveal_strlit("a2a_pay");
    reveal_strlit("a2a_quote");
    assert("search"@ =~= seq!['s', 'e', 'a', 'r', 'c', 'h']);
    assert("describe"@ =~= seq!['d', 'e', 's', 'c', 'r', 'i', 'b', 'e']);
    assert("quote"@ =~= seq!['q', 'u', 'o', 't', 'e']);
    assert("negotiate"@ =~= seq!['n', 'e', 'g', 'o', 't', 'i', 'a', 't', 'e']);
    assert("authorize"@ =~= seq!['a', 'u', 't', 'h', 'o', 'r', 'i', 'z', 'e']);
    assert("buy"@ =~= seq!['b', 'u', 'y']);
    assert("pay"@ =~= seq!['p', 'a', 'y']);
    assert("subscribe"@ =~= seq!['s', 'u', 'b', 's', 'c', 'r', 'i', 'b', 'e']);
    assert("renew"@ =~= seq!['r', 'e', 'n', 'e', 'w']);
    assert("pause"@ =~= seq!['p', 'a', 'u', 's', 'e']);
    assert("cancel_subscription"@ =~= seq!['c', 'a', 'n', 'c', 'e', 'l', '_', 's', 'u', 'b', 's', 'c', 'r', 'i', 'p', 't', 'i', 'o', 'n']);
    assert("track"@ =~= seq!['t', 'r', 'a', 'c', 'k']);
    assert("confirm_receipt"@ =~= seq!['c', 'o', 'n', 'f', 'i', 'r', 'm', '_', 'r', 'e', 'c', 'e', 'i', 'p', 't']);
    assert("return"@ =~= seq!['r', 'e', 't', 'u', 'r', 'n']);
    assert("refund_request"@ =~= seq!['r', 'e', 'f', 'u', 'n', 'd', '_', 'r', 'e', 'q', 'u', 'e', 's', 't']);
    assert("a2a_pay"@ =~= seq!['a', '2', 'a', '_', 'p', 'a', 'y']);
    assert("a2a_quote"@ =~= seq!['a', '2', 'a', '_', 'q', 'u', 'o', 't', 'e']);
}

/// No two intents share a name.
pub proof fn law_names_are_distinct(i: Intent, j: Intent)
    ensures
        i.short_name() == j.short_name() ==> i == j,
{
    reveal_names();
    let a = i.short_name();
    let b = j.short_name();
    if i != j && a == b {
        assert(a.len() == b.len());
        assert(a[0] == b[0]);
        assert(a[1] == b[1]);
        assert(a[2] == b[2]);
    }
}

/// The wire name of an intent is its short name behind a prefix.
pub proof fn lemma_name_has_prefix(i: Intent)
    ensures
        i.name() == "intent."@ + i.short_name(),
{
    reveal_names();
    reveal_strlit("intent.");
    reveal_strlit("intent.search");
    reveal_strlit("intent.describe");
    reveal_strlit("intent.quote");
    reveal_strlit("intent.negotiate");
    reveal_strlit("intent.authorize");
    reveal_strlit("intent.buy");
    reveal_strlit("intent.pay");
    reveal_strlit("intent.subscribe");
    reveal_strlit("intent.renew");
    reveal_strlit("intent.pause");
    reveal_strlit("intent.cancel_subscription");
    reveal_strlit("intent.track");
    reveal_strlit("intent.confirm_receipt");
    reveal_strlit("intent.return");
    reveal_strlit("intent.refund_request");
    reveal_strlit("intent.a2a_pay");
    reveal_strlit("intent.a2a_quote");
    assert(i.name() =~= "intent."@ + i.short_name());
}

/// Reading the wire name of an intent, or the name without its prefix, gives
/// that intent.
pub proof fn law_parse_inverts_wire_name(i: Intent)
    ensures
        Intent::key_of(i.name()) == i.short_name(),
        Intent::key_of(i.short_name()) == i.short_name(),
{
    reveal_names();
    reveal_strlit("intent.");
    lemma_name_has_prefix(i);
    let p = "intent."@;
    let a = i.short_name();
    let w = i.name();
    lemma_trimmed_of_visible(w);
    lemma_trimmed_of_visible(a);
    assert(w.take(p.len() as int) =~= p);
    assert(w.skip(p.len() as int) =~= a);
    assert(!has_prefix(a, p)) by {
        if has_prefix(a, p) {
            assert(a.take(p.len() as int)[0] == a[0]);
        }
    }
}

/// Only searching and describing need no mandate.
pub proof fn law_open_intents(i: Intent)
    ensures
        i.required_scope() is None <==> (i is Search || i is Describe),
{
}

/// Each intent needs the scope of what it is for: quoting, buying, subscribing, following an
/// order, returning, or paying a peer.
pub proof fn law_scopes_group_the_intents(i: Intent)
    ensures
        i is Quote || i is Negotiate <==> i.required_scope() == Some("quote"@),
        i is Authorize || i is Buy || i is Pay <==> i.required_scope() == Some("buy"@),
        i is Subscribe || i is Renew || i is Pause || i is CancelSubscription
            <==> i.required_scope() == Some("subscribe"@),
        i is Track || i is ConfirmReceipt <==> i.required_scope() == Some("fulfill"@),
        i is Return || i is RefundRequest <==> i.required_scope() == Some("return"@),
        i is A2aPay || i is A2aQuote <==> i.required_scope() == Some("pay_peer"@),
{
    reveal_strlit("quote");
    reveal_strlit("buy");
    reveal_strlit("subscribe");
    reveal_strlit("fulfill");
    reveal_strlit("return");
    reveal_strlit("pay_peer");
    assert("quote"@.len() == 5 && "buy"@.len() == 3 && "subscribe"@.len() == 9 && "fulfill"@.len()
        == 7 && "return"@.len() == 6 && "pay_peer"@.len() == 8);
}

/// Only looking changes nothing: a search, a description and tracking are answered without
/// a receipt, and everything else with one.
pub proof fn law_only_looking_changes_nothing(i: Intent)
    ensures
        !i.changes_state() <==> i is Search || i is Describe || i is Track,
{
}

/// A name is read without regard to white space around it and to the `intent.` before it.
pub proof fn law_names_are_read_with_and_without_prefix(s: Seq<char>)
    ensures
        has_prefix(trimmed(s), "intent."@) ==> "intent."@ + Intent::key_of(s) == trimmed(s),
        !has_prefix(trimmed(s), "intent."@) ==> Intent::key_of(s) == trimmed(s),
{
    let t = trimmed(s);
    if has_prefix(t, "intent."@) {
        assert("intent."@ + t.skip("intent."@.len() as int) =~= t);
    }
}

} // verus!
