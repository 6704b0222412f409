//! OAuth2 scopes and the prompt setting, with their wire names.

use vstd::prelude::*;

verus! {

/// An OAuth2 scope this library can request.
#[derive(Clone, Copy, Debug, Eq, PartialEq, Structural)]
pub enum Scope {
    /// Put the bot in the user's selected guild.
    Bot,
    /// Read the user's third-party connections.
    Connections,
    /// Read the user's email address.
    Email,
    /// Read basic user information.
    Identify,
    /// Read the user's guild list.
    Guilds,
    /// Join guilds on the user's behalf.
    GuildsJoin,
    /// Join group direct messages on the user's behalf.
    GdmJoin,
    /// Read messages on the user's behalf.
    MessagesRead,
    /// Control the user's local client.
    Rpc,
    /// Use the local client's API.
    RpcApi,
    /// Read the local client's notifications.
    RpcNotificationsRead,
    /// Create a webhook in the user's selected channel.
    WebhookIncoming,
}

/// Wire name of each scope.
pub open spec fn scope_name_spec(s: Scope) -> Seq<char> {
    match s {
        Scope::Bot => "bot"@,
        Scope::Connections => "connections"@,
        Scope::Email => "email"@,
        Scope::Identify => "identify"@,
        Scope::Guilds => "guilds"@,
        Scope::GuildsJoin => "guilds.join"@,
        Scope::GdmJoin => "gdm.join"@,
        Scope::MessagesRead => "messages.read"@,
        Scope::Rpc => "rpc"@,
        Scope::RpcApi => "rpc.api"@,
        Scope::RpcNotificationsRead => "rpc.notifications.read"@,
        Scope::WebhookIncoming => "webhook.incoming"@,
    }
}

impl Scope {
    /// Wire name of the scope.
    pub fn name(self) -> (r: &'static str)
        ensures
            r@ == scope_name_spec(self),
    {
        match self {
            Scope::Bot => "bot",
            Scope::Connections => "connections",
            Scope::Email => "email",
            Scope::Identify => "identify",
            Scope::Guilds => "guilds",
            Scope::GuildsJoin => "guilds.join",
            Scope::GdmJoin => "gdm.join",
            Scope::MessagesRead => "messages.read",
            Scope::Rpc => "rpc",
            Scope::RpcApi => "rpc.api",
            Scope::RpcNotificationsRead => "rpc.notifications.read",
            Scope::WebhookIncoming => "webhook.incoming",
        }
    }
}

/// How the user is prompted for authorization.
#[derive(Clone, Copy, Debug, Eq, PartialEq, Structural)]
pub enum Prompt {
    /// Always ask for consent.
    Consent,
    /// Skip the prompt where the platform allows it.
    SkipPrompt,
}

/// Wire name of each prompt setting.
pub open spec fn prompt_name_spec(p: Prompt) -> Seq<char> {
    match p {
        Prompt::Consent => "consent"@,
        Prompt::SkipPrompt => "none"@,
    }
}

impl Prompt {
    /// Wire name of the prompt setting.
    pub fn name(self) -> (r: &'static str)
        ensures
            r@ == prompt_name_spec(self),
    {
        match self {
            Prompt::Consent => "consent",
            Prompt::SkipPrompt => "none",
        }
    }
}

/// The rest of a scope list as it appears in a URL: a `%20` separator
/// before each name.
pub open spec fn scope_tail_spec(s: Seq<Scope>) -> Seq<char>
    decreases s.len(),
{
    if s.len() == 0 {
        Seq::empty()
    } else {
        "%20"@ + scope_name_spec(s[0]) + scope_tail_spec(s.drop_first())
    }
}

/// A scope list as it appears in a URL: the names joined by `%20`.
pub open spec fn scope_join_spec(s: Seq<Scope>) -> Seq<char> {
    if s.len() == 0 {
        Seq::empty()
    } else {
        scope_name_spec(s[0]) + scope_tail_spec(s.drop_first())
    }
}

/// Appending a scope appends a separator and its name.
pub proof fn lemma_scope_tail_push(s: Seq<Scope>, x: Scope)
    ensures
        scope_tail_spec(s.push(x)) == scope_tail_spec(s) + "%20"@ + scope_name_spec(x),
    decreases s.len(),
{
    assert(scope_tail_spec(s.push(x)) == "%20"@ + scope_name_spec(s.push(x)[0]) + scope_tail_spec(
        s.push(x).drop_first(),
    ));
    if s.len() == 0 {
        assert(s.push(x).drop_first() =~= Seq::<Scope>::empty());
        assert(s.push(x)[0] == x);
        assert(scope_tail_spec(Seq::<Scope>::empty()) == Seq::<char>::empty());
        assert(scope_tail_spec(s.push(x)) =~= scope_tail_spec(s) + "%20"@ + scope_name_spec(x));
    } else {
        lemma_scope_tail_push(s.drop_first(), x);
        assert(s.push(x).drop_first() =~= s.drop_first().push(x));
        assert(s.push(x)[0] == s[0]);
        assert(scope_tail_spec(s.push(x)) =~= scope_tail_spec(s) + "%20"@ + scope_name_spec(x));
    }
}

/// Join a scope list with `%20` separators, as authorization URLs carry it.
pub fn scope_join(scopes: &Vec<Scope>) -> (r: String)
    ensures
        r@ == scope_join_spec(scopes@),
{
    let n = scopes.len();
    if n == 0 {
        let r = String::new();
        proof {
            assert(r@ =~= scope_join_spec(scopes@));
        }
        return r;
    }
    let mut r = scopes[0].name().to_owned();
    proof {
        assert(scopes@.subrange(1, 1) =~= Seq::<Scope>::empty());
        assert(r@ =~= scope_name_spec(scopes@[0]) + scope_tail_spec(scopes@.subrange(1, 1)));
    }
    let mut i: usize = 1;
    while i < n
        invariant
            1 <= i <= n,
            n == scopes@.len(),
            r@ == scope_name_spec(scopes@[0]) + scope_tail_spec(scopes@.subrange(1, i as int)),
        decreases n - i,
    {
        proof {
            assert(scopes@.subrange(1, i as int + 1) =~= scopes@.subrange(1, i as int).push(
                scopes@[i as int],
            ));
            lemma_scope_tail_push(scopes@.subrange(1, i as int), scopes@[i as int]);
        }
        r.append("%20");
        r.append(scopes[i].name());
        proof {
            assert(r@ =~= scope_name_spec(scopes@[0]) + scope_tail_spec(
                scopes@.subrange(1, i as int + 1),
            ));
        }
        i = i + 1;
    }
    proof {
        assert(scopes@.subrange(1, n as int) =~= scopes@.drop_first());
        if n == 1 {
            assert(scopes@.subrange(1, 1) =~= Seq::<Scope>::empty());
        }
        assert(r@ =~= scope_join_spec(scopes@));
    }
    r
}

} // verus!
