//! What holds of reading, writing and reversing topics.

use vstd::prelude::*;
use crate::error::ParseErrorView;
use crate::id::{
    id_text, is_canonical, is_hex_digit, is_hyphen_position, lemma_text_round_trip,
    lemma_value_round_trip,
};
use crate::text::{
    after_slash, after_token, first_token, has_at, lemma_prefix, lemma_token_of_concat,
    lemma_token_split,
};
use crate::topic::agent::{
    AgentTopic, AgentTopicKind, agent_reversed, agent_text, kind_of, kind_reversed, kind_text,
    parse_agent, parse_head,
};
use crate::topic::ping::{PingTopicKind, parse_ping, ping_reversed, ping_text};
use crate::topic::state::{parse_state, state_text};
use crate::topic::{Topic, canonical, is_reversible, parse_topic, topic_reversed, topic_text};
use crate::version::version_text;

verus! {

/// Reversing a liveness topic twice gives the topic back.
pub proof fn lemma_ping_reverse_involution(kind: PingTopicKind)
    ensures
        ping_reversed(ping_reversed(kind)) == kind,
{
}

/// Reversing a direction twice gives the direction back.
pub proof fn lemma_kind_reverse_involution(kind: AgentTopicKind)
    ensures
        kind_reversed(kind_reversed(kind)) == kind,
{
}

/// Reversing an agent topic changes the direction and nothing else, and
/// reversing it twice gives the topic back.
pub proof fn lemma_agent_reverse_involution(t: AgentTopic)
    ensures
        agent_reversed(t).agent_id == t.agent_id,
        agent_reversed(t).version == t.version,
        agent_reversed(t).kind != t.kind,
        agent_reversed(agent_reversed(t)) == t,
{
}

/// The reverse of a request topic is a request topic, whose reverse is
/// the topic itself.
pub proof fn lemma_reverse_involution(t: Topic)
    requires
        is_reversible(t),
    ensures
        topic_reversed(t) is Some,
        is_reversible(topic_reversed(t)->0),
        topic_reversed(topic_reversed(t)->0) == Some(t),
{
}

/// What the fixed texts of the grammar hold, as far as the laws need it.
proof fn lemma_fixed_texts()
    ensures
        "ping"@ == seq!['p', 'i', 'n', 'g'],
        "pong"@ == seq!['p', 'o', 'n', 'g'],
        "agents/"@ == seq!['a', 'g', 'e', 'n', 't', 's', '/'],
        "/"@ == seq!['/'],
        "in"@ == seq!['i', 'n'],
        "out"@ == seq!['o', 'u', 't'],
        "state"@ == seq!['s', 't', 'a', 't', 'e'],
        "v1"@ == seq!['v', '1'],
        "/api/"@ == seq!['/', 'a', 'p', 'i', '/'],
        "/state/api/"@ == "/"@ + "state"@ + "/api/"@,
        "/signals.netology-group.services/api/"@.len() == 37,
        "/signals.netology-group.services/api/"@[0] == '/',
{
    reveal_strlit("ping");
    reveal_strlit("pong");
    reveal_strlit("agents/");
    reveal_strlit("/");
    reveal_strlit("in");
    reveal_strlit("out");
    reveal_strlit("state");
    reveal_strlit("v1");
    reveal_strlit("/api/");
    reveal_strlit("/state/api/");
    reveal_strlit("/signals.netology-group.services/api/");
    assert("ping"@ =~= seq!['p', 'i', 'n', 'g']);
    assert("pong"@ =~= seq!['p', 'o', 'n', 'g']);
    assert("agents/"@ =~= seq!['a', 'g', 'e', 'n', 't', 's', '/']);
    assert("/"@ =~= seq!['/']);
    assert("in"@ =~= seq!['i', 'n']);
    assert("out"@ =~= seq!['o', 'u', 't']);
    assert("state"@ =~= seq!['s', 't', 'a', 't', 'e']);
    assert("v1"@ =~= seq!['v', '1']);
    assert("/api/"@ =~= seq!['/', 'a', 'p', 'i', '/']);
    assert("/state/api/"@ =~= "/"@ + "state"@ + "/api/"@);
}

/// A canonical identifier text holds no `/`.
proof fn lemma_canonical_has_no_slash(s: Seq<char>)
    requires
        is_canonical(s),
    ensures
        forall|i: int| 0 <= i < s.len() ==> #[trigger] s[i] != '/',
{
    assert forall|i: int| 0 <= i < s.len() implies #[trigger] s[i] != '/' by {
        if is_hyphen_position(i) {
            assert(s[i] == '-');
        } else {
            assert(is_hex_digit(s[i]));
        }
    }
}

/// The head of an address that is written as `agents/`, an identifier's
/// text, `/`, a segment without `/`, and a rest that is empty or begins
/// with `/`.
proof fn lemma_head_of_text(value: u128, token: Seq<char>, rest: Seq<char>)
    requires
        forall|i: int| 0 <= i < token.len() ==> #[trigger] token[i] != '/',
        rest.len() > 0 ==> rest[0] == '/',
    ensures
        parse_head("agents/"@ + id_text(value) + "/"@ + token + rest) matches Ok(head)
            && head.agent_id.value == value && head.token == token && head.rest == rest,
        !has_at("agents/"@ + id_text(value) + "/"@ + token + rest, 0, "ping"@),
        !has_at("agents/"@ + id_text(value) + "/"@ + token + rest, 0, "pong"@),
{
    lemma_fixed_texts();
    lemma_value_round_trip(value);
    let id = id_text(value);
    let r2 = token + rest;
    let r1 = "/"@ + r2;
    let r = id + r1;
    let s = "agents/"@ + id + "/"@ + token + rest;
    assert(s =~= "agents/"@ + r);
    lemma_prefix("agents/"@, r, s);
    lemma_canonical_has_no_slash(id);
    assert(r1[0] == '/');
    lemma_token_of_concat(id, r1);
    assert(after_slash(r1) =~= r2);
    lemma_token_of_concat(token, rest);
    assert(s[0] == 'a');
    if has_at(s, 0, "ping"@) {
        assert(s.subrange(0, 4)[0] == 'p');
    }
    if has_at(s, 0, "pong"@) {
        assert(s.subrange(0, 4)[0] == 'p');
    }
}

/// A text with a head is written as `agents/`, the text of the head's
/// identifier, `/`, the head's segment and the head's rest.
proof fn lemma_text_of_head(s: Seq<char>)
    requires
        parse_head(s) is Ok,
        parse_head(s)->Ok_0.token.len() > 0,
    ensures
        s == "agents/"@ + id_text(parse_head(s)->Ok_0.agent_id.value) + "/"@ + parse_head(
            s,
        )->Ok_0.token + parse_head(s)->Ok_0.rest,
{
    lemma_fixed_texts();
    let head = parse_head(s)->Ok_0;
    let r = s.skip("agents/"@.len() as int);
    lemma_prefix("agents/"@, Seq::empty(), s);
    let segment = first_token(r);
    lemma_text_round_trip(segment);
    lemma_token_split(r);
    let r2 = after_slash(after_token(r));
    lemma_token_split(r2);
    assert(after_token(r).len() > 0);
    assert(s =~= "agents/"@ + segment + "/"@ + head.token + head.rest);
}

/// No topic string is read in two ways: at most one of the three grammars
/// takes it, and the topic is what that grammar makes of it.
pub proof fn lemma_alternatives_exclude(s: Seq<char>)
    ensures
        !(parse_ping(s) is Ok && parse_agent(s) is Ok),
        !(parse_ping(s) is Ok && parse_state(s) is Ok),
        !(parse_agent(s) is Ok && parse_state(s) is Ok),
        parse_topic(s) is Ok <==> parse_ping(s) is Ok || parse_agent(s) is Ok || parse_state(s)
            is Ok,
        parse_ping(s) is Ok ==> parse_topic(s) == parse_ping(s),
        parse_agent(s) is Ok ==> parse_topic(s) == parse_agent(s),
        parse_state(s) is Ok ==> parse_topic(s) == parse_state(s),
{
    lemma_fixed_texts();
    if parse_ping(s) is Ok {
        assert(s.subrange(0, 4) =~= s);
    }
    if parse_head(s) is Ok {
        assert(s.subrange(0, 7)[0] == 'a');
        if has_at(s, 0, "ping"@) {
            assert(s.subrange(0, 4)[0] == 'p');
        }
        if has_at(s, 0, "pong"@) {
            assert(s.subrange(0, 4)[0] == 'p');
        }
    }
}

/// Reading the topic string of a topic that can be received gives the
/// topic back. A broadcast topic is only ever written.
pub proof fn lemma_render_then_parse(t: Topic)
    requires
        !(t is App),
    ensures
        parse_topic(topic_text(t)) == Ok::<Topic, ParseErrorView>(t),
{
    lemma_fixed_texts();
    match t {
        Topic::Ping(kind) => {
            let s = ping_text(kind);
            assert(s.subrange(0, 4) =~= s);
        },
        Topic::Agent(agent) => {
            let service = "/signals.netology-group.services/api/"@;
            let version = version_text(agent.version);
            let rest = service + version;
            let s = agent_text(agent);
            assert(s =~= "agents/"@ + id_text(agent.agent_id.value) + "/"@ + kind_text(
                agent.kind,
            ) + rest);
            assert(rest[0] == service[0]);
            lemma_head_of_text(agent.agent_id.value, kind_text(agent.kind), rest);
            lemma_prefix(service, version, rest);
            assert(version + Seq::<char>::empty() =~= version);
            lemma_token_of_concat(version, Seq::empty());
            assert(kind_of(kind_text(agent.kind)) == Some(agent.kind));
        },
        Topic::State(state) => {
            let version = version_text(state.version);
            let rest = "/api/"@ + version;
            let s = state_text(state);
            assert(s =~= "agents/"@ + id_text(state.agent_id.value) + "/"@ + "state"@ + rest);
            lemma_head_of_text(state.agent_id.value, "state"@, rest);
            lemma_prefix("/api/"@, version, rest);
            assert(version + Seq::<char>::empty() =~= version);
            lemma_token_of_concat(version, Seq::empty());
        },
        Topic::App(_) => {},
    }
}

/// Writing the topic that a topic string was read as gives the string
/// back, but for the one `/` that may close it.
pub proof fn lemma_parse_then_render(s: Seq<char>)
    requires
        parse_topic(s) is Ok,
    ensures
        topic_text(parse_topic(s)->Ok_0) == canonical(s),
{
    lemma_fixed_texts();
    if has_at(s, 0, "ping"@) || has_at(s, 0, "pong"@) {
        assert(parse_ping(s) is Ok);
    } else if parse_head(s) is Ok && parse_head(s)->Ok_0.token == "state"@ {
        let head = parse_head(s)->Ok_0;
        lemma_text_of_head(s);
        let r = head.rest.skip("/api/"@.len() as int);
        lemma_prefix("/api/"@, Seq::empty(), head.rest);
        lemma_token_split(r);
        assert(r =~= first_token(r));
        assert(s =~= state_text(parse_state(s)->Ok_0->State_0));
        assert(s.last() == '1');
    } else {
        let head = parse_head(s)->Ok_0;
        let kind = kind_of(head.token)->0;
        assert(head.token == kind_text(kind));
        lemma_text_of_head(s);
        let service = "/signals.netology-group.services/api/"@;
        let r = head.rest.skip(service.len() as int);
        lemma_prefix(service, Seq::empty(), head.rest);
        lemma_token_split(r);
        let text = agent_text(parse_agent(s)->Ok_0->Agent_0);
        if after_token(r).len() == 0 {
            assert(r =~= first_token(r));
            assert(s =~= text);
            assert(s.last() == '1');
        } else {
            assert(after_token(r) =~= seq!['/']);
            assert(s =~= text + seq!['/']);
            assert(s.drop_last() =~= text);
        }
    }
}

} // verus!
